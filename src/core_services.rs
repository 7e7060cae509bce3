//! Retained native values and the keyed property tables built from them.
//!
//! A native reference is carried as its address (`usize`, `0` for null). The
//! foreign calls themselves are made by the caller: a [`TableBuild`] says which
//! call to make next and is told what it returned, and it keeps track of every
//! reference it owns so that each is released exactly once, on every path.
use vstd::prelude::*;
use crate::status::CGError;

verus! {

/// A scalar to store as a key or a value of a native dictionary.
#[derive(Debug, Clone, PartialEq)]
pub enum CFValue {
    /// A platform index.
    Index(usize),
    /// A 32-bit float, held as its IEEE 754 bits.
    F32(u32),
    /// A 64-bit float, held as its IEEE 754 bits.
    F64(u64),
    I32(i32),
    I64(i64),
    /// Text, stored as UTF-8. An empty text makes a zero-length native string.
    String(String),
}

/// Native number type of a platform index.
pub const NUMBER_TYPE_INDEX: usize = 14;
/// Native number type of a signed 32-bit integer.
pub const NUMBER_TYPE_I32: usize = 3;
/// Native number type of a signed 64-bit integer.
pub const NUMBER_TYPE_I64: usize = 4;
/// Native number type of a 32-bit float.
pub const NUMBER_TYPE_F32: usize = 5;
/// Native number type of a 64-bit float.
pub const NUMBER_TYPE_F64: usize = 6;

impl CFValue {
    /// The native number type a value is created as; `None` for text, which
    /// becomes a native string.
    pub open spec fn number_type_spec(&self) -> Option<usize> {
        match self {
            CFValue::Index(_) => Some(NUMBER_TYPE_INDEX),
            CFValue::F32(_) => Some(NUMBER_TYPE_F32),
            CFValue::F64(_) => Some(NUMBER_TYPE_F64),
            CFValue::I32(_) => Some(NUMBER_TYPE_I32),
            CFValue::I64(_) => Some(NUMBER_TYPE_I64),
            CFValue::String(_) => None,
        }
    }

    pub fn number_type(&self) -> (r: Option<usize>)
        ensures
            r == self.number_type_spec(),
    {
        match self {
            CFValue::Index(_) => Some(NUMBER_TYPE_INDEX),
            CFValue::F32(_) => Some(NUMBER_TYPE_F32),
            CFValue::F64(_) => Some(NUMBER_TYPE_F64),
            CFValue::I32(_) => Some(NUMBER_TYPE_I32),
            CFValue::I64(_) => Some(NUMBER_TYPE_I64),
            CFValue::String(_) => None,
        }
    }
}

/// The one owner of a native value reference. It is neither `Copy` nor
/// `Clone`, so the reference has a single owner, and it is never null.
pub struct CFValueRef {
    inner: usize,
}

impl CFValueRef {
    #[verifier::type_invariant]
    spec fn non_null(&self) -> bool {
        self.inner != 0
    }

    pub closed spec fn ptr(&self) -> usize {
        self.inner
    }

    /// Takes ownership of what a value-creating call returned. Those calls
    /// report failure by a null reference, which becomes `Failure`.
    pub fn from_raw(ptr: usize) -> (r: Result<CFValueRef, CGError>)
        ensures
            ptr == 0 <==> r is Err,
            r matches Err(e) ==> e == CGError::Failure,
            r matches Ok(v) ==> v.ptr() == ptr,
    {
        if ptr == 0 {
            Err(CGError::Failure)
        } else {
            Ok(CFValueRef { inner: ptr })
        }
    }

    pub fn as_ptr(&self) -> (r: usize)
        ensures
            r == self.ptr(),
            r != 0,
    {
        proof { use_type_invariant(self); }
        self.inner
    }

    /// Gives up ownership, handing back the reference to release.
    pub fn into_raw(self) -> (r: usize)
        ensures
            r == self.ptr(),
            r != 0,
    {
        proof { use_type_invariant(&self); }
        self.inner
    }
}

/// The one owner of a native dictionary reference, never null.
pub struct CFDictionary {
    inner: usize,
}

impl CFDictionary {
    #[verifier::type_invariant]
    spec fn non_null(&self) -> bool {
        self.inner != 0
    }

    pub closed spec fn ptr(&self) -> usize {
        self.inner
    }

    pub fn as_ptr(&self) -> (r: usize)
        ensures
            r == self.ptr(),
            r != 0,
    {
        proof { use_type_invariant(self); }
        self.inner
    }

    /// Gives up ownership, handing back the reference to release.
    pub fn into_raw(self) -> (r: usize)
        ensures
            r == self.ptr(),
            r != 0,
    {
        proof { use_type_invariant(&self); }
        self.inner
    }
}

/// The foreign call a [`TableBuild`] asks for next.
#[derive(Debug, Clone, Copy, PartialEq, Eq, Structural)]
pub enum BuildRequest {
    /// Create the native key of entry `i` and report it with `created`.
    CreateKey(usize),
    /// Create the native value of entry `i` and report it with `created`.
    CreateValue(usize),
    /// Create the dictionary that maps `created_keys()[i]` to
    /// `created_values()[i]`, with the platform's retaining callbacks, and
    /// report it with `created`.
    CreateDictionary,
    /// Release this reference and report it with `released`.
    Release(usize),
    /// Nothing is left to call: take the outcome with `finish`.
    Finished,
}

/// Where a build stands.
pub ghost enum BuildStage {
    /// Creating keys and values, entry by entry.
    Creating,
    /// Every key and value exists; the dictionary is to be created.
    Dictionary,
    /// The outcome is decided; the owned references are being released.
    Releasing,
    /// Everything owned has been released.
    Done,
}

/// What a build has done so far.
pub ghost struct BuildView {
    /// The number of entries.
    pub len: nat,
    /// The native keys created, in order of entry.
    pub keys: Seq<usize>,
    /// The native values created, in order of entry.
    pub values: Seq<usize>,
    /// The references released, in order of release.
    pub released: Seq<usize>,
    pub stage: BuildStage,
    /// The dictionary, or why there is none, once decided.
    pub outcome: Option<Result<usize, CGError>>,
    /// Whether the dictionary was asked for.
    pub dictionary_requested: bool,
    /// Whether a key or a value came back null.
    pub creation_failed: bool,
}

impl BuildView {
    /// Every reference the build owns, in the order it releases them.
    pub open spec fn owned(self) -> Seq<usize> {
        self.keys + self.values
    }

    /// A bound on the requests left before the build finishes.
    pub open spec fn steps_left(self) -> nat {
        match self.stage {
            BuildStage::Creating => (4 * self.len + 2 - self.owned().len()) as nat,
            BuildStage::Dictionary => 2 * self.len + 2,
            BuildStage::Releasing => (self.owned().len() - self.released.len() + 1) as nat,
            BuildStage::Done => 0,
        }
    }
}

enum BuildPhase {
    Creating,
    Dictionary,
    Releasing(Result<usize, CGError>),
    Done(Result<usize, CGError>),
}

/// The construction of a native dictionary from `len` key/value pairs.
///
/// All keys and values are created first, key and value of each entry in
/// turn; the dictionary only once every one of them exists. Should one come
/// back null, nothing more is created. Either way the build then releases
/// every key and value it created, exactly once, and hands over the
/// dictionary (which holds references of its own) or the error.
pub struct TableBuild {
    len: usize,
    keys: Vec<usize>,
    values: Vec<usize>,
    phase: BuildPhase,
    released: usize,
    released_log: Ghost<Seq<usize>>,
    dictionary_requested: Ghost<bool>,
    creation_failed: Ghost<bool>,
}

impl View for TableBuild {
    type V = BuildView;

    closed spec fn view(&self) -> BuildView {
        BuildView {
            len: self.len as nat,
            keys: self.keys@,
            values: self.values@,
            released: self.released_log@,
            stage: match self.phase {
                BuildPhase::Creating => BuildStage::Creating,
                BuildPhase::Dictionary => BuildStage::Dictionary,
                BuildPhase::Releasing(_) => BuildStage::Releasing,
                BuildPhase::Done(_) => BuildStage::Done,
            },
            outcome: match self.phase {
                BuildPhase::Releasing(o) => Some(o),
                BuildPhase::Done(o) => Some(o),
                _ => None,
            },
            dictionary_requested: self.dictionary_requested@,
            creation_failed: self.creation_failed@,
        }
    }
}

/// How a decided outcome relates to what was created.
pub open spec fn outcome_fits(v: BuildView, o: Result<usize, CGError>) -> bool {
    &&& v.creation_failed ==> {
        &&& !v.dictionary_requested
        &&& o == Err::<usize, CGError>(CGError::Failure)
        &&& v.keys.len() + v.values.len() < 2 * v.len
    }
    &&& !v.creation_failed ==> {
        &&& v.dictionary_requested
        &&& v.keys.len() == v.len
        &&& v.values.len() == v.len
    }
    &&& o matches Ok(d) ==> d != 0
    &&& o matches Err(e) ==> e == CGError::Failure
}

impl TableBuild {
    pub closed spec fn wf(&self) -> bool {
        let v = self@;
        &&& v.len <= usize::MAX / 2
        &&& v.keys.len() <= v.len
        &&& v.values.len() <= v.keys.len() <= v.values.len() + 1
        &&& forall|i: int| 0 <= i < v.keys.len() ==> v.keys[i] != 0
        &&& forall|i: int| 0 <= i < v.values.len() ==> v.values[i] != 0
        &&& self.released == v.released.len()
        &&& v.released.len() <= v.owned().len()
        &&& v.released == v.owned().take(v.released.len() as int)
        &&& match v.stage {
            BuildStage::Creating => {
                &&& v.released.len() == 0
                &&& !v.dictionary_requested
                &&& !v.creation_failed
                &&& v.outcome is None
                &&& v.keys.len() + v.values.len() < 2 * v.len
            },
            BuildStage::Dictionary => {
                &&& v.keys.len() == v.len
                &&& v.values.len() == v.len
                &&& v.released.len() == 0
                &&& !v.dictionary_requested
                &&& !v.creation_failed
                &&& v.outcome is None
            },
            BuildStage::Releasing => v.released.len() < v.owned().len() && v.outcome is Some,
            BuildStage::Done => v.released.len() == v.owned().len() && v.outcome is Some,
        }
        &&& v.outcome matches Some(o) ==> outcome_fits(v, o)
    }

    /// A build of `len` entries that has not called anything yet. The keys
    /// and values together are counted in a `usize`.
    pub fn new(len: usize) -> (r: TableBuild)
        requires
            len <= usize::MAX / 2,
        ensures
            r.wf(),
            r@.steps_left() == 4 * len + 2,
            r@ == (BuildView {
                len: len as nat,
                keys: Seq::empty(),
                values: Seq::empty(),
                released: Seq::empty(),
                stage: if len == 0 { BuildStage::Dictionary } else { BuildStage::Creating },
                outcome: None,
                dictionary_requested: false,
                creation_failed: false,
            }),
    {
        let r = TableBuild {
            len,
            keys: Vec::new(),
            values: Vec::new(),
            phase: if len == 0 { BuildPhase::Dictionary } else { BuildPhase::Creating },
            released: 0,
            released_log: Ghost(Seq::empty()),
            dictionary_requested: Ghost(false),
            creation_failed: Ghost(false),
        };
        proof {
            assert(r@.released =~= r@.owned().take(0));
        }
        r
    }

    /// The foreign call to make next.
    pub fn request(&self) -> (r: BuildRequest)
        requires
            self.wf(),
        ensures
            self@.stage == BuildStage::Creating ==> r == if self@.keys.len() == self@.values.len() {
                BuildRequest::CreateKey(self@.keys.len() as usize)
            } else {
                BuildRequest::CreateValue(self@.values.len() as usize)
            },
            self@.stage == BuildStage::Dictionary ==> r == BuildRequest::CreateDictionary,
            self@.stage == BuildStage::Releasing ==> r == BuildRequest::Release(
                self@.owned()[self@.released.len() as int],
            ),
            self@.stage == BuildStage::Done ==> r == BuildRequest::Finished,
    {
        match &self.phase {
            BuildPhase::Creating => {
                if self.keys.len() == self.values.len() {
                    BuildRequest::CreateKey(self.keys.len())
                } else {
                    BuildRequest::CreateValue(self.values.len())
                }
            },
            BuildPhase::Dictionary => BuildRequest::CreateDictionary,
            BuildPhase::Releasing(_) => BuildRequest::Release(self.owned_at(self.released)),
            BuildPhase::Done(_) => BuildRequest::Finished,
        }
    }

    fn owned_at(&self, i: usize) -> (r: usize)
        requires
            i < self.keys@.len() + self.values@.len(),
        ensures
            r == self@.owned()[i as int],
    {
        if i < self.keys.len() {
            self.keys[i]
        } else {
            self.values[i - self.keys.len()]
        }
    }

    /// The keys created, for the dictionary.
    pub fn created_keys(&self) -> (r: &Vec<usize>)
        ensures
            r@ == self@.keys,
    {
        &self.keys
    }

    /// The values created, for the dictionary; `created_values()[i]` belongs
    /// to `created_keys()[i]`.
    pub fn created_values(&self) -> (r: &Vec<usize>)
        ensures
            r@ == self@.values,
    {
        &self.values
    }

    fn decide(&mut self, outcome: Result<usize, CGError>)
        requires
            old(self).keys@.len() + old(self).values@.len() > 0 || old(self).released == 0,
        ensures
            final(self).len == old(self).len,
            final(self).keys == old(self).keys,
            final(self).values == old(self).values,
            final(self).released == old(self).released,
            final(self).released_log == old(self).released_log,
            final(self).dictionary_requested == old(self).dictionary_requested,
            final(self).creation_failed == old(self).creation_failed,
            final(self).phase == if old(self).keys@.len() + old(self).values@.len() == 0 {
                BuildPhase::Done(outcome)
            } else {
                BuildPhase::Releasing(outcome)
            },
    {
        if self.keys.len() == 0 && self.values.len() == 0 {
            self.phase = BuildPhase::Done(outcome);
        } else {
            self.phase = BuildPhase::Releasing(outcome);
        }
    }

    /// Reports what the requested creation returned (`0` for null).
    pub fn created(&mut self, ptr: usize)
        requires
            old(self).wf(),
            old(self)@.stage == BuildStage::Creating || old(self)@.stage == BuildStage::Dictionary,
        ensures
            final(self).wf(),
            final(self)@.steps_left() < old(self)@.steps_left(),
            old(self)@.stage == BuildStage::Creating && ptr == 0 ==> final(self)@ == (BuildView {
                stage: if old(self)@.owned().len() == 0 {
                    BuildStage::Done
                } else {
                    BuildStage::Releasing
                },
                outcome: Some(Err(CGError::Failure)),
                creation_failed: true,
                ..old(self)@
            }),
            old(self)@.stage == BuildStage::Creating && ptr != 0 && old(self)@.keys.len()
                == old(self)@.values.len() ==> final(self)@ == (BuildView {
                keys: old(self)@.keys.push(ptr),
                ..old(self)@
            }),
            old(self)@.stage == BuildStage::Creating && ptr != 0 && old(self)@.keys.len()
                != old(self)@.values.len() ==> final(self)@ == (BuildView {
                values: old(self)@.values.push(ptr),
                stage: if old(self)@.values.len() + 1 == old(self)@.len {
                    BuildStage::Dictionary
                } else {
                    BuildStage::Creating
                },
                ..old(self)@
            }),
            old(self)@.stage == BuildStage::Dictionary ==> final(self)@ == (BuildView {
                stage: if old(self)@.owned().len() == 0 {
                    BuildStage::Done
                } else {
                    BuildStage::Releasing
                },
                outcome: Some(if ptr == 0 { Err(CGError::Failure) } else { Ok(ptr) }),
                dictionary_requested: true,
                ..old(self)@
            }),
    {
        match self.phase {
            BuildPhase::Creating => {
                if ptr == 0 {
                    self.creation_failed = Ghost(true);
                    self.decide(Err(CGError::Failure));
                } else if self.keys.len() == self.values.len() {
                    self.keys.push(ptr);
                } else {
                    self.values.push(ptr);
                    if self.values.len() == self.len {
                        self.phase = BuildPhase::Dictionary;
                    }
                }
            },
            _ => {
                self.dictionary_requested = Ghost(true);
                if ptr == 0 {
                    self.decide(Err(CGError::Failure));
                } else {
                    self.decide(Ok(ptr));
                }
            },
        }
        proof {
            let v = self@;
            assert(v.released == v.owned().take(v.released.len() as int));
        }
    }

    /// Reports that the requested release was made.
    pub fn released(&mut self)
        requires
            old(self).wf(),
            old(self)@.stage == BuildStage::Releasing,
        ensures
            final(self).wf(),
            final(self)@.steps_left() < old(self)@.steps_left(),
            final(self)@ == (BuildView {
                released: old(self)@.released.push(old(self)@.owned()[old(self)@.released.len() as int]),
                stage: if old(self)@.released.len() + 1 == old(self)@.owned().len() {
                    BuildStage::Done
                } else {
                    BuildStage::Releasing
                },
                ..old(self)@
            }),
    {
        let ghost old_v = self@;
        let ghost p = old_v.owned()[old_v.released.len() as int];
        self.released = self.released + 1;
        self.released_log = Ghost(self.released_log@.push(p));
        if self.released == self.keys.len() + self.values.len() {
            match self.phase {
                BuildPhase::Releasing(o) => {
                    self.phase = BuildPhase::Done(o);
                },
                _ => {},
            }
        }
        proof {
            assert(old_v.owned().take(old_v.released.len() as int + 1) =~= old_v.released.push(p));
        }
    }

    /// The dictionary, owned by the caller from now on, or why there is none.
    pub fn finish(self) -> (r: Result<CFDictionary, CGError>)
        requires
            self.wf(),
            self@.stage == BuildStage::Done,
        ensures
            self@.outcome matches Some(Ok(d)) ==> r matches Ok(t) && t.ptr() == d,
            self@.outcome matches Some(Err(e)) ==> r matches Err(x) && x == e,
    {
        match self.phase {
            BuildPhase::Done(Ok(d)) => Ok(CFDictionary { inner: d }),
            BuildPhase::Done(Err(e)) => Err(e),
            _ => Err(CGError::Failure),
        }
    }
}

/// Whatever the foreign calls returned, a finished build has released each
/// key and value it created exactly once, keys first and each list in order
/// of creation, and has released nothing else.
pub proof fn lemma_build_releases_each_once(b: &TableBuild)
    requires
        b.wf(),
        b@.stage == BuildStage::Done,
    ensures
        b@.released == b@.owned(),
{
    assert(b@.owned().take(b@.owned().len() as int) =~= b@.owned());
}

/// When a key or a value comes back null, the build fails with `Failure`,
/// never asks for the dictionary, and releases exactly the keys and values
/// created before the failure, of which there are fewer than all.
pub proof fn lemma_failed_creation_releases_prefix(b: &TableBuild)
    requires
        b.wf(),
        b@.stage == BuildStage::Done,
        b@.creation_failed,
    ensures
        b@.outcome == Some(Err::<usize, CGError>(CGError::Failure)),
        !b@.dictionary_requested,
        b@.released == b@.owned(),
        b@.owned().len() < 2 * b@.len,
{
    lemma_build_releases_each_once(b);
}

/// A build succeeds only when every key and value was created and the
/// dictionary came back non-null.
pub proof fn lemma_build_success(b: &TableBuild)
    requires
        b.wf(),
        b@.stage == BuildStage::Done,
    ensures
        b@.outcome matches Some(Ok(d)) ==> {
            &&& d != 0
            &&& !b@.creation_failed
            &&& b@.dictionary_requested
            &&& b@.keys.len() == b@.len
            &&& b@.values.len() == b@.len
        },
        b@.outcome matches Some(Err(e)) ==> e == CGError::Failure,
{
}

} // verus!
