//! The window server's session and windows.
//!
//! As with tables, the foreign calls are made by the caller: a
//! [`WindowCreation`] says which call to make next and is told what came
//! back, so that the transient region is released on every path; an
//! [`SlsWindow`] owns one window identifier and caches its drawing context.
use vstd::prelude::*;
use crate::core_services::CFValue;
use crate::geometry::Bounds;
use crate::status::{is_known_code, CGError};

verus! {

/// The process's session with the window server: one numeric identifier
/// that the process does not own and never tears down.
#[derive(Debug, Clone, Copy, PartialEq, Eq, Structural)]
pub struct SlsConnection {
    conn_id: i32,
}

impl SlsConnection {
    pub closed spec fn id_spec(&self) -> i32 {
        self.conn_id
    }

    /// The session that the window server assigned to this process.
    pub fn from_id(conn_id: i32) -> (r: SlsConnection)
        ensures
            r.id_spec() == conn_id,
    {
        SlsConnection { conn_id }
    }

    pub fn id(&self) -> (r: i32)
        ensures
            r == self.id_spec(),
    {
        self.conn_id
    }
}

/// A named capability of a window.
#[derive(Debug, Clone, Copy, PartialEq, Eq, Structural)]
pub enum WindowTag {
    ExposeFade,
    PreventsActivation,
    ModalWindow,
    DisableShadow,
    HighQualityResampling,
    IgnoreForExposeTagBit,
    Sticky,
}

impl WindowTag {
    /// The bit that stands for the tag.
    pub open spec fn bit_spec(self) -> u64 {
        match self {
            WindowTag::ExposeFade => 0x2,
            WindowTag::PreventsActivation => 0x1_0000,
            WindowTag::ModalWindow => 0x8000_0000,
            WindowTag::DisableShadow => 0x8,
            WindowTag::HighQualityResampling => 0x10,
            WindowTag::IgnoreForExposeTagBit => 0x80,
            WindowTag::Sticky => 0x800,
        }
    }

    pub fn bit(self) -> (r: u64)
        ensures
            r == self.bit_spec(),
    {
        match self {
            WindowTag::ExposeFade => 0x2,
            WindowTag::PreventsActivation => 0x1_0000,
            WindowTag::ModalWindow => 0x8000_0000,
            WindowTag::DisableShadow => 0x8,
            WindowTag::HighQualityResampling => 0x10,
            WindowTag::IgnoreForExposeTagBit => 0x80,
            WindowTag::Sticky => 0x800,
        }
    }
}

/// The ordering mode that places a window above the window it is ordered against.
pub const ORDER_ABOVE: i32 = 1;

/// The level of ordinary windows; a window brought to the front is put there.
pub const LEVEL_NORMAL: i32 = 0;

/// The number of tag bits the tag procedures read.
pub const WINDOW_TAG_BITS: i32 = 64;

/// A set of window tags, as the bit mask the window server reads.
#[derive(Debug, Clone, Copy, PartialEq, Eq, Structural)]
pub struct CgsWindowTags {
    bits: u64,
}

impl CgsWindowTags {
    pub closed spec fn bits_spec(&self) -> u64 {
        self.bits
    }

    /// No tag.
    pub fn empty() -> (r: CgsWindowTags)
        ensures
            r.bits_spec() == 0,
    {
        CgsWindowTags { bits: 0 }
    }

    /// Just `tag`.
    pub fn from_tag(tag: WindowTag) -> (r: CgsWindowTags)
        ensures
            r.bits_spec() == tag.bit_spec(),
    {
        CgsWindowTags { bits: tag.bit() }
    }

    /// These tags and `tag`.
    pub fn with(self, tag: WindowTag) -> (r: CgsWindowTags)
        ensures
            r.bits_spec() == self.bits_spec() | tag.bit_spec(),
    {
        CgsWindowTags { bits: self.bits | tag.bit() }
    }

    /// The tags of either set.
    pub fn union(self, other: CgsWindowTags) -> (r: CgsWindowTags)
        ensures
            r.bits_spec() == self.bits_spec() | other.bits_spec(),
    {
        CgsWindowTags { bits: self.bits | other.bits }
    }

    /// Whether `tag` is in the set.
    pub fn contains(self, tag: WindowTag) -> (r: bool)
        ensures
            r == (self.bits_spec() & tag.bit_spec() == tag.bit_spec()),
    {
        self.bits & tag.bit() == tag.bit()
    }

    /// The mask handed to the tag procedures.
    pub fn bits(self) -> (r: u64)
        ensures
            r == self.bits_spec(),
    {
        self.bits
    }
}

/// The one owner of a window identifier, created on a borrowed session that
/// it cannot outlive. It is neither `Copy` nor `Clone`: the identifier is
/// released once, by whoever ends up with the value (see `into_release`).
pub struct SlsWindow<'conn> {
    conn: &'conn SlsConnection,
    window_id: u32,
    context: Option<usize>,
    contexts_adopted: Ghost<nat>,
}

impl<'conn> SlsWindow<'conn> {
    pub closed spec fn conn_spec(&self) -> SlsConnection {
        *self.conn
    }

    pub closed spec fn window_id_spec(&self) -> u32 {
        self.window_id
    }

    /// The drawing context the window holds, if any.
    pub closed spec fn context_spec(&self) -> Option<usize> {
        self.context
    }

    /// How many drawing contexts the window has taken in over its life.
    pub closed spec fn contexts_adopted_spec(&self) -> nat {
        self.contexts_adopted@
    }

    pub closed spec fn wf(&self) -> bool {
        &&& self.context matches Some(c) ==> c != 0
        &&& self.contexts_adopted@ == if self.context is Some { 1nat } else { 0nat }
    }

    pub fn conn_id(&self) -> (r: i32)
        ensures
            r == self.conn_spec().id_spec(),
    {
        self.conn.id()
    }

    pub fn window_id(&self) -> (r: u32)
        ensures
            r == self.window_id_spec(),
    {
        self.window_id
    }

    /// The window to order this one against: `relative_to`, or the window
    /// itself when none is given. A window of another session cannot be
    /// named.
    pub fn order_target(&self, relative_to: Option<&SlsWindow<'conn>>) -> (r: u32)
        requires
            relative_to matches Some(other) ==> other.conn_spec() == self.conn_spec(),
        ensures
            r == match relative_to {
                Some(other) => other.window_id_spec(),
                None => self.window_id_spec(),
            },
    {
        match relative_to {
            Some(other) => other.window_id,
            None => self.window_id,
        }
    }

    /// The cached drawing context, or `None` when one is still to be created.
    pub fn cached_context(&self) -> (r: Option<usize>)
        ensures
            r == self.context_spec(),
    {
        self.context
    }

    /// Takes in what the context-creating call returned for this window.
    /// That call reports failure by a null context, which becomes `Failure`
    /// and leaves the window without one; otherwise the window keeps the
    /// context for the rest of its life.
    pub fn adopt_context(&mut self, raw: usize) -> (r: Result<usize, CGError>)
        requires
            old(self).wf(),
            old(self).context_spec() is None,
        ensures
            final(self).wf(),
            final(self).conn_spec() == old(self).conn_spec(),
            final(self).window_id_spec() == old(self).window_id_spec(),
            raw == 0 ==> r == Err::<usize, CGError>(CGError::Failure) && final(self).context_spec() is None,
            raw != 0 ==> r == Ok::<usize, CGError>(raw) && final(self).context_spec() == Some(raw),
    {
        if raw == 0 {
            Err(CGError::Failure)
        } else {
            self.context = Some(raw);
            self.contexts_adopted = Ghost(1);
            Ok(raw)
        }
    }

    /// Gives up the identifier, handing back the session and window to
    /// release. A release that does not succeed breaks this type's ownership
    /// and is not recoverable.
    pub fn into_release(self) -> (r: (i32, u32))
        ensures
            r == (self.conn_spec().id_spec(), self.window_id_spec()),
    {
        (self.conn.id(), self.window_id)
    }

    /// The key and value of the shadow property that turns the shadow off.
    pub fn shadow_properties() -> (r: Vec<(CFValue, CFValue)>)
        ensures
            r@.len() == 1,
            r@[0].1 == CFValue::Index(0),
            r@[0].0 matches CFValue::String(s) && s@ == shadow_density_key(),
    {
        let key = String::from_str("com.apple.WindowShadowDensity");
        proof { reveal_strlit("com.apple.WindowShadowDensity"); }
        let mut v = Vec::new();
        v.push((CFValue::String(key), CFValue::Index(0)));
        v
    }
}

/// The name of the window property that sets the shadow's density.
pub open spec fn shadow_density_key() -> Seq<char> {
    "com.apple.WindowShadowDensity"@
}

/// A window's drawing context is created at most once: a window asks for one
/// only while it holds none, and keeps the first one it gets.
pub proof fn lemma_context_adopted_at_most_once(w: &SlsWindow)
    requires
        w.wf(),
    ensures
        w.contexts_adopted_spec() <= 1,
        w.contexts_adopted_spec() == 1 <==> w.context_spec() is Some,
{
}

/// The kind of window the window-creation call is asked for: one with a
/// buffered backing store.
pub const WINDOW_TYPE_BUFFERED: i32 = 2;

/// The foreign call a [`WindowCreation`] asks for next.
#[derive(Debug, Clone, Copy, PartialEq, Eq, Structural)]
pub enum CreateRequest {
    /// Create a region covering these bounds and report it with `region_created`.
    NewRegion(Bounds),
    /// Create a window of type [`WINDOW_TYPE_BUFFERED`] on session `conn_id`
    /// shaped by `region`, and report it with `window_created`.
    NewWindow { conn_id: i32, region: usize },
    /// Release the region and report it with `region_released`.
    ReleaseRegion(usize),
    /// Nothing is left to call: take the window with `finish`.
    Finished,
}

/// Where a window creation stands.
pub ghost enum CreateStage {
    Region,
    Window,
    Releasing,
    Done,
}

/// What a window creation has done so far.
pub ghost struct CreateView {
    pub conn: SlsConnection,
    pub bounds: Bounds,
    /// The region, once created.
    pub region: Option<usize>,
    /// Whether the window was asked for.
    pub window_requested: bool,
    /// How many times the region was released.
    pub region_releases: nat,
    pub stage: CreateStage,
    /// The window identifier, or why there is none, once decided.
    pub outcome: Option<Result<u32, CGError>>,
}

impl CreateView {
    /// The requests left at most before the creation finishes.
    pub open spec fn steps_left(self) -> nat {
        match self.stage {
            CreateStage::Region => 3,
            CreateStage::Window => 2,
            CreateStage::Releasing => 1,
            CreateStage::Done => 0,
        }
    }
}

enum CreatePhase {
    Region,
    Window,
    Releasing(Result<u32, CGError>),
    Done(Result<u32, CGError>),
}

/// The creation of a window: a transient region is made from the bounds,
/// handed to the window-creation call and released right after, whatever
/// that call reported. When the region cannot be made no window is asked
/// for.
pub struct WindowCreation<'conn> {
    conn: &'conn SlsConnection,
    bounds: Bounds,
    region: Option<usize>,
    phase: CreatePhase,
    window_requested: Ghost<bool>,
    region_releases: Ghost<nat>,
}

/// The error a status names, or `Failure` for a success that came with a
/// null result.
pub open spec fn failure_of(status: i32) -> CGError {
    if status == 0 {
        CGError::Failure
    } else {
        CGError::from_code_spec(status)
    }
}

impl<'conn> View for WindowCreation<'conn> {
    type V = CreateView;

    closed spec fn view(&self) -> CreateView {
        CreateView {
            conn: *self.conn,
            bounds: self.bounds,
            region: self.region,
            window_requested: self.window_requested@,
            region_releases: self.region_releases@,
            stage: match self.phase {
                CreatePhase::Region => CreateStage::Region,
                CreatePhase::Window => CreateStage::Window,
                CreatePhase::Releasing(_) => CreateStage::Releasing,
                CreatePhase::Done(_) => CreateStage::Done,
            },
            outcome: match self.phase {
                CreatePhase::Releasing(o) => Some(o),
                CreatePhase::Done(o) => Some(o),
                _ => None,
            },
        }
    }
}

impl<'conn> WindowCreation<'conn> {
    pub closed spec fn wf(&self) -> bool {
        let v = self@;
        &&& v.region matches Some(g) ==> g != 0
        &&& v.window_requested ==> v.region is Some
        &&& match v.stage {
            CreateStage::Region => v.region is None && !v.window_requested && v.region_releases == 0
                && v.outcome is None,
            CreateStage::Window => v.region is Some && !v.window_requested && v.region_releases == 0
                && v.outcome is None,
            CreateStage::Releasing => v.region is Some && v.window_requested && v.region_releases
                == 0 && v.outcome is Some,
            CreateStage::Done => v.outcome is Some && v.region_releases == (if v.region is Some {
                1nat
            } else {
                0nat
            }) && (v.region is Some ==> v.window_requested),
        }
        &&& v.outcome matches Some(Err(e)) ==> e != CGError::Success
        &&& v.outcome matches Some(Ok(_)) ==> v.window_requested
    }

    /// A creation of a window covering `bounds` on `conn`, nothing called yet.
    pub fn new(conn: &'conn SlsConnection, bounds: Bounds) -> (r: WindowCreation<'conn>)
        ensures
            r.wf(),
            r@ == (CreateView {
                conn: *conn,
                bounds,
                region: None,
                window_requested: false,
                region_releases: 0,
                stage: CreateStage::Region,
                outcome: None,
            }),
    {
        WindowCreation {
            conn,
            bounds,
            region: None,
            phase: CreatePhase::Region,
            window_requested: Ghost(false),
            region_releases: Ghost(0),
        }
    }

    /// The foreign call to make next.
    pub fn request(&self) -> (r: CreateRequest)
        requires
            self.wf(),
        ensures
            self@.stage == CreateStage::Region ==> r == CreateRequest::NewRegion(self@.bounds),
            self@.stage == CreateStage::Window ==> r == (CreateRequest::NewWindow {
                conn_id: self@.conn.id_spec(),
                region: self@.region->0,
            }),
            self@.stage == CreateStage::Releasing ==> r == CreateRequest::ReleaseRegion(
                self@.region->0,
            ),
            self@.stage == CreateStage::Done ==> r == CreateRequest::Finished,
    {
        match &self.phase {
            CreatePhase::Region => CreateRequest::NewRegion(self.bounds),
            CreatePhase::Window => {
                let region = match self.region {
                    Some(g) => g,
                    None => 0,
                };
                CreateRequest::NewWindow { conn_id: self.conn.id(), region }
            },
            CreatePhase::Releasing(_) => {
                let region = match self.region {
                    Some(g) => g,
                    None => 0,
                };
                CreateRequest::ReleaseRegion(region)
            },
            CreatePhase::Done(_) => CreateRequest::Finished,
        }
    }

    /// Reports the status of the region-creating call and the region it made.
    /// A failing status, or a null region, ends the creation: nothing was
    /// made, so nothing is released and no window is asked for.
    pub fn region_created(&mut self, status: i32, region: usize)
        requires
            old(self).wf(),
            old(self)@.stage == CreateStage::Region,
            is_known_code(status),
        ensures
            final(self).wf(),
            final(self)@.steps_left() < old(self)@.steps_left(),
            status == 0 && region != 0 ==> final(self)@ == (CreateView {
                region: Some(region),
                stage: CreateStage::Window,
                ..old(self)@
            }),
            !(status == 0 && region != 0) ==> final(self)@ == (CreateView {
                stage: CreateStage::Done,
                outcome: Some(Err(failure_of(status))),
                ..old(self)@
            }),
    {
        if status != 0 {
            let e = CGError::from_code(status);
            self.phase = CreatePhase::Done(Err(e));
        } else if region == 0 {
            self.phase = CreatePhase::Done(Err(CGError::Failure));
        } else {
            self.region = Some(region);
            self.phase = CreatePhase::Window;
        }
    }

    /// Reports the status of the window-creation call and the identifier it
    /// set. Whatever it was, the region is to be released next.
    pub fn window_created(&mut self, status: i32, window_id: u32)
        requires
            old(self).wf(),
            old(self)@.stage == CreateStage::Window,
            is_known_code(status),
        ensures
            final(self).wf(),
            final(self)@.steps_left() < old(self)@.steps_left(),
            final(self)@ == (CreateView {
                window_requested: true,
                stage: CreateStage::Releasing,
                outcome: Some(
                    if status == 0 {
                        Ok(window_id)
                    } else {
                        Err(CGError::from_code_spec(status))
                    },
                ),
                ..old(self)@
            }),
    {
        self.window_requested = Ghost(true);
        if status == 0 {
            self.phase = CreatePhase::Releasing(Ok(window_id));
        } else {
            let e = CGError::from_code(status);
            self.phase = CreatePhase::Releasing(Err(e));
        }
    }

    /// Reports that the region was released.
    pub fn region_released(&mut self)
        requires
            old(self).wf(),
            old(self)@.stage == CreateStage::Releasing,
        ensures
            final(self).wf(),
            final(self)@.steps_left() < old(self)@.steps_left(),
            final(self)@ == (CreateView {
                region_releases: old(self)@.region_releases + 1,
                stage: CreateStage::Done,
                ..old(self)@
            }),
    {
        self.region_releases = Ghost(self.region_releases@ + 1);
        match self.phase {
            CreatePhase::Releasing(o) => {
                self.phase = CreatePhase::Done(o);
            },
            _ => {},
        }
    }

    /// The window, which owns its identifier from now on, or why there is none.
    pub fn finish(self) -> (r: Result<SlsWindow<'conn>, CGError>)
        requires
            self.wf(),
            self@.stage == CreateStage::Done,
        ensures
            self@.outcome matches Some(Ok(id)) ==> r matches Ok(w) && w.wf() && w.window_id_spec()
                == id && w.conn_spec() == self@.conn && w.context_spec() is None,
            self@.outcome matches Some(Err(e)) ==> r matches Err(x) && x == e,
    {
        match self.phase {
            CreatePhase::Done(Ok(id)) => Ok(
                SlsWindow { conn: self.conn, window_id: id, context: None, contexts_adopted: Ghost(0) },
            ),
            CreatePhase::Done(Err(e)) => Err(e),
            _ => Err(CGError::Failure),
        }
    }
}

/// A region that could not be made stops the creation before any window is
/// asked for, and there is then nothing to release.
pub proof fn lemma_region_failure_skips_window(c: &WindowCreation)
    requires
        c.wf(),
        c@.stage == CreateStage::Done,
        c@.region is None,
    ensures
        !c@.window_requested,
        c@.region_releases == 0,
        c@.outcome matches Some(Err(_)),
{
}

/// Once a region was made, a finished creation has released it exactly once,
/// whether the window came out or not.
pub proof fn lemma_region_released_once(c: &WindowCreation)
    requires
        c.wf(),
        c@.stage == CreateStage::Done,
        c@.region is Some,
    ensures
        c@.window_requested,
        c@.region_releases == 1,
{
}

} // verus!
