use std::collections::HashMap;

use wunderbar::core_services::{
    BuildRequest, CFDictionary, CFValue, CFValueRef, TableBuild, NUMBER_TYPE_F32, NUMBER_TYPE_F64,
    NUMBER_TYPE_I32, NUMBER_TYPE_I64, NUMBER_TYPE_INDEX,
};
use wunderbar::geometry::Bounds;
use wunderbar::sls::{
    CgsWindowTags, CreateRequest, SlsConnection, SlsWindow, WindowCreation, WindowTag,
    LEVEL_NORMAL, ORDER_ABOVE, WINDOW_TAG_BITS,
};
use wunderbar::status::CGError;

/// What a reference of the stub stands for.
#[derive(Clone)]
enum Object {
    Value(CFValue),
    Dictionary(Vec<usize>, Vec<usize>),
    Region(Bounds),
}

/// A foreign layer that counts references instead of calling the platform.
struct Stub {
    next: usize,
    objects: HashMap<usize, (Object, usize)>,
    creations: usize,
    releases: Vec<usize>,
    fail_creation_at: Option<usize>,
    fail_dictionary: bool,
    dictionaries_created: usize,
    region_status: i32,
    window_status: i32,
    windows_created: usize,
    windows_released: Vec<u32>,
}

impl Stub {
    fn new() -> Stub {
        Stub {
            next: 0x1000,
            objects: HashMap::new(),
            creations: 0,
            releases: Vec::new(),
            fail_creation_at: None,
            fail_dictionary: false,
            dictionaries_created: 0,
            region_status: 0,
            window_status: 0,
            windows_created: 0,
            windows_released: Vec::new(),
        }
    }

    fn allocate(&mut self, object: Object) -> usize {
        self.next += 16;
        self.objects.insert(self.next, (object, 1));
        self.next
    }

    fn create_value(&mut self, value: &CFValue) -> usize {
        let n = self.creations;
        self.creations += 1;
        if self.fail_creation_at == Some(n) {
            return 0;
        }
        self.allocate(Object::Value(value.clone()))
    }

    fn create_dictionary(&mut self, keys: &[usize], values: &[usize]) -> usize {
        self.dictionaries_created += 1;
        if self.fail_dictionary {
            return 0;
        }
        for p in keys.iter().chain(values.iter()) {
            self.objects.get_mut(p).expect("dictionary entry must be live").1 += 1;
        }
        self.allocate(Object::Dictionary(keys.to_vec(), values.to_vec()))
    }

    fn release(&mut self, ptr: usize) {
        self.releases.push(ptr);
        let (object, count) = self.objects.get(&ptr).cloned().expect("release of a dead reference");
        if count == 1 {
            self.objects.remove(&ptr);
            if let Object::Dictionary(keys, values) = object {
                for p in keys.iter().chain(values.iter()) {
                    self.release(*p);
                }
            }
        } else {
            self.objects.get_mut(&ptr).unwrap().1 -= 1;
        }
    }

    fn value_of(&self, ptr: usize) -> CFValue {
        match &self.objects[&ptr].0 {
            Object::Value(v) => v.clone(),
            _ => panic!("not a value"),
        }
    }

    fn dictionary_contains(&self, dict: usize, key: usize) -> bool {
        let probe = self.value_of(key);
        match &self.objects[&dict].0 {
            Object::Dictionary(keys, _) => keys.iter().any(|k| self.value_of(*k) == probe),
            _ => panic!("not a dictionary"),
        }
    }

    fn build(&mut self, entries: &[(CFValue, CFValue)]) -> Result<CFDictionary, CGError> {
        let mut b = TableBuild::new(entries.len());
        loop {
            match b.request() {
                BuildRequest::CreateKey(i) => {
                    let p = self.create_value(&entries[i].0);
                    b.created(p);
                }
                BuildRequest::CreateValue(i) => {
                    let p = self.create_value(&entries[i].1);
                    b.created(p);
                }
                BuildRequest::CreateDictionary => {
                    let p = self.create_dictionary(b.created_keys(), b.created_values());
                    b.created(p);
                }
                BuildRequest::Release(p) => {
                    self.release(p);
                    b.released();
                }
                BuildRequest::Finished => return b.finish(),
            }
        }
    }

    fn contains_key(&mut self, dict: &CFDictionary, key: CFValue) -> Result<bool, CGError> {
        let probe = CFValueRef::from_raw(self.create_value(&key))?;
        let found = self.dictionary_contains(dict.as_ptr(), probe.as_ptr());
        self.release(probe.into_raw());
        Ok(found)
    }

    fn create_window<'c>(
        &mut self,
        conn: &'c SlsConnection,
        bounds: Bounds,
    ) -> Result<SlsWindow<'c>, CGError> {
        let mut c = WindowCreation::new(conn, bounds);
        loop {
            match c.request() {
                CreateRequest::NewRegion(b) => {
                    let status = self.region_status;
                    let region = if status == 0 { self.allocate(Object::Region(b)) } else { 0 };
                    c.region_created(status, region);
                }
                CreateRequest::NewWindow { conn_id, region } => {
                    assert_eq!(conn_id, conn.id());
                    assert!(matches!(self.objects[&region].0, Object::Region(_)));
                    self.windows_created += 1;
                    let status = self.window_status;
                    c.window_created(status, if status == 0 { 7 } else { 0 });
                }
                CreateRequest::ReleaseRegion(region) => {
                    self.release(region);
                    c.region_released();
                }
                CreateRequest::Finished => return c.finish(),
            }
        }
    }

    fn release_window(&mut self, window: SlsWindow) {
        let (_conn, id) = window.into_release();
        self.windows_released.push(id);
    }
}

#[test]
fn dictionary_basic() {
    let mut stub = Stub::new();
    let key = CFValue::String("test".to_string());
    let value = CFValue::Index(64);
    let dict = stub
        .build(&[(key.clone(), value)])
        .expect("dictionary creation should not fail");

    assert!(stub
        .contains_key(&dict, key)
        .expect("`contains_key` operation should not fail"));

    assert!(!stub
        .contains_key(&dict, CFValue::String("test2".to_string()))
        .expect("`contains_key` operation should not fail"));
}

#[test]
fn probe_with_other_kind_of_key_is_not_found() {
    let mut stub = Stub::new();
    let dict = stub
        .build(&[(CFValue::String("64".to_string()), CFValue::Index(0))])
        .unwrap();
    assert!(!stub.contains_key(&dict, CFValue::Index(64)).unwrap());
    assert!(stub.contains_key(&dict, CFValue::String("64".to_string())).unwrap());
}

#[test]
fn probe_that_cannot_be_created_fails_and_leaks_nothing() {
    let mut stub = Stub::new();
    let dict = stub.build(&[(CFValue::I32(1), CFValue::I32(2))]).unwrap();
    let live = stub.objects.len();
    stub.fail_creation_at = Some(stub.creations);
    assert_eq!(stub.contains_key(&dict, CFValue::I32(1)), Err(CGError::Failure));
    assert_eq!(stub.objects.len(), live);
}

#[test]
fn build_releases_every_value_once_and_dictionary_keeps_its_own() {
    let mut stub = Stub::new();
    let entries = [
        (CFValue::String("a".to_string()), CFValue::I64(-5)),
        (CFValue::Index(3), CFValue::F64(2.5f64.to_bits())),
        (CFValue::I32(-1), CFValue::F32(0.5f32.to_bits())),
    ];
    let dict = stub.build(&entries).unwrap();
    assert_eq!(stub.creations, 6);
    assert_eq!(stub.dictionaries_created, 1);
    assert_eq!(stub.releases.len(), 6);
    // Only the dictionary's own references keep the values alive.
    assert!(stub.objects.values().all(|(_, count)| *count == 1));
    assert_eq!(stub.objects.len(), 7);
    let d = dict.into_raw();
    stub.release(d);
    assert!(stub.objects.is_empty());
}

#[test]
fn failure_at_any_entry_releases_what_came_before_and_makes_no_dictionary() {
    let entries = [
        (CFValue::Index(1), CFValue::Index(10)),
        (CFValue::Index(2), CFValue::Index(20)),
        (CFValue::Index(3), CFValue::Index(30)),
    ];
    for k in 0..6 {
        let mut stub = Stub::new();
        stub.fail_creation_at = Some(k);
        let r = stub.build(&entries);
        assert!(matches!(r, Err(CGError::Failure)));
        assert_eq!(stub.creations, k + 1);
        assert_eq!(stub.dictionaries_created, 0);
        assert_eq!(stub.releases.len(), k);
        let distinct: std::collections::BTreeSet<usize> = stub.releases.iter().copied().collect();
        assert_eq!(distinct.len(), k);
        assert!(stub.objects.is_empty());
    }
}

#[test]
fn null_dictionary_is_a_failure_and_releases_all_values() {
    let mut stub = Stub::new();
    stub.fail_dictionary = true;
    let r = stub.build(&[(CFValue::I32(1), CFValue::I32(2)), (CFValue::I32(3), CFValue::I32(4))]);
    assert!(matches!(r, Err(CGError::Failure)));
    assert_eq!(stub.dictionaries_created, 1);
    assert_eq!(stub.releases.len(), 4);
    assert!(stub.objects.is_empty());
}

#[test]
fn empty_table_makes_an_empty_dictionary() {
    let mut stub = Stub::new();
    let dict = stub.build(&[]).unwrap();
    assert_eq!(stub.creations, 0);
    assert_eq!(stub.dictionaries_created, 1);
    assert!(stub.releases.is_empty());
    stub.release(dict.into_raw());
    assert!(stub.objects.is_empty());
}

#[test]
fn values_are_created_as_their_native_number_types() {
    assert_eq!(CFValue::Index(1).number_type(), Some(NUMBER_TYPE_INDEX));
    assert_eq!(CFValue::I32(1).number_type(), Some(NUMBER_TYPE_I32));
    assert_eq!(CFValue::I64(1).number_type(), Some(NUMBER_TYPE_I64));
    assert_eq!(CFValue::F32(0).number_type(), Some(NUMBER_TYPE_F32));
    assert_eq!(CFValue::F64(0).number_type(), Some(NUMBER_TYPE_F64));
    assert_eq!(CFValue::String(String::new()).number_type(), None);
    assert_eq!((NUMBER_TYPE_INDEX, NUMBER_TYPE_I32, NUMBER_TYPE_I64), (14, 3, 4));
    assert_eq!((NUMBER_TYPE_F32, NUMBER_TYPE_F64), (5, 6));
}

#[test]
fn null_value_reference_is_a_failure() {
    assert!(matches!(CFValueRef::from_raw(0), Err(CGError::Failure)));
    assert_eq!(CFValueRef::from_raw(0x40).unwrap().as_ptr(), 0x40);
}

#[test]
fn create_then_drop_releases_one_window() {
    let mut stub = Stub::new();
    let conn = SlsConnection::from_id(5);
    let w = stub.create_window(&conn, Bounds::new(0, 0, 1280, 40)).unwrap();
    assert_eq!(w.window_id(), 7);
    assert_eq!(w.conn_id(), 5);
    assert_eq!(stub.windows_created, 1);
    assert!(stub.objects.is_empty());
    stub.release_window(w);
    assert_eq!(stub.windows_released, vec![7]);
}

#[test]
fn region_failure_never_asks_for_a_window() {
    let mut stub = Stub::new();
    stub.region_status = 1001;
    let conn = SlsConnection::from_id(5);
    let r = stub.create_window(&conn, Bounds::new(0, 0, 10, 10));
    assert!(matches!(r, Err(CGError::IllegalArgument)));
    assert_eq!(stub.windows_created, 0);
    assert!(stub.releases.is_empty());
}

#[test]
fn window_failure_still_releases_the_region() {
    let mut stub = Stub::new();
    stub.window_status = 1002;
    let conn = SlsConnection::from_id(5);
    let r = stub.create_window(&conn, Bounds::new(0, 0, 10, 10));
    assert!(matches!(r, Err(CGError::InvalidConnection)));
    assert_eq!(stub.windows_created, 1);
    assert_eq!(stub.releases.len(), 1);
    assert!(stub.objects.is_empty());
}

#[test]
fn null_region_with_success_status_is_a_failure() {
    let conn = SlsConnection::from_id(5);
    let mut c = WindowCreation::new(&conn, Bounds::new(0, 0, 10, 10));
    c.region_created(0, 0);
    assert_eq!(c.request(), CreateRequest::Finished);
    assert!(matches!(c.finish(), Err(CGError::Failure)));
}

#[test]
fn graphics_context_is_created_once_and_cached() {
    let mut stub = Stub::new();
    let conn = SlsConnection::from_id(5);
    let mut w = stub.create_window(&conn, Bounds::new(0, 0, 10, 10)).unwrap();
    assert_eq!(w.cached_context(), None);
    assert_eq!(w.adopt_context(0), Err(CGError::Failure));
    assert_eq!(w.cached_context(), None);
    assert_eq!(w.adopt_context(0x99), Ok(0x99));
    assert_eq!(w.cached_context(), Some(0x99));
    assert_eq!(w.cached_context(), Some(0x99));
    stub.release_window(w);
}

#[test]
fn order_target_is_other_window_or_self() {
    let mut stub = Stub::new();
    let conn = SlsConnection::from_id(5);
    let a = stub.create_window(&conn, Bounds::new(0, 0, 10, 10)).unwrap();
    stub.window_status = 0;
    let mut c = WindowCreation::new(&conn, Bounds::new(0, 0, 10, 10));
    c.region_created(0, 0x500);
    c.window_created(0, 8);
    c.region_released();
    let b = c.finish().unwrap();
    assert_eq!(a.order_target(None), 7);
    assert_eq!(a.order_target(Some(&b)), 8);
    assert_eq!(b.order_target(Some(&a)), 7);
}

#[test]
fn window_tags_combine_as_bits() {
    let t = CgsWindowTags::from_tag(WindowTag::ExposeFade).with(WindowTag::PreventsActivation);
    assert_eq!(t.bits(), (1 << 1) | (1 << 16));
    assert!(t.contains(WindowTag::ExposeFade));
    assert!(!t.contains(WindowTag::Sticky));
    assert_eq!(CgsWindowTags::empty().bits(), 0);
    let all = [
        (WindowTag::ExposeFade, 1u64 << 1),
        (WindowTag::PreventsActivation, 1 << 16),
        (WindowTag::ModalWindow, 1 << 31),
        (WindowTag::DisableShadow, 1 << 3),
        (WindowTag::HighQualityResampling, 1 << 4),
        (WindowTag::IgnoreForExposeTagBit, 1 << 7),
        (WindowTag::Sticky, 1 << 11),
    ];
    for (tag, bit) in all {
        assert_eq!(tag.bit(), bit);
    }
    let u = CgsWindowTags::from_tag(WindowTag::Sticky).union(t);
    assert_eq!(u.bits(), (1 << 11) | (1 << 1) | (1 << 16));
    assert_eq!(WINDOW_TAG_BITS, 64);
}

#[test]
fn shadow_properties_turn_density_to_zero() {
    let props = SlsWindow::shadow_properties();
    assert_eq!(props.len(), 1);
    assert_eq!(props[0].0, CFValue::String("com.apple.WindowShadowDensity".to_string()));
    assert_eq!(props[0].1, CFValue::Index(0));
}

#[test]
fn window_test() {
    let mut stub = Stub::new();
    let conn = SlsConnection::from_id(3);
    let mut win = stub.create_window(&conn, Bounds::new(0, 0, 1280, 40)).unwrap();
    let tags = CgsWindowTags::from_tag(WindowTag::ExposeFade).with(WindowTag::PreventsActivation);
    assert_eq!(tags.bits(), 0x1_0002);
    CGError::result_from(0).unwrap();
    assert_eq!(CgsWindowTags::empty().bits(), 0);
    assert_eq!(win.order_target(None), win.window_id());
    assert_eq!(ORDER_ABOVE, 1);
    assert_eq!(win.adopt_context(0x200), Ok(0x200));
    assert_eq!(win.cached_context(), Some(0x200));
    stub.release_window(win);
    assert_eq!(stub.windows_released.len(), 1);
}

#[test]
fn full_window_session_has_no_errors_and_one_window() {
    let mut stub = Stub::new();
    let conn = SlsConnection::from_id(3);
    let mut win = stub.create_window(&conn, Bounds::new(0, 0, 1280, 40)).unwrap();
    let tags = CgsWindowTags::from_tag(WindowTag::Sticky).with(WindowTag::ExposeFade);
    assert_eq!(tags.bits(), 0x802);
    assert_eq!(LEVEL_NORMAL, 0);
    assert_eq!(win.order_target(None), 7);
    let table = stub.build(&SlsWindow::shadow_properties()).unwrap();
    stub.release(table.into_raw());
    assert_eq!(win.cached_context(), None);
    let ctx = win.adopt_context(0x300).unwrap();
    assert_eq!(win.cached_context(), Some(ctx));
    assert!(stub.objects.is_empty());
    assert_eq!(stub.windows_created, 1);
    stub.release_window(win);
    assert_eq!(stub.windows_released, vec![7]);
}

#[test]
fn build_finishes_within_four_requests_per_entry_and_two_more() {
    for n in 0..5usize {
        let mut b = TableBuild::new(n);
        let mut requests = 0usize;
        let mut next: usize = 0x100;
        loop {
            requests += 1;
            match b.request() {
                BuildRequest::CreateKey(_) | BuildRequest::CreateValue(_) | BuildRequest::CreateDictionary => {
                    next += 8;
                    b.created(next);
                }
                BuildRequest::Release(_) => b.released(),
                BuildRequest::Finished => break,
            }
        }
        assert_eq!(requests, 4 * n + 2);
        assert_eq!(b.finish().unwrap().as_ptr(), next);
    }
}
