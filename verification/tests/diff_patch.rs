use firewheel_core::diff::{Diff, EventQueue, Notify, NotifyID, Patch, PatchError, PathBuilder};
use firewheel_core::event::{NodeEventType, ParamData};

fn diff_into_vec<T: Diff>(value: &T, baseline: &T, path: PathBuilder) -> Vec<NodeEventType> {
    let mut queue: Vec<NodeEventType> = Vec::new();
    value.diff(baseline, path, &mut queue);
    queue
}

fn only_data(events: &[NodeEventType]) -> &ParamData {
    assert_eq!(events.len(), 1);
    match &events[0] {
        NodeEventType::Param { data, .. } => data,
        other => panic!("not a parameter event: {:?}", other),
    }
}

#[test]
fn unit_diff_queues_nothing() {
    let events = diff_into_vec(&(), &(), PathBuilder::new());
    assert!(events.is_empty());
}

#[test]
fn unit_patch_accepts_only_no_data() {
    assert_eq!(<() as Patch>::patch(&ParamData::NoData, &[]), Ok(()));
    assert_eq!(<() as Patch>::patch(&ParamData::U32(1), &[]), Err(PatchError::InvalidData));
}

#[test]
fn equal_values_queue_nothing() {
    assert!(diff_into_vec(&7u32, &7u32, PathBuilder::new()).is_empty());
    assert!(diff_into_vec(&true, &true, PathBuilder::new()).is_empty());
    assert!(diff_into_vec(&Some(3i64), &Some(3i64), PathBuilder::new()).is_empty());
    assert!(diff_into_vec(&None::<u8>, &None::<u8>, PathBuilder::new()).is_empty());
}

#[test]
fn changed_u8_is_carried_as_u32_at_its_path() {
    let path = PathBuilder::new().with(2).with(5);
    let events = diff_into_vec(&200u8, &1u8, path);
    assert_eq!(events.len(), 1);
    match &events[0] {
        NodeEventType::Param { data, path } => {
            assert!(matches!(data, ParamData::U32(200)));
            assert_eq!(path.as_slice(), &[2, 5]);
        }
        other => panic!("not a parameter event: {:?}", other),
    }
}

#[test]
fn signed_and_pointer_sized_integers_widen() {
    assert!(matches!(only_data(&diff_into_vec(&-5i8, &0i8, PathBuilder::new())), ParamData::I32(-5)));
    assert!(matches!(only_data(&diff_into_vec(&-300i16, &0i16, PathBuilder::new())), ParamData::I32(-300)));
    assert!(matches!(only_data(&diff_into_vec(&60000u16, &0u16, PathBuilder::new())), ParamData::U32(60000)));
    assert!(matches!(only_data(&diff_into_vec(&12usize, &0usize, PathBuilder::new())), ParamData::U64(12)));
    assert!(matches!(only_data(&diff_into_vec(&-12isize, &0isize, PathBuilder::new())), ParamData::I64(-12)));
    assert!(matches!(only_data(&diff_into_vec(&u64::MAX, &0u64, PathBuilder::new())), ParamData::U64(u64::MAX)));
    assert!(matches!(only_data(&diff_into_vec(&i64::MIN, &0i64, PathBuilder::new())), ParamData::I64(i64::MIN)));
    assert!(matches!(only_data(&diff_into_vec(&false, &true, PathBuilder::new())), ParamData::Bool(false)));
}

#[test]
fn narrow_patches_truncate_wide_data() {
    assert_eq!(<u8 as Patch>::patch(&ParamData::U32(300), &[]), Ok(44));
    assert_eq!(<i8 as Patch>::patch(&ParamData::I32(200), &[]), Ok(-56));
    assert_eq!(<u16 as Patch>::patch(&ParamData::U32(70000), &[]), Ok(4464));
    assert_eq!(<i16 as Patch>::patch(&ParamData::I32(-40000), &[]), Ok(25536));
}

#[test]
fn patches_reject_other_variants() {
    assert_eq!(<u32 as Patch>::patch(&ParamData::I32(1), &[]), Err(PatchError::InvalidData));
    assert_eq!(<bool as Patch>::patch(&ParamData::NoData, &[]), Err(PatchError::InvalidData));
    assert_eq!(<u64 as Patch>::patch(&ParamData::F64(0), &[]), Err(PatchError::InvalidData));
    assert_eq!(<Option<i32> as Patch>::patch(&ParamData::U32(1), &[]), Err(PatchError::InvalidData));
    assert_eq!(<i64 as Patch>::patch(&ParamData::CustomBytes([0; 20]), &[]), Err(PatchError::InvalidData));
}

#[test]
fn options_use_no_data_for_none() {
    assert!(matches!(only_data(&diff_into_vec(&None::<u32>, &Some(4u32), PathBuilder::new())), ParamData::NoData));
    assert!(matches!(only_data(&diff_into_vec(&Some(9u8), &None, PathBuilder::new())), ParamData::U32(9)));
    assert_eq!(<Option<u32> as Patch>::patch(&ParamData::NoData, &[]), Ok(None));
    assert_eq!(<Option<u8> as Patch>::patch(&ParamData::U32(257), &[]), Ok(Some(1)));
    assert_eq!(<Option<bool> as Patch>::patch(&ParamData::Bool(true), &[]), Ok(Some(true)));
}

#[test]
fn apply_replaces_the_value() {
    let mut v = 3i32;
    v.apply(-8);
    assert_eq!(v, -8);
    let mut o: Option<u64> = Some(1);
    o.apply(None);
    assert_eq!(o, None);
}

fn restore<T>(value: T, baseline: T) -> T
where
    T: Diff + Patch<Patch = T> + Clone,
{
    let events = diff_into_vec(&value, &baseline, PathBuilder::new());
    let mut restored = baseline.clone();
    for event in &events {
        if let Some(patch) = T::patch_event(event) {
            restored.apply(patch);
        }
    }
    restored
}

#[test]
fn diff_then_patch_restores_the_value() {
    assert_eq!(restore(250u8, 3u8), 250u8);
    assert_eq!(restore(-128i8, 127i8), -128i8);
    assert_eq!(restore(u32::MAX, 0u32), u32::MAX);
    assert_eq!(restore(i64::MIN, 0i64), i64::MIN);
    assert_eq!(restore(usize::MAX, 0usize), usize::MAX);
    assert_eq!(restore(isize::MIN, 0isize), isize::MIN);
    assert_eq!(restore(true, false), true);
    assert_eq!(restore(Some(-7i16), None), Some(-7i16));
    assert_eq!(restore(None::<u16>, Some(2)), None);
    assert_eq!(restore(5u64, 5u64), 5u64);
}

#[test]
fn notify_unit_carries_its_id() {
    let a = Notify::from_raw((), NotifyID(41));
    let b = Notify::from_raw((), NotifyID(42));
    assert!(diff_into_vec(&a, &a, PathBuilder::new()).is_empty());
    assert!(matches!(only_data(&diff_into_vec(&b, &a, PathBuilder::new())), ParamData::U64(42)));
    let patched = <Notify<()> as Patch>::patch(&ParamData::U64(42), &[]).unwrap();
    assert_eq!(patched.id(), NotifyID(42));
    assert_eq!(<Notify<()> as Patch>::patch(&ParamData::U32(42), &[]), Err(PatchError::InvalidData));
}

#[test]
fn notify_bool_bytes_layout() {
    let id: u64 = 0x0102_0304_0506_0708;
    let value = Notify::from_raw(true, NotifyID(id));
    let baseline = Notify::from_raw(true, NotifyID(1));
    let events = diff_into_vec(&value, &baseline, PathBuilder::new());
    match only_data(&events) {
        ParamData::CustomBytes(bytes) => {
            assert_eq!(&bytes[0..8], &id.to_ne_bytes());
            assert_eq!(bytes[8], 1);
            assert!(bytes[9..].iter().all(|b| *b == 0));
        }
        other => panic!("unexpected data: {:?}", other),
    }
    let patched = <Notify<bool> as Patch>::patch(only_data(&events), &[]).unwrap();
    assert_eq!(patched, value);
}

#[test]
fn notify_bool_value_change_alone_is_queued() {
    let a = Notify::from_raw(false, NotifyID(5));
    let b = Notify::from_raw(true, NotifyID(5));
    let events = diff_into_vec(&a, &b, PathBuilder::new());
    match only_data(&events) {
        ParamData::CustomBytes(bytes) => assert_eq!(bytes[8], 0),
        other => panic!("unexpected data: {:?}", other),
    }
    let mut bytes = [0u8; 20];
    bytes[8] = 7;
    let patched = <Notify<bool> as Patch>::patch(&ParamData::CustomBytes(bytes), &[]).unwrap();
    assert_eq!(*patched.get(), true);
    assert_eq!(patched.id(), NotifyID(0));
}

#[test]
fn notify_integer_bytes_layout() {
    let value = Notify::from_raw(0xA1B2_C3D4u32, NotifyID(99));
    let events = diff_into_vec(&value, &Notify::from_raw(0, NotifyID(98)), PathBuilder::new());
    match only_data(&events) {
        ParamData::CustomBytes(bytes) => {
            assert_eq!(&bytes[0..8], &99u64.to_ne_bytes());
            assert_eq!(&bytes[8..12], &0xA1B2_C3D4u32.to_ne_bytes());
            assert!(bytes[12..].iter().all(|b| *b == 0));
        }
        other => panic!("unexpected data: {:?}", other),
    }
    let value = Notify::from_raw(-2i64, NotifyID(u64::MAX));
    let events = diff_into_vec(&value, &Notify::from_raw(-2i64, NotifyID(0)), PathBuilder::new());
    match only_data(&events) {
        ParamData::CustomBytes(bytes) => {
            assert_eq!(&bytes[0..8], &u64::MAX.to_ne_bytes());
            assert_eq!(&bytes[8..16], &(-2i64).to_ne_bytes());
        }
        other => panic!("unexpected data: {:?}", other),
    }
}

#[test]
fn notify_integers_roundtrip() {
    assert_eq!(restore(Notify::from_raw(-100i8, NotifyID(3)), Notify::from_raw(0i8, NotifyID(3))), Notify::from_raw(-100i8, NotifyID(3)));
    assert_eq!(restore(Notify::from_raw(255u8, NotifyID(8)), Notify::from_raw(0u8, NotifyID(1))), Notify::from_raw(255u8, NotifyID(8)));
    assert_eq!(restore(Notify::from_raw(-3i16, NotifyID(9)), Notify::from_raw(0i16, NotifyID(1))), Notify::from_raw(-3i16, NotifyID(9)));
    assert_eq!(restore(Notify::from_raw(65535u16, NotifyID(9)), Notify::from_raw(0u16, NotifyID(1))), Notify::from_raw(65535u16, NotifyID(9)));
    assert_eq!(restore(Notify::from_raw(i32::MIN, NotifyID(12)), Notify::from_raw(0i32, NotifyID(1))), Notify::from_raw(i32::MIN, NotifyID(12)));
    assert_eq!(restore(Notify::from_raw(u64::MAX, NotifyID(u64::MAX)), Notify::from_raw(0u64, NotifyID(1))), Notify::from_raw(u64::MAX, NotifyID(u64::MAX)));
    assert_eq!(restore(Notify::from_raw((), NotifyID(77)), Notify::from_raw((), NotifyID(1))), Notify::from_raw((), NotifyID(77)));
}

#[test]
fn notify_patch_rejects_other_variants() {
    assert_eq!(<Notify<u16> as Patch>::patch(&ParamData::U32(1), &[]), Err(PatchError::InvalidData));
    assert_eq!(<Notify<bool> as Patch>::patch(&ParamData::Bool(true), &[]), Err(PatchError::InvalidData));
}

#[test]
fn patch_event_skips_events_without_fitting_data() {
    assert_eq!(<bool as Patch>::patch_event(&NodeEventType::SetBypassed(true)), None);
    assert_eq!(<u32 as Patch>::patch_event(&NodeEventType::CustomBytes([0; 36])), None);
    let mut queue: Vec<NodeEventType> = Vec::new();
    queue.push_param(ParamData::I32(3), PathBuilder::new());
    assert_eq!(<u32 as Patch>::patch_event(&queue[0]), None);
    assert_eq!(<i32 as Patch>::patch_event(&queue[0]), Some(3));
}

#[test]
fn path_builder_extends_paths() {
    let root = PathBuilder::default();
    assert_eq!(root.build().as_slice(), &[] as &[u32]);
    let deep = root.with(1).with(0).with(9);
    assert_eq!(deep.build().as_slice(), &[1, 0, 9]);
    assert_eq!(root.build().as_slice().len(), 0);
}

#[test]
fn notify_narrow_integer_bytes_layout() {
    let value = Notify::from_raw(0xBEEFu16, NotifyID(1234));
    let events = diff_into_vec(&value, &Notify::from_raw(0xBEEFu16, NotifyID(1)), PathBuilder::new());
    match only_data(&events) {
        ParamData::CustomBytes(bytes) => {
            assert_eq!(&bytes[0..8], &1234u64.to_ne_bytes());
            assert_eq!(&bytes[8..10], &0xBEEFu16.to_ne_bytes());
            assert!(bytes[10..].iter().all(|b| *b == 0));
        }
        other => panic!("unexpected data: {:?}", other),
    }
    let value = Notify::from_raw(-1i8, NotifyID(0));
    let events = diff_into_vec(&value, &Notify::from_raw(0i8, NotifyID(0)), PathBuilder::new());
    match only_data(&events) {
        ParamData::CustomBytes(bytes) => {
            assert_eq!(&bytes[0..8], &[0u8; 8]);
            assert_eq!(bytes[8], 0xFF);
            assert!(bytes[9..].iter().all(|b| *b == 0));
        }
        other => panic!("unexpected data: {:?}", other),
    }
}

#[test]
fn notify_derefs_to_its_value() {
    let n = Notify::from_raw(17u32, NotifyID(2));
    assert_eq!(*n, 17);
    assert_eq!(*n.get(), 17);
    assert_eq!(n.id(), NotifyID(2));
}

#[test]
fn notify_to_param_data_matches_its_diff() {
    let value = Notify::from_raw(-7i32, NotifyID(11));
    let events = diff_into_vec(&value, &Notify::from_raw(0i32, NotifyID(11)), PathBuilder::new());
    match (only_data(&events), value.to_param_data()) {
        (ParamData::CustomBytes(a), ParamData::CustomBytes(b)) => {
            assert_eq!(a, &b);
            assert_eq!(&b[8..12], &(-7i32).to_ne_bytes());
        }
        other => panic!("unexpected data: {:?}", other),
    }
}
