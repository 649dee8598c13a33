use firewheel_core::diff::{Notify, NotifyID, Patch, PatchError, PathBuilder};
use firewheel_core::diff::EventQueue;
use firewheel_core::event::{NodeEvent, NodeEventType, NodeID, ParamData, ProcEvents, ProcEventsIndex};

fn param(data: ParamData) -> NodeEventType {
    let mut queue: Vec<NodeEventType> = Vec::new();
    queue.push_param(data, PathBuilder::new().with(0));
    queue.pop().unwrap()
}

#[test]
fn node_event_new_keeps_its_parts() {
    let event = NodeEvent::new(NodeID(4), NodeEventType::SetBypassed(true));
    assert_eq!(event.node_id, NodeID(4));
    assert!(matches!(event.event, NodeEventType::SetBypassed(true)));
}

#[test]
fn drain_takes_events_in_index_order() {
    let mut buffer: Vec<Option<NodeEvent>> = vec![
        Some(NodeEvent::new(NodeID(0), NodeEventType::SetBypassed(false))),
        None,
        Some(NodeEvent::new(NodeID(0), NodeEventType::CustomBytes([7; 36]))),
        Some(NodeEvent::new(NodeID(0), NodeEventType::SetBypassed(true))),
    ];
    let mut indices = vec![
        ProcEventsIndex::Immediate(3),
        ProcEventsIndex::Immediate(0),
        ProcEventsIndex::Immediate(2),
    ];
    {
        let mut events = ProcEvents::new(&mut buffer, &mut indices);
        assert_eq!(events.num_events(), 3);
        assert!(!events.is_empty());
        let drained = events.drain();
        assert_eq!(drained.len(), 3);
        assert!(matches!(drained[0], NodeEventType::SetBypassed(true)));
        assert!(matches!(drained[1], NodeEventType::SetBypassed(false)));
        assert!(matches!(drained[2], NodeEventType::CustomBytes([7, ..])));
        assert_eq!(events.num_events(), 0);
        assert!(events.is_empty());
    }
    assert!(indices.is_empty());
    assert!(buffer.iter().all(|slot| slot.is_none()));
}

#[test]
fn drain_leaves_unlisted_slots() {
    let mut buffer: Vec<Option<NodeEvent>> = vec![
        Some(NodeEvent::new(NodeID(1), NodeEventType::SetBypassed(false))),
        Some(NodeEvent::new(NodeID(2), NodeEventType::SetBypassed(true))),
    ];
    let mut indices = vec![ProcEventsIndex::Immediate(1)];
    {
        let mut events = ProcEvents::new(&mut buffer, &mut indices);
        let drained = events.drain();
        assert_eq!(drained.len(), 1);
    }
    assert!(buffer[0].is_some());
    assert!(buffer[1].is_none());
}

#[test]
fn drain_of_an_empty_list_is_empty() {
    let mut buffer: Vec<Option<NodeEvent>> = Vec::new();
    let mut indices: Vec<ProcEventsIndex> = Vec::new();
    let mut events = ProcEvents::new(&mut buffer, &mut indices);
    assert!(events.is_empty());
    assert!(events.drain().is_empty());
}

#[test]
fn drain_patches_skips_events_that_give_no_patch() {
    let mut buffer: Vec<Option<NodeEvent>> = vec![
        Some(NodeEvent::new(NodeID(0), param(ParamData::U32(5)))),
        Some(NodeEvent::new(NodeID(0), NodeEventType::SetBypassed(true))),
        Some(NodeEvent::new(NodeID(0), param(ParamData::I32(-1)))),
        Some(NodeEvent::new(NodeID(0), param(ParamData::U32(6)))),
    ];
    let mut indices = vec![
        ProcEventsIndex::Immediate(0),
        ProcEventsIndex::Immediate(1),
        ProcEventsIndex::Immediate(2),
        ProcEventsIndex::Immediate(3),
    ];
    let mut events = ProcEvents::new(&mut buffer, &mut indices);
    let patches: Vec<u32> = events.drain_patches::<u32>();
    assert_eq!(patches, vec![5, 6]);
    assert!(events.is_empty());
}

#[test]
fn from_and_try_from_roundtrip() {
    let data = ParamData::from(-9i32);
    assert_eq!(i32::try_from(&data), Ok(-9));
    let data = ParamData::from(u32::MAX);
    assert_eq!(u32::try_from(&data), Ok(u32::MAX));
    let data = ParamData::from(i64::MIN);
    assert_eq!(i64::try_from(&data), Ok(i64::MIN));
    let data = ParamData::from(7u64);
    assert_eq!(u64::try_from(&data), Ok(7));
    let data = ParamData::from(true);
    assert_eq!(bool::try_from(&data), Ok(true));
    let data = ParamData::from(());
    assert_eq!(<()>::try_from(&data), Ok(()));
    let data = ParamData::from(Some(3u32));
    assert_eq!(<Option<u32>>::try_from(&data), Ok(Some(3)));
    let data = ParamData::from(None::<i64>);
    assert!(matches!(data, ParamData::NoData));
    assert_eq!(<Option<i64>>::try_from(&data), Ok(None));
}

#[test]
fn try_into_rejects_other_variants() {
    let data = ParamData::from(1u32);
    let r: Result<i32, PatchError> = (&data).try_into();
    assert_eq!(r, Err(PatchError::InvalidData));
    assert_eq!(bool::try_from(&ParamData::NoData), Err(PatchError::InvalidData));
    assert_eq!(<()>::try_from(&ParamData::Bool(false)), Err(PatchError::InvalidData));
    assert_eq!(<Option<u64>>::try_from(&ParamData::U32(1)), Err(PatchError::InvalidData));
}

#[test]
fn notify_converts_to_its_value() {
    assert!(matches!(ParamData::from(Notify::from_raw(12u64, NotifyID(3))), ParamData::U64(12)));
    assert!(matches!(ParamData::from(Notify::from_raw(false, NotifyID(3))), ParamData::Bool(false)));
    assert!(matches!(ParamData::from(Notify::from_raw((), NotifyID(3))), ParamData::NoData));
}

#[test]
fn try_from_and_patch_agree() {
    let samples = [
        ParamData::U32(1),
        ParamData::I32(-1),
        ParamData::Bool(true),
        ParamData::NoData,
        ParamData::U64(2),
    ];
    for data in &samples {
        assert_eq!(u32::try_from(data), <u32 as Patch>::patch(data, &[]));
        assert_eq!(<Option<bool>>::try_from(data), <Option<bool> as Patch>::patch(data, &[]));
        assert_eq!(<()>::try_from(data), <() as Patch>::patch(data, &[]));
    }
}

#[test]
fn drain_empties_named_slots_and_keeps_the_rest() {
    let n = NodeID(0);
    let mut buf: Vec<Option<NodeEvent>> = vec![
        Some(NodeEvent::new(n, NodeEventType::SetBypassed(false))),
        Some(NodeEvent::new(n, NodeEventType::SetBypassed(true))),
        Some(NodeEvent::new(n, NodeEventType::CustomBytes([7; 36]))),
    ];
    let mut idx = vec![ProcEventsIndex::Immediate(2), ProcEventsIndex::Immediate(0)];
    {
        let mut ev = ProcEvents::new(&mut buf, &mut idx);
        let drained = ev.drain();
        assert_eq!(drained.len(), 2);
        assert!(matches!(drained[0], NodeEventType::CustomBytes([7, ..])));
        assert!(matches!(drained[1], NodeEventType::SetBypassed(false)));
        assert_eq!(ev.num_events(), 0);
    }
    assert!(idx.is_empty());
    assert!(buf[2].is_none() && buf[0].is_none());
    assert!(matches!(buf[1], Some(NodeEvent { event: NodeEventType::SetBypassed(true), .. })));
}

#[test]
fn drain_patches_takes_skipped_events_too() {
    let mut buf: Vec<Option<NodeEvent>> = vec![
        Some(NodeEvent::new(NodeID(0), NodeEventType::SetBypassed(true))),
        Some(NodeEvent::new(NodeID(0), param(ParamData::U64(3)))),
        Some(NodeEvent::new(NodeID(0), param(ParamData::Bool(true)))),
    ];
    let mut idx = vec![ProcEventsIndex::Immediate(0), ProcEventsIndex::Immediate(1)];
    {
        let mut ev = ProcEvents::new(&mut buf, &mut idx);
        let patches: Vec<u64> = ev.drain_patches::<u64>();
        assert_eq!(patches, vec![3]);
    }
    assert!(idx.is_empty());
    assert!(buf[0].is_none());
    assert!(buf[1].is_none());
    assert!(buf[2].is_some());
}
