use handy::streaming::{apply_segments, EngineSlot, Segment, WaitStep, WAIT_SLICE_NANOS};
use handy::text::TextAccumulator;

fn seg(text: &str, is_endpoint: bool) -> Segment {
    Segment {
        text: text.to_string(),
        is_endpoint,
    }
}

#[test]
fn engine_slot_starts_empty() {
    let slot: EngineSlot<u32> = EngineSlot::new();
    assert!(matches!(slot, EngineSlot::Empty));
}

#[test]
fn preload_only_from_empty() {
    let mut slot: EngineSlot<u32> = EngineSlot::new();
    assert!(slot.needs_load());
    slot.begin_loading();
    assert!(matches!(slot, EngineSlot::Loading));
    assert!(!slot.needs_load());
    slot.finish_loading(Some(7));
    assert!(matches!(slot, EngineSlot::Ready(7)));
    assert!(!slot.needs_load());
}

#[test]
fn failed_load_leaves_slot_empty() {
    let mut slot: EngineSlot<u32> = EngineSlot::new();
    slot.begin_loading();
    slot.finish_loading(None);
    assert!(matches!(slot, EngineSlot::Empty));
    assert_eq!(slot.ready_verdict(), Some(false));
}

#[test]
fn session_takes_and_returns_engine() {
    let mut slot = EngineSlot::Ready(5u32);
    let engine = slot.take_engine();
    assert_eq!(engine, Some(5));
    assert!(matches!(slot, EngineSlot::Empty));
    assert_eq!(slot.take_engine(), None);
    slot.put_back(engine.unwrap());
    assert!(matches!(slot, EngineSlot::Ready(5)));
}

#[test]
fn take_while_loading_takes_nothing() {
    let mut slot: EngineSlot<u32> = EngineSlot::Loading;
    assert_eq!(slot.take_engine(), None);
    assert!(matches!(slot, EngineSlot::Loading));
}

#[test]
fn unload_clears_slot() {
    let mut slot = EngineSlot::Ready(1u32);
    slot.clear();
    assert!(matches!(slot, EngineSlot::Empty));
}

#[test]
fn waiter_verdicts() {
    assert_eq!(EngineSlot::Ready(1u32).ready_verdict(), Some(true));
    assert_eq!(EngineSlot::<u32>::Loading.ready_verdict(), None);
    assert_eq!(EngineSlot::<u32>::Empty.ready_verdict(), Some(false));
}

#[test]
fn segments_stop_at_first_endpoint() {
    let mut acc = TextAccumulator::new();
    let out = apply_segments(
        &mut acc,
        &vec![seg("hello", false), seg(" world", true), seg("stale", false)],
    );
    assert!(out.reset_engine);
    assert_eq!(out.display, Some("hello world".to_string()));
    assert_eq!(acc.completed_text, "hello world");
    assert!(acc.current_sentence.is_empty());
}

#[test]
fn segments_without_endpoint_accumulate() {
    let mut acc = TextAccumulator::new();
    let out = apply_segments(&mut acc, &vec![seg("one ", false), seg("two", false)]);
    assert!(!out.reset_engine);
    assert_eq!(out.display, Some("one two".to_string()));
    assert_eq!(acc.current_sentence, "one two");
}

#[test]
fn nothing_to_show_gives_no_display() {
    let mut acc = TextAccumulator::new();
    let out = apply_segments(&mut acc, &vec![seg("   ", false)]);
    assert!(!out.reset_engine);
    assert_eq!(out.display, None);
    let out = apply_segments(&mut acc, &vec![]);
    assert_eq!(out.display, None);
}

#[test]
fn missing_model_files_leave_slot_untouched() {
    let mut slot: EngineSlot<u32> = EngineSlot::new();
    let r: Result<&str, &str> = slot.start_load(Err("not downloaded"));
    assert_eq!(r, Err("not downloaded"));
    assert!(matches!(slot, EngineSlot::Empty));
    let r: Result<&str, &str> = slot.start_load(Ok("/models/nemotron"));
    assert_eq!(r, Ok("/models/nemotron"));
    assert!(matches!(slot, EngineSlot::Loading));
}

#[test]
fn ready_slot_wins_over_cancel_and_deadline() {
    assert_eq!(EngineSlot::Ready(1u32).wait_step(true, 0), WaitStep::Return(true));
    assert_eq!(EngineSlot::<u32>::Empty.wait_step(false, 5_000), WaitStep::Return(false));
}

#[test]
fn loading_slot_waits_gives_up_or_times_out() {
    let slot: EngineSlot<u32> = EngineSlot::Loading;
    assert_eq!(slot.wait_step(true, 1_000_000_000), WaitStep::Return(false));
    assert_eq!(slot.wait_step(false, 0), WaitStep::Return(false));
    assert_eq!(slot.wait_step(false, 50_000_000), WaitStep::Wait { nanos: 50_000_000 });
    assert_eq!(
        slot.wait_step(false, 5_000_000_000),
        WaitStep::Wait { nanos: WAIT_SLICE_NANOS }
    );
}
