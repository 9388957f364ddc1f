use godot_core::runtime::{AsyncRuntime, FutureSlot, ResumeError, TaskOutcome};

fn pending(slot: &FutureSlot<u32>) -> Option<u32> {
    match slot {
        FutureSlot::Pending(v) => Some(*v),
        _ => None,
    }
}

#[test]
fn slot_take_pending_leaves_polling() {
    let mut slot = FutureSlot::Pending(7u32);
    let taken = slot.take();
    assert_eq!(pending(&taken), Some(7));
    assert!(matches!(slot, FutureSlot::Polling));
}

#[test]
fn slot_take_empty_and_polling_unchanged() {
    let mut empty: FutureSlot<u32> = FutureSlot::Empty;
    assert!(matches!(empty.take(), FutureSlot::Empty));
    assert!(empty.is_empty());

    let mut polling: FutureSlot<u32> = FutureSlot::Polling;
    assert!(matches!(polling.take(), FutureSlot::Polling));
    assert!(matches!(polling, FutureSlot::Polling));
    assert!(!polling.is_empty());
}

#[test]
fn slot_park_and_clear() {
    let mut slot: FutureSlot<u32> = FutureSlot::Polling;
    slot.park(9);
    assert_eq!(pending(&slot), Some(9));
    slot.clear();
    assert!(slot.is_empty());
}

#[test]
fn add_task_appends_when_full() {
    let mut rt = AsyncRuntime::new();
    assert_eq!(rt.len(), 0);
    assert_eq!(rt.add_task(10u32), 0);
    assert_eq!(rt.add_task(11u32), 1);
    assert_eq!(rt.add_task(12u32), 2);
    assert_eq!(rt.len(), 3);
}

#[test]
fn add_then_get_hands_back_task() {
    let mut rt = AsyncRuntime::new();
    rt.add_task(1u32);
    let index = rt.add_task(2u32);
    let slot = rt.get_task(index);
    assert_eq!(pending(&slot), Some(2));
    // The slot is now being polled: taking it again reports that.
    assert!(matches!(rt.get_task(index), FutureSlot::Polling));
}

#[test]
fn get_task_out_of_range_is_empty() {
    let mut rt: AsyncRuntime<u32> = AsyncRuntime::new();
    assert!(matches!(rt.get_task(0), FutureSlot::Empty));
    rt.add_task(5);
    assert!(matches!(rt.get_task(4), FutureSlot::Empty));
    assert_eq!(rt.len(), 1);
}

#[test]
fn get_then_park_restores_task() {
    let mut rt = AsyncRuntime::new();
    let index = rt.add_task(42u32);
    let taken = rt.get_task(index);
    rt.park_task(index, pending(&taken).unwrap());
    assert_eq!(pending(&rt.get_task(index)), Some(42));
}

#[test]
fn cleared_first_slot_is_reused() {
    let mut rt = AsyncRuntime::new();
    rt.add_task(1u32);
    rt.add_task(2u32);
    rt.get_task(0);
    rt.settle_task(0, TaskOutcome::Ready);
    assert!(matches!(rt.get_task(0), FutureSlot::Empty));
    assert_eq!(rt.add_task(3u32), 0);
    assert_eq!(rt.len(), 2);
}

#[test]
fn clear_task_clears_first_slot_for_any_index_in_range() {
    let mut rt = AsyncRuntime::new();
    rt.add_task(1u32);
    rt.add_task(2u32);
    rt.clear_task(1);
    assert!(matches!(rt.get_task(0), FutureSlot::Empty));
    assert_eq!(pending(&rt.get_task(1)), Some(2));
}

#[test]
fn clear_task_out_of_range_changes_nothing() {
    let mut rt = AsyncRuntime::new();
    rt.add_task(1u32);
    rt.clear_task(3);
    assert_eq!(pending(&rt.get_task(0)), Some(1));
}

#[test]
fn settle_pending_parks_task() {
    let mut rt = AsyncRuntime::new();
    let index = rt.add_task(8u32);
    let taken = rt.get_task(index);
    rt.settle_task(index, TaskOutcome::Pending(pending(&taken).unwrap() + 1));
    assert_eq!(pending(&rt.get_task(index)), Some(9));
}

#[test]
fn spawn_only_on_main_thread() {
    let mut rt = AsyncRuntime::new();
    assert_eq!(rt.spawn_task(2, 1, 5u32), None);
    assert_eq!(rt.len(), 0);
    assert_eq!(rt.spawn_task(1, 1, 5u32), Some(0));
    assert_eq!(rt.len(), 1);
}

#[test]
fn resume_task_outcomes() {
    let mut rt = AsyncRuntime::new();
    let index = rt.add_task(4u32);
    assert!(!rt.is_polling(index));
    assert!(matches!(rt.resume_task(index), Ok(4)));
    assert!(rt.is_polling(index));
    assert!(matches!(rt.resume_task(index), Err(ResumeError::Reentered)));
    assert!(matches!(rt.resume_task(7), Err(ResumeError::Missing)));
    assert!(!rt.is_polling(7));
    rt.settle_task(index, TaskOutcome::Ready);
    assert!(matches!(rt.resume_task(index), Err(ResumeError::Missing)));
}
