use bolide::config::Time;
use bolide::tg::{FetchOutcome, PumpState, Update, UpdateKind};

fn upd(id: u32, date: u64, chat: i64, text: Option<&str>) -> Update {
    Update { id, kind: UpdateKind::Message, date, chat, text: text.map(|t| t.to_string()) }
}

#[test]
fn cursor_starts_at_zero() {
    let state = PumpState::new();
    assert_eq!(state.cursor, 0);
    let params = state.next_fetch();
    assert_eq!(params.offset, 0);
    assert_eq!(params.limit, 500);
}

#[test]
fn cursor_advances_to_last_id_plus_one() {
    let mut state = PumpState::new();
    let time = Time::default();
    let batch = vec![upd(10, 5, 1, None), upd(11, 5, 1, None), upd(12, 5, 1, None)];
    let plan = state.on_fetch_result(FetchOutcome::Batch(batch), &time);
    assert_eq!(state.cursor, 13);
    assert_eq!(plan.updates.len(), 3);
    assert_eq!(plan.delay_ms, 1000);
}

#[test]
fn empty_batch_leaves_cursor_unchanged() {
    let mut state = PumpState::new();
    let time = Time::default();
    let plan = state.on_fetch_result(FetchOutcome::Batch(vec![upd(7, 1, 1, None)]), &time);
    assert_eq!(state.cursor, 8);
    assert_eq!(plan.updates.len(), 1);
    let plan = state.on_fetch_result(FetchOutcome::Batch(Vec::new()), &time);
    assert_eq!(state.cursor, 8);
    assert_eq!(plan.updates.len(), 0);
    assert_eq!(plan.delay_ms, 1000);
}

#[test]
fn failed_fetch_keeps_cursor_and_waits_longer() {
    let mut state = PumpState::new();
    let time = Time::default();
    state.on_fetch_result(FetchOutcome::Batch(vec![upd(3, 1, 1, None)]), &time);
    let plan = state.on_fetch_result(FetchOutcome::Failed, &time);
    assert_eq!(state.cursor, 4);
    assert_eq!(plan.updates.len(), 0);
    assert_eq!(plan.delay_ms, 5000);
}

#[test]
fn next_fetch_uses_advanced_cursor() {
    let mut state = PumpState::new();
    let time = Time { fetch_delay: 1, failed_delay: 2 };
    state.on_fetch_result(FetchOutcome::Batch(vec![upd(100, 1, 1, None)]), &time);
    let params = state.next_fetch();
    assert_eq!(params.offset, 101);
}
