use slynqix::pipeline::{AsyncPipeline, Completion, PipelineError, Ticket};

#[test]
fn new_pipeline_is_idle_and_empty() {
    let p: AsyncPipeline<String> = AsyncPipeline::new();
    assert!(!p.is_loading());
    assert!(p.result().is_none());
    assert_eq!(p.issued(), 0);
}

#[test]
fn submit_then_complete_stores_the_payload() {
    let mut p: AsyncPipeline<&str> = AsyncPipeline::new();
    let ticket = p.submit().unwrap();
    assert_eq!(ticket, Ticket { serial: 0 });
    assert!(p.is_loading());
    assert!(p.result().is_none());
    assert!(p.accepts(ticket));
    assert_eq!(p.complete(ticket, "payload"), Completion::Applied);
    assert!(!p.is_loading());
    assert_eq!(p.result(), Some(&"payload"));
    assert_eq!(p.issued(), 1);
}

#[test]
fn double_submit_later_result_wins_when_answers_come_in_order() {
    let mut p: AsyncPipeline<&str> = AsyncPipeline::new();
    let first = p.submit().unwrap();
    let second = p.submit().unwrap();
    assert_ne!(first, second);
    assert_eq!(p.complete(first, "first"), Completion::Dropped);
    assert!(p.is_loading());
    assert!(p.result().is_none());
    assert_eq!(p.complete(second, "second"), Completion::Applied);
    assert!(!p.is_loading());
    assert_eq!(p.result(), Some(&"second"));
}

#[test]
fn double_submit_later_result_wins_when_answers_come_reversed() {
    let mut p: AsyncPipeline<&str> = AsyncPipeline::new();
    let first = p.submit().unwrap();
    let second = p.submit().unwrap();
    assert_eq!(p.complete(second, "second"), Completion::Applied);
    assert!(!p.is_loading());
    assert_eq!(p.result(), Some(&"second"));
    assert_eq!(p.complete(first, "first"), Completion::Dropped);
    assert!(!p.is_loading());
    assert_eq!(p.result(), Some(&"second"));
}

#[test]
fn stale_answer_never_replaces_an_older_result() {
    let mut p: AsyncPipeline<u32> = AsyncPipeline::new();
    let a = p.submit().unwrap();
    assert_eq!(p.complete(a, 1), Completion::Applied);
    let b = p.submit().unwrap();
    let c = p.submit().unwrap();
    assert_eq!(p.result(), Some(&1));
    assert!(p.is_loading());
    assert_eq!(p.complete(b, 2), Completion::Dropped);
    assert_eq!(p.result(), Some(&1));
    assert!(p.is_loading());
    assert_eq!(p.complete(a, 9), Completion::Dropped);
    assert_eq!(p.complete(c, 3), Completion::Applied);
    assert_eq!(p.result(), Some(&3));
    assert!(!p.is_loading());
}

#[test]
fn ticket_completes_only_once() {
    let mut p: AsyncPipeline<u32> = AsyncPipeline::new();
    let t = p.submit().unwrap();
    assert_eq!(p.complete(t, 1), Completion::Applied);
    assert_eq!(p.complete(t, 2), Completion::Dropped);
    assert_eq!(p.result(), Some(&1));
}

#[test]
fn unknown_ticket_is_dropped() {
    let mut p: AsyncPipeline<u32> = AsyncPipeline::new();
    assert_eq!(p.complete(Ticket { serial: 0 }, 5), Completion::Dropped);
    assert!(p.result().is_none());
    let t = p.submit().unwrap();
    assert_eq!(p.complete(Ticket { serial: t.serial + 1 }, 5), Completion::Dropped);
    assert!(p.is_loading());
    assert!(!p.accepts(Ticket { serial: 7 }));
}

#[test]
fn try_submit_is_busy_while_loading() {
    let mut p: AsyncPipeline<u32> = AsyncPipeline::new();
    let t = p.try_submit().unwrap();
    assert_eq!(t.serial, 0);
    assert_eq!(p.try_submit(), Err(PipelineError::Busy));
    assert_eq!(p.issued(), 1);
    assert!(p.accepts(t));
    assert_eq!(p.complete(t, 4), Completion::Applied);
    let next = p.try_submit().unwrap();
    assert_eq!(next.serial, 1);
    assert_eq!(p.result(), Some(&4));
}

#[test]
fn cancel_drops_the_answer_in_flight() {
    let mut p: AsyncPipeline<u32> = AsyncPipeline::new();
    assert!(!p.cancel());
    let a = p.submit().unwrap();
    assert_eq!(p.complete(a, 1), Completion::Applied);
    let b = p.submit().unwrap();
    assert!(p.cancel());
    assert!(!p.is_loading());
    assert_eq!(p.result(), Some(&1));
    assert_eq!(p.complete(b, 2), Completion::Dropped);
    assert_eq!(p.result(), Some(&1));
    assert!(!p.cancel());
}

#[test]
fn tickets_run_out_at_the_last_serial() {
    let mut p: AsyncPipeline<u32> = AsyncPipeline::continuing_from(u64::MAX - 1);
    assert_eq!(p.issued(), u64::MAX - 1);
    assert!(!p.is_loading());
    let last = p.submit().unwrap();
    assert_eq!(last.serial, u64::MAX - 1);
    assert_eq!(p.submit(), Err(PipelineError::Exhausted));
    assert!(p.accepts(last));
    assert_eq!(p.complete(last, 8), Completion::Applied);
    assert_eq!(p.try_submit(), Err(PipelineError::Exhausted));
    assert!(!p.is_loading());
    assert_eq!(p.result(), Some(&8));
    assert_eq!(p.issued(), u64::MAX);
}

#[test]
fn continued_pipeline_drops_tickets_of_its_predecessor() {
    let mut old: AsyncPipeline<u32> = AsyncPipeline::new();
    let stale = old.submit().unwrap();
    let mut fresh: AsyncPipeline<u32> = AsyncPipeline::continuing_from(old.issued());
    let t = fresh.submit().unwrap();
    assert_eq!(t.serial, 1);
    assert_eq!(fresh.complete(stale, 1), Completion::Dropped);
    assert_eq!(fresh.complete(t, 2), Completion::Applied);
    assert_eq!(fresh.result(), Some(&2));
}
