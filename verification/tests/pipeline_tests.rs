use axiom_logging::DeliveryWorker;
use axiom_logging::EventQueue;
use axiom_logging::FieldValue;
use axiom_logging::JsonVisitor;
use axiom_logging::LogEvent;
use axiom_logging::MAX_RETRIES;
use axiom_logging::WorkerAction;
use axiom_logging::WorkerInput;

fn sample_event(tag: u64) -> LogEvent {
    let mut v = JsonVisitor::new();
    v.record_u64("tag", tag);
    LogEvent::build(tag as i64, "svc", "prod", String::from("INFO"), "tgt", v)
}

#[test]
fn queue_is_fifo() {
    let mut q = EventQueue::new();
    assert!(q.is_empty());
    for i in 0..5u64 {
        q.send(sample_event(i));
    }
    assert_eq!(q.len(), 5);
    for i in 0..5u64 {
        let e = q.recv().expect("queued event");
        assert_eq!(e.fields.get("tag"), Some(&FieldValue::UInt(i)));
        assert_eq!(e._time, i as i64);
    }
    assert!(q.recv().is_none());
}

#[test]
fn queue_recv_many_drains_in_order() {
    let mut q = EventQueue::new();
    for i in 0..7u64 {
        q.send(sample_event(i));
    }
    let mut buf = Vec::new();
    let n = q.recv_many(&mut buf, 3);
    assert_eq!(n, 3);
    let n = q.recv_many(&mut buf, 10);
    assert_eq!(n, 4);
    assert_eq!(buf.len(), 7);
    for (i, e) in buf.iter().enumerate() {
        assert_eq!(e.fields.get("tag"), Some(&FieldValue::UInt(i as u64)));
    }
    let n = q.recv_many(&mut buf, 10);
    assert_eq!(n, 0);
}

fn drive_group(worker: &mut DeliveryWorker, failures_before_success: Option<usize>) -> usize {
    let mut sends = 0usize;
    let mut action = worker.step(WorkerInput::GroupReady);
    loop {
        match action {
            WorkerAction::Send => {
                sends += 1;
                let succeed = match failures_before_success {
                    Some(f) => sends > f,
                    None => false,
                };
                action = if succeed {
                    worker.step(WorkerInput::SendSucceeded)
                } else {
                    worker.step(WorkerInput::SendFailed)
                };
            }
            WorkerAction::AwaitInput => return sends,
            WorkerAction::Terminate => panic!("terminated during delivery"),
        }
    }
}

#[test]
fn failing_client_spends_exactly_max_retries() {
    let mut worker = DeliveryWorker::new(MAX_RETRIES);
    let sends = drive_group(&mut worker, None);
    assert_eq!(sends, MAX_RETRIES);
    assert!(!worker.sending);

    let mut small = DeliveryWorker::new(4);
    let sends = drive_group(&mut small, None);
    assert_eq!(sends, 4);
    assert!(!small.sending);
}

#[test]
fn success_on_third_attempt_sends_three_times() {
    let mut worker = DeliveryWorker::new(MAX_RETRIES);
    let sends = drive_group(&mut worker, Some(2));
    assert_eq!(sends, 3);
    assert!(!worker.sending);
}

#[test]
fn success_on_first_attempt_sends_once() {
    let mut worker = DeliveryWorker::new(MAX_RETRIES);
    let sends = drive_group(&mut worker, Some(0));
    assert_eq!(sends, 1);
    assert!(!worker.sending);
}

#[test]
fn retry_counter_resets_per_group() {
    let mut worker = DeliveryWorker::new(3);
    assert_eq!(drive_group(&mut worker, None), 3);
    assert_eq!(drive_group(&mut worker, Some(1)), 2);
    assert_eq!(drive_group(&mut worker, None), 3);
}

#[test]
fn closed_channel_terminates_idle_worker() {
    let mut worker = DeliveryWorker::new(MAX_RETRIES);
    let action = worker.step(WorkerInput::ChannelClosed);
    assert_eq!(action, WorkerAction::Terminate);
    assert!(!worker.sending);
}

#[test]
fn worker_survives_failures_of_many_groups() {
    let mut worker = DeliveryWorker::new(2);
    for _ in 0..5 {
        assert_eq!(drive_group(&mut worker, None), 2);
    }
    let action = worker.step(WorkerInput::ChannelClosed);
    assert_eq!(action, WorkerAction::Terminate);
}

#[test]
fn end_to_end_record_shape() {
    let mut v = JsonVisitor::new();
    v.record_str("message", "boom");
    v.record_i64("count", 3);

    let record = LogEvent::build(7, "svc", "prod", String::from("ERROR"), "app::module", v);

    assert_eq!(record.application, String::from("svc"));
    assert_eq!(record.environment, String::from("prod"));
    assert_eq!(record.level, String::from("ERROR"));
    assert_eq!(record.target, String::from("app::module"));
    assert_eq!(record.message, String::from("boom"));
    assert_eq!(record._time, 7);
    assert_eq!(record.fields.len(), 1);
    assert_eq!(record.fields.get("count"), Some(&FieldValue::Int(3)));

    let mut q = EventQueue::new();
    q.send(record);
    let delivered = q.recv().expect("one record queued");
    assert_eq!(delivered.message, String::from("boom"));
    assert_eq!(delivered.fields.get("count"), Some(&FieldValue::Int(3)));
}

#[test]
fn build_now_stamps_static_tags() {
    let mut v = JsonVisitor::new();
    v.record_str("message", "hello");
    let record = LogEvent::build_now("svc", "prod", String::from("WARN"), "tgt", v);
    assert_eq!(record.application, String::from("svc"));
    assert_eq!(record.environment, String::from("prod"));
    assert_eq!(record.level, String::from("WARN"));
    assert_eq!(record.message, String::from("hello"));
}
