use asyncslackbot::{
    AsyncSlackApiSender, CallOutcome, GenericResult, QueueClosed, RelayAction, RelayEvent, RelayQueue,
    SlackWebApiCall, WorkerStep,
};

fn call(n: u32) -> SlackWebApiCall {
    SlackWebApiCall {
        endpoint: "https://slack.com/api/chat.postMessage",
        paramdata: format!("{{\"n\":{}}}", n),
    }
}

fn posted_body(step: WorkerStep) -> String {
    match step {
        WorkerStep::Post(request) => request.body,
        other => panic!("no request: {:?}", other),
    }
}

#[test]
fn new_queue_is_open_and_empty_with_one_handle() {
    let queue = RelayQueue::new();
    assert_eq!(queue.len(), 0);
    assert_eq!(queue.handles(), 1);
    assert!(!queue.is_closed());
    assert!(queue.is_idle());
}

#[test]
fn queue_issues_calls_in_the_order_they_were_queued() {
    let mut queue = RelayQueue::new();
    assert_eq!(queue.step(RelayEvent::Enqueue(call(1))), RelayAction::Queued);
    assert_eq!(queue.step(RelayEvent::Enqueue(call(2))), RelayAction::Queued);
    assert_eq!(queue.len(), 2);
    assert!(!queue.is_idle());
    assert_eq!(queue.step(RelayEvent::Poll), RelayAction::Issue(call(1)));
    assert_eq!(queue.step(RelayEvent::Enqueue(call(3))), RelayAction::Queued);
    assert_eq!(queue.step(RelayEvent::Poll), RelayAction::Issue(call(2)));
    assert_eq!(queue.step(RelayEvent::Poll), RelayAction::Issue(call(3)));
    assert_eq!(queue.step(RelayEvent::Poll), RelayAction::Wait);
    assert_eq!(queue.len(), 0);
}

#[test]
fn every_queued_call_is_issued_exactly_once() {
    let mut queue = RelayQueue::new();
    for n in 0..50 {
        assert_eq!(queue.step(RelayEvent::Enqueue(call(n))), RelayAction::Queued);
    }
    assert_eq!(queue.step(RelayEvent::HandleDropped), RelayAction::Counted);
    for n in 0..50 {
        assert_eq!(queue.step(RelayEvent::Poll), RelayAction::Issue(call(n)));
    }
    assert_eq!(queue.step(RelayEvent::Poll), RelayAction::Stop);
}

#[test]
fn empty_queue_waits_while_a_producer_is_left() {
    let mut queue = RelayQueue::new();
    assert_eq!(queue.step(RelayEvent::HandleCloned), RelayAction::Counted);
    assert_eq!(queue.handles(), 2);
    assert_eq!(queue.step(RelayEvent::HandleDropped), RelayAction::Counted);
    assert_eq!(queue.step(RelayEvent::Poll), RelayAction::Wait);
    assert!(!queue.is_closed());
}

#[test]
fn empty_queue_stops_once_all_producers_are_gone() {
    let mut queue = RelayQueue::new();
    assert_eq!(queue.step(RelayEvent::HandleDropped), RelayAction::Counted);
    assert_eq!(queue.handles(), 0);
    assert_eq!(queue.step(RelayEvent::HandleDropped), RelayAction::Counted);
    assert_eq!(queue.handles(), 0);
    assert!(!queue.is_idle());
    assert_eq!(queue.step(RelayEvent::Poll), RelayAction::Stop);
    assert!(queue.is_closed());
    assert_eq!(queue.step(RelayEvent::Enqueue(call(1))), RelayAction::Rejected);
    assert_eq!(queue.len(), 0);
}

#[test]
fn closed_queue_rejects_calls_and_drains_what_was_pending() {
    let mut queue = RelayQueue::new();
    assert_eq!(queue.step(RelayEvent::Enqueue(call(1))), RelayAction::Queued);
    assert_eq!(queue.step(RelayEvent::WorkerGone), RelayAction::Closed);
    assert!(queue.is_closed());
    assert_eq!(queue.step(RelayEvent::Enqueue(call(2))), RelayAction::Rejected);
    assert_eq!(queue.len(), 1);
    assert_eq!(queue.step(RelayEvent::Poll), RelayAction::Issue(call(1)));
    assert_eq!(queue.step(RelayEvent::Poll), RelayAction::Stop);
}

#[test]
fn departures_move_the_queue_like_their_events() {
    let mut queue = RelayQueue::new();
    queue.release_handle();
    assert_eq!(queue.handles(), 0);
    queue.release_handle();
    assert_eq!(queue.handles(), 0);
    assert!(!queue.is_closed());
    queue.close();
    assert!(queue.is_closed());
}

#[test]
fn send_result_tells_queued_from_closed() {
    assert_eq!(RelayAction::Queued.into_send_result(), Ok(()));
    assert_eq!(RelayAction::Rejected.into_send_result(), Err(QueueClosed));
}

#[test]
fn worker_step_of_a_poll_answer() {
    assert_eq!(WorkerStep::of_action(RelayAction::Wait, "tok"), WorkerStep::Idle);
    assert_eq!(WorkerStep::of_action(RelayAction::Stop, "tok"), WorkerStep::Stop);
    match WorkerStep::of_action(RelayAction::Issue(call(1)), "tok") {
        WorkerStep::Post(request) => {
            assert_eq!(request.url, "https://slack.com/api/chat.postMessage");
            assert_eq!(request.content_type, "application/json");
            assert_eq!(request.authorization, "Bearer tok");
            assert_eq!(request.body, "{\"n\":1}");
        }
        other => panic!("no request: {:?}", other),
    }
}

#[test]
fn call_for_a_token_that_is_no_header_text_is_unsendable() {
    assert_eq!(
        WorkerStep::of_action(RelayAction::Issue(call(1)), "a\nb"),
        WorkerStep::Unsendable(call(1))
    );
    let (sender, worker) = AsyncSlackApiSender::new("a\nb".to_string());
    assert_eq!(sender.send(call(1)), Ok(()));
    assert_eq!(sender.send(call(2)), Ok(()));
    assert_eq!(worker.next_step(), WorkerStep::Unsendable(call(1)));
    assert_eq!(worker.next_step(), WorkerStep::Unsendable(call(2)));
    assert_eq!(worker.next_step(), WorkerStep::Idle);
}

#[test]
fn handle_and_worker_share_one_relay() {
    let (sender, worker) = AsyncSlackApiSender::new("xoxb-1".to_string());
    assert_eq!(sender.tok, "xoxb-1");
    assert_eq!(worker.next_step(), WorkerStep::Idle);
    assert_eq!(sender.send(call(1)), Ok(()));
    assert_eq!(sender.send(call(2)), Ok(()));
    assert_eq!(posted_body(worker.next_step()), "{\"n\":1}");
    assert_eq!(posted_body(worker.next_step()), "{\"n\":2}");
    assert_eq!(worker.next_step(), WorkerStep::Idle);
}

#[test]
fn send_returns_before_anything_is_posted() {
    let (sender, worker) = AsyncSlackApiSender::new("xoxb-1".to_string());
    for n in 0..1000 {
        assert_eq!(sender.send(call(n)), Ok(()));
    }
    assert_eq!(posted_body(worker.next_step()), "{\"n\":0}");
}

#[test]
fn clones_feed_the_same_relay() {
    let (first, worker) = AsyncSlackApiSender::new("xoxb-1".to_string());
    let second = first.clone();
    assert_eq!(second.tok, "xoxb-1");
    assert_eq!(first.send(call(1)), Ok(()));
    assert_eq!(second.send(call(2)), Ok(()));
    assert_eq!(first.send(call(3)), Ok(()));
    assert_eq!(posted_body(worker.next_step()), "{\"n\":1}");
    assert_eq!(posted_body(worker.next_step()), "{\"n\":2}");
    assert_eq!(posted_body(worker.next_step()), "{\"n\":3}");
}

#[test]
fn worker_stops_when_every_handle_is_dropped() {
    let (first, worker) = AsyncSlackApiSender::new("xoxb-1".to_string());
    let second = first.clone();
    assert_eq!(first.send(call(1)), Ok(()));
    drop(first);
    assert_eq!(posted_body(worker.next_step()), "{\"n\":1}");
    assert_eq!(worker.next_step(), WorkerStep::Idle);
    assert_eq!(second.send(call(2)), Ok(()));
    drop(second);
    assert_eq!(posted_body(worker.next_step()), "{\"n\":2}");
    assert_eq!(worker.next_step(), WorkerStep::Stop);
}

#[test]
fn waiting_returns_at_once_when_there_is_something_to_do() {
    let (sender, worker) = AsyncSlackApiSender::new("xoxb-1".to_string());
    assert_eq!(sender.send(call(1)), Ok(()));
    worker.wait_for_work();
    assert_eq!(posted_body(worker.next_step()), "{\"n\":1}");
    drop(sender);
    worker.wait_for_work();
    assert_eq!(worker.next_step(), WorkerStep::Stop);
    worker.wait_for_work();
}

#[test]
fn send_to_a_terminated_worker_reports_queue_closed() {
    let (sender, worker) = AsyncSlackApiSender::new("xoxb-1".to_string());
    assert_eq!(sender.send(call(1)), Ok(()));
    worker.close();
    assert_eq!(sender.send(call(2)), Err(QueueClosed));
}

#[test]
fn dropping_the_worker_closes_the_queue() {
    let (sender, worker) = AsyncSlackApiSender::new("xoxb-1".to_string());
    assert_eq!(sender.send(call(1)), Ok(()));
    drop(worker);
    assert_eq!(sender.send(call(2)), Err(QueueClosed));
    assert_eq!(sender.clone().send(call(3)), Err(QueueClosed));
}

#[test]
fn interleaved_producers_keep_their_own_order() {
    let (sender, worker) = AsyncSlackApiSender::new("xoxb-1".to_string());
    let other = sender.clone();
    let mut low = Vec::new();
    let mut high = Vec::new();
    let mut sort = |step: WorkerStep| -> bool {
        match step {
            WorkerStep::Post(request) => {
                let n: u32 = request.body[5..request.body.len() - 1].parse().unwrap();
                if n < 1000 {
                    low.push(n);
                } else {
                    high.push(n);
                }
                true
            }
            WorkerStep::Unsendable(call) => panic!("unsendable: {:?}", call),
            WorkerStep::Idle => true,
            WorkerStep::Stop => false,
        }
    };
    for n in 0..200 {
        assert_eq!(other.send(call(n)), Ok(()));
        if n % 3 == 0 {
            assert_eq!(sender.send(call(1000 + n)), Ok(()));
            assert_eq!(sender.send(call(1001 + n)), Ok(()));
            assert_eq!(sender.send(call(1002 + n)), Ok(()));
        }
        if n % 5 == 0 {
            assert!(sort(worker.next_step()));
        }
    }
    drop(sender);
    drop(other);
    while sort(worker.next_step()) {}
    assert_eq!(low, (0..200).collect::<Vec<u32>>());
    let mut expected = Vec::new();
    for n in (0..200).step_by(3) {
        expected.extend([1000 + n, 1001 + n, 1002 + n]);
    }
    assert_eq!(high, expected);
}

#[test]
fn envelope_decodes() {
    assert_eq!(GenericResult::decode("{\"ok\":true}"), Some(GenericResult { ok: true, error: None }));
    assert_eq!(
        GenericResult::decode("{\"ok\":false,\"error\":\"channel_not_found\"}"),
        Some(GenericResult { ok: false, error: Some("channel_not_found".to_string()) })
    );
    assert_eq!(
        GenericResult::decode("{\"ok\":true,\"error\":null,\"ts\":\"1.2\"}"),
        Some(GenericResult { ok: true, error: None })
    );
    assert_eq!(GenericResult::decode("{\"error\":\"x\"}"), None);
    assert_eq!(GenericResult::decode("{\"ok\":1}"), None);
    assert_eq!(GenericResult::decode("{\"ok\":false,\"error\":[]}"), None);
    assert_eq!(GenericResult::decode("oops"), None);
}

#[test]
fn accepted_call() {
    assert_eq!(CallOutcome::of_response(Ok("{\"ok\":true}".to_string())), CallOutcome::Accepted);
}

#[test]
fn application_failure_carries_the_platform_error() {
    assert_eq!(
        CallOutcome::of_response(Ok("{\"ok\":false,\"error\":\"channel_not_found\"}".to_string())),
        CallOutcome::ApplicationFailure(Some("channel_not_found".to_string()))
    );
    assert_eq!(
        CallOutcome::of_response(Ok("{\"ok\":false}".to_string())),
        CallOutcome::ApplicationFailure(None)
    );
}

#[test]
fn malformed_envelope_is_a_decode_failure() {
    assert_eq!(CallOutcome::of_response(Ok("<html>".to_string())), CallOutcome::DecodeFailure);
    assert_eq!(CallOutcome::of_response(Ok("{}".to_string())), CallOutcome::DecodeFailure);
    assert_eq!(CallOutcome::of_envelope(None), CallOutcome::DecodeFailure);
}

#[test]
fn missing_response_is_a_transport_failure() {
    assert_eq!(
        CallOutcome::of_response(Err("connection reset".to_string())),
        CallOutcome::TransportFailure("connection reset".to_string())
    );
}

#[test]
fn worker_goes_on_after_a_failed_call() {
    let (sender, worker) = AsyncSlackApiSender::new("xoxb-1".to_string());
    assert_eq!(sender.send(call(1)), Ok(()));
    assert_eq!(sender.send(call(2)), Ok(()));
    assert_eq!(sender.send(call(3)), Ok(()));
    assert_eq!(posted_body(worker.next_step()), "{\"n\":1}");
    assert_eq!(
        CallOutcome::of_response(Ok("{\"ok\":false,\"error\":\"channel_not_found\"}".to_string())),
        CallOutcome::ApplicationFailure(Some("channel_not_found".to_string()))
    );
    assert_eq!(posted_body(worker.next_step()), "{\"n\":2}");
    assert_eq!(
        CallOutcome::of_response(Err("timed out".to_string())),
        CallOutcome::TransportFailure("timed out".to_string())
    );
    assert_eq!(posted_body(worker.next_step()), "{\"n\":3}");
    assert_eq!(sender.send(call(4)), Ok(()));
    assert_eq!(posted_body(worker.next_step()), "{\"n\":4}");
}
