use button_fetch::config::{SocketPools, FETCH_BUFFER_SIZE, LINK_POLL_MILLIS};
use button_fetch::fetch::{FetchAction, FetchEvent, FetchState, FetchWorker, LinkWait};
use button_fetch::signal::IntentSignal;

/// A worker with the signal it consumes; `step` hands the worker the signal.
struct Rig {
    worker: FetchWorker,
    signal: IntentSignal,
}

impl Rig {
    fn step(&mut self, event: FetchEvent) -> FetchAction {
        self.worker.step(event, &mut self.signal)
    }

    fn state(&self) -> FetchState {
        self.worker.state()
    }

    fn capacity(&self) -> usize {
        self.worker.capacity()
    }

    fn body(&self) -> &[u8] {
        self.worker.body()
    }

    fn report(&self) -> Option<String> {
        self.worker.report()
    }
}

fn rig(pools: SocketPools, capacity: usize, poll_millis: u64) -> Rig {
    Rig { worker: FetchWorker::new(pools, capacity, poll_millis), signal: IntentSignal::new() }
}

fn worker(capacity: usize) -> Rig {
    rig(SocketPools::standard(), capacity, LINK_POLL_MILLIS)
}

/// Takes a fresh worker to the point where it has found the signal raised.
fn signalled(mut w: Rig) -> Rig {
    assert_eq!(w.step(FetchEvent::Resumed), FetchAction::Park);
    assert!(w.signal.signal(true));
    assert_eq!(w.step(FetchEvent::Resumed), FetchAction::CheckLink);
    w
}

/// Takes a fresh worker to the point where it sets up the request.
fn building(capacity: usize) -> Rig {
    let mut w = signalled(worker(capacity));
    assert_eq!(
        w.step(FetchEvent::LinkStatus { up: true }),
        FetchAction::OpenRequest { connections: 3 }
    );
    w
}

/// Takes a fresh worker to the point where it reads the body.
fn reading(capacity: usize) -> Rig {
    let mut w = building(capacity);
    assert_eq!(w.step(FetchEvent::RequestReady), FetchAction::SendRequest);
    assert_eq!(w.step(FetchEvent::ResponseStarted), FetchAction::ReadBody);
    w
}

#[test]
fn a_new_worker_is_idle_with_an_empty_buffer() {
    let w = worker(16);
    assert_eq!(w.state(), FetchState::Idle);
    assert_eq!(w.capacity(), 16);
    assert!(w.body().is_empty());
    assert_eq!(w.report(), None);
}

#[test]
fn a_worker_parks_on_an_empty_signal() {
    let mut w = worker(16);
    assert_eq!(w.step(FetchEvent::Resumed), FetchAction::Park);
    assert_eq!(w.state(), FetchState::AwaitingSignal);
    // Woken for nothing, it parks again.
    assert_eq!(w.step(FetchEvent::Resumed), FetchAction::Park);
    assert_eq!(w.state(), FetchState::AwaitingSignal);
    // It is known to be parked: the producer is told to wake it.
    assert!(w.signal.signal(true));
}

#[test]
fn a_worker_does_not_park_on_a_raised_signal() {
    let mut w = worker(16);
    w.signal.signal(true);
    assert_eq!(w.step(FetchEvent::Resumed), FetchAction::Proceed);
    assert_eq!(w.state(), FetchState::AwaitingSignal);
    assert_eq!(w.step(FetchEvent::Resumed), FetchAction::CheckLink);
    assert_eq!(w.state(), FetchState::AwaitingLink(LinkWait::Checking));
}

#[test]
fn the_first_round_does_not_clear_a_signal_raised_before_it() {
    let mut w = worker(16);
    w.signal.signal(true);
    w.step(FetchEvent::Resumed);
    assert!(w.signal.is_signalled());
}

#[test]
fn a_fetch_runs_through_every_state() {
    let mut w = worker(64);
    assert_eq!(w.step(FetchEvent::Resumed), FetchAction::Park);
    assert_eq!(w.state(), FetchState::AwaitingSignal);
    w.signal.signal(true);
    assert_eq!(w.step(FetchEvent::Resumed), FetchAction::CheckLink);
    assert_eq!(w.state(), FetchState::AwaitingLink(LinkWait::Checking));
    assert_eq!(
        w.step(FetchEvent::LinkStatus { up: true }),
        FetchAction::OpenRequest { connections: 3 }
    );
    assert_eq!(w.state(), FetchState::RequestBuilding);
    assert_eq!(w.step(FetchEvent::RequestReady), FetchAction::SendRequest);
    assert_eq!(w.state(), FetchState::RequestSent);
    assert_eq!(w.step(FetchEvent::ResponseStarted), FetchAction::ReadBody);
    assert_eq!(w.state(), FetchState::ReadingBody);
    assert_eq!(
        w.step(FetchEvent::BodyChunk(b"<html>".to_vec())),
        FetchAction::ReadBody
    );
    assert_eq!(
        w.step(FetchEvent::BodyChunk(b"</html>".to_vec())),
        FetchAction::ReadBody
    );
    assert_eq!(w.step(FetchEvent::BodyEnd), FetchAction::Emit);
    assert_eq!(w.state(), FetchState::Reporting);
    assert_eq!(w.report(), Some("<html></html>".to_string()));
    assert_eq!(w.body(), b"<html></html>");
    // The signal keeps its value until the round is over.
    assert!(w.signal.is_signalled());
    assert_eq!(w.step(FetchEvent::Resumed), FetchAction::Proceed);
    assert_eq!(w.state(), FetchState::Idle);
    assert!(!w.signal.is_signalled());
    assert_eq!(w.step(FetchEvent::Resumed), FetchAction::Park);
    assert_eq!(w.state(), FetchState::AwaitingSignal);
}

#[test]
fn the_worker_pauses_between_looks_at_a_link_that_is_down() {
    let mut w = signalled(worker(64));
    for _ in 0..5 {
        assert_eq!(
            w.step(FetchEvent::LinkStatus { up: false }),
            FetchAction::Pause { millis: 500 }
        );
        assert_eq!(w.state(), FetchState::AwaitingLink(LinkWait::Pausing));
        assert_eq!(w.step(FetchEvent::PauseElapsed), FetchAction::CheckLink);
        assert_eq!(w.state(), FetchState::AwaitingLink(LinkWait::Checking));
    }
    assert_eq!(
        w.step(FetchEvent::LinkStatus { up: true }),
        FetchAction::OpenRequest { connections: 3 }
    );
}

#[test]
fn the_pause_lasts_as_long_as_the_worker_was_told() {
    let mut w = signalled(rig(SocketPools::standard(), 8, 77));
    assert_eq!(
        w.step(FetchEvent::LinkStatus { up: false }),
        FetchAction::Pause { millis: 77 }
    );
}

#[test]
fn the_request_uses_the_client_pool() {
    let mut w = signalled(rig(SocketPools::new(5, 2).unwrap(), 8, 500));
    assert_eq!(
        w.step(FetchEvent::LinkStatus { up: true }),
        FetchAction::OpenRequest { connections: 2 }
    );
}

#[test]
fn a_signal_of_either_value_starts_a_fetch() {
    let mut w = worker(8);
    assert_eq!(w.step(FetchEvent::Resumed), FetchAction::Park);
    w.signal.signal(false);
    assert_eq!(w.step(FetchEvent::Resumed), FetchAction::CheckLink);
}

#[test]
fn a_body_that_fills_the_buffer_exactly_is_emitted_whole() {
    let mut w = reading(8);
    assert_eq!(
        w.step(FetchEvent::BodyChunk(b"12345678".to_vec())),
        FetchAction::ReadBody
    );
    assert_eq!(w.body().len(), w.capacity());
    assert_eq!(w.step(FetchEvent::BodyEnd), FetchAction::Emit);
    assert_eq!(w.report(), Some("12345678".to_string()));
}

#[test]
fn a_body_of_the_standard_buffer_size_is_emitted_whole() {
    let body = vec![b'a'; FETCH_BUFFER_SIZE];
    let mut w = reading(FETCH_BUFFER_SIZE);
    assert_eq!(w.capacity(), 2560);
    assert_eq!(w.step(FetchEvent::BodyChunk(body.clone())), FetchAction::ReadBody);
    assert_eq!(w.step(FetchEvent::BodyEnd), FetchAction::Emit);
    assert_eq!(w.report(), Some(String::from_utf8(body).unwrap()));
}

#[test]
fn a_body_one_byte_over_the_standard_buffer_size_ends_the_fetch() {
    let body = vec![b'a'; FETCH_BUFFER_SIZE + 1];
    let mut w = reading(FETCH_BUFFER_SIZE);
    assert_eq!(w.step(FetchEvent::BodyChunk(body)), FetchAction::Proceed);
    assert_eq!(w.state(), FetchState::Idle);
    assert_eq!(w.report(), None);
}

#[test]
fn a_body_that_fills_the_buffer_in_pieces_is_emitted_whole() {
    let mut w = reading(8);
    assert_eq!(w.step(FetchEvent::BodyChunk(b"123".to_vec())), FetchAction::ReadBody);
    assert_eq!(w.step(FetchEvent::BodyChunk(Vec::new())), FetchAction::ReadBody);
    assert_eq!(w.step(FetchEvent::BodyChunk(b"45678".to_vec())), FetchAction::ReadBody);
    assert_eq!(w.step(FetchEvent::BodyEnd), FetchAction::Emit);
    assert_eq!(w.report(), Some("12345678".to_string()));
}

#[test]
fn a_body_larger_than_the_buffer_ends_the_fetch() {
    let mut w = reading(8);
    assert!(w.signal.is_signalled());
    assert_eq!(
        w.step(FetchEvent::BodyChunk(b"123456789".to_vec())),
        FetchAction::Proceed
    );
    assert_eq!(w.state(), FetchState::Idle);
    assert!(!w.signal.is_signalled());
    assert_eq!(w.report(), None);
    assert!(w.body().len() <= w.capacity());
}

#[test]
fn a_body_that_outgrows_the_buffer_in_pieces_ends_the_fetch() {
    let mut w = reading(8);
    assert_eq!(w.step(FetchEvent::BodyChunk(b"12345".to_vec())), FetchAction::ReadBody);
    assert_eq!(w.step(FetchEvent::BodyChunk(b"6789".to_vec())), FetchAction::Proceed);
    assert_eq!(w.state(), FetchState::Idle);
    assert_eq!(w.body(), b"12345");
    assert_eq!(w.report(), None);
}

#[test]
fn the_worker_fetches_again_after_an_oversized_body() {
    let mut w = reading(4);
    assert_eq!(w.step(FetchEvent::BodyChunk(b"too long".to_vec())), FetchAction::Proceed);
    assert_eq!(w.step(FetchEvent::Resumed), FetchAction::Park);
    assert!(w.signal.signal(true));
    assert_eq!(w.step(FetchEvent::Resumed), FetchAction::CheckLink);
    assert_eq!(
        w.step(FetchEvent::LinkStatus { up: true }),
        FetchAction::OpenRequest { connections: 3 }
    );
    assert_eq!(w.step(FetchEvent::RequestReady), FetchAction::SendRequest);
    assert_eq!(w.step(FetchEvent::ResponseStarted), FetchAction::ReadBody);
    assert!(w.body().is_empty());
    assert_eq!(w.step(FetchEvent::BodyChunk(b"ok".to_vec())), FetchAction::ReadBody);
    assert_eq!(w.step(FetchEvent::BodyEnd), FetchAction::Emit);
    assert_eq!(w.report(), Some("ok".to_string()));
}

#[test]
fn an_empty_body_is_emitted_as_empty_text() {
    let mut w = reading(8);
    assert_eq!(w.step(FetchEvent::BodyEnd), FetchAction::Emit);
    assert_eq!(w.report(), Some(String::new()));
}

#[test]
fn a_buffer_of_no_bytes_takes_only_an_empty_body() {
    let mut w = reading(0);
    assert_eq!(w.step(FetchEvent::BodyChunk(Vec::new())), FetchAction::ReadBody);
    assert_eq!(w.step(FetchEvent::BodyChunk(vec![b'x'])), FetchAction::Proceed);
    assert_eq!(w.state(), FetchState::Idle);
}

#[test]
fn text_of_several_bytes_per_character_is_decoded() {
    let text = "grüße, 世界 🌍";
    let mut w = reading(64);
    assert_eq!(
        w.step(FetchEvent::BodyChunk(text.as_bytes().to_vec())),
        FetchAction::ReadBody
    );
    assert_eq!(w.step(FetchEvent::BodyEnd), FetchAction::Emit);
    assert_eq!(w.report(), Some(text.to_string()));
    assert_eq!(w.body(), text.as_bytes());
}

#[test]
fn a_body_that_is_not_text_ends_the_fetch() {
    let mut w = reading(8);
    assert_eq!(
        w.step(FetchEvent::BodyChunk(vec![b'o', b'k', 0xff])),
        FetchAction::ReadBody
    );
    assert_eq!(w.step(FetchEvent::BodyEnd), FetchAction::Proceed);
    assert_eq!(w.state(), FetchState::Idle);
    assert!(!w.signal.is_signalled());
    assert_eq!(w.report(), None);
}

#[test]
fn a_character_cut_short_is_not_text() {
    // The first two bytes of a three-byte character.
    let mut w = reading(8);
    w.step(FetchEvent::BodyChunk(vec![0xe2, 0x82]));
    assert_eq!(w.step(FetchEvent::BodyEnd), FetchAction::Proceed);
    assert_eq!(w.state(), FetchState::Idle);
    assert_eq!(w.report(), None);
}

#[test]
fn an_overlong_encoding_is_not_text() {
    let mut w = reading(8);
    w.step(FetchEvent::BodyChunk(vec![0xc0, 0x80]));
    assert_eq!(w.step(FetchEvent::BodyEnd), FetchAction::Proceed);
    assert_eq!(w.state(), FetchState::Idle);
}

#[test]
fn a_failure_at_any_stage_ends_the_fetch_with_a_reset() {
    // While the request is set up.
    let mut w = building(8);
    assert_eq!(w.step(FetchEvent::Failed), FetchAction::Proceed);
    assert_eq!(w.state(), FetchState::Idle);
    assert!(!w.signal.is_signalled());
    // While the request is sent.
    let mut w = building(8);
    w.step(FetchEvent::RequestReady);
    assert_eq!(w.step(FetchEvent::Failed), FetchAction::Proceed);
    assert_eq!(w.state(), FetchState::Idle);
    assert!(!w.signal.is_signalled());
    // While the body is read.
    let mut w = reading(8);
    w.step(FetchEvent::BodyChunk(b"abc".to_vec()));
    assert_eq!(w.step(FetchEvent::Failed), FetchAction::Proceed);
    assert_eq!(w.state(), FetchState::Idle);
    assert!(!w.signal.is_signalled());
    assert_eq!(w.report(), None);
    // The worker is ready for the next press.
    assert_eq!(w.step(FetchEvent::Resumed), FetchAction::Park);
    assert_eq!(w.state(), FetchState::AwaitingSignal);
}

#[test]
fn an_outcome_that_answers_nothing_ends_the_fetch() {
    let mut w = building(8);
    assert_eq!(w.state(), FetchState::RequestBuilding);
    assert_eq!(w.step(FetchEvent::BodyEnd), FetchAction::Proceed);
    assert_eq!(w.state(), FetchState::Idle);
    let mut w = worker(8);
    w.step(FetchEvent::Resumed);
    assert_eq!(w.step(FetchEvent::BodyChunk(vec![1, 2, 3])), FetchAction::Proceed);
    assert_eq!(w.state(), FetchState::Idle);
    assert!(w.body().is_empty());
}

#[test]
fn the_text_is_there_only_while_reporting() {
    let mut w = reading(8);
    assert_eq!(w.report(), None);
    w.step(FetchEvent::BodyChunk(b"page".to_vec()));
    assert_eq!(w.report(), None);
    w.step(FetchEvent::BodyEnd);
    assert_eq!(w.report(), Some("page".to_string()));
    w.step(FetchEvent::Resumed);
    assert_eq!(w.report(), None);
}

#[test]
fn the_buffer_is_emptied_when_the_next_response_starts() {
    let mut w = reading(8);
    w.step(FetchEvent::BodyChunk(b"first".to_vec()));
    w.step(FetchEvent::BodyEnd);
    assert_eq!(w.step(FetchEvent::Resumed), FetchAction::Proceed);
    assert_eq!(w.step(FetchEvent::Resumed), FetchAction::Park);
    w.signal.signal(true);
    w.step(FetchEvent::Resumed);
    w.step(FetchEvent::LinkStatus { up: true });
    w.step(FetchEvent::RequestReady);
    assert_eq!(w.body(), b"first");
    w.step(FetchEvent::ResponseStarted);
    assert!(w.body().is_empty());
    w.step(FetchEvent::BodyChunk(b"second".to_vec()));
    w.step(FetchEvent::BodyEnd);
    assert_eq!(w.report(), Some("second".to_string()));
}
