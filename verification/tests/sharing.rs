use std::cell::RefCell;

use button_fetch::button::{ButtonAction, ButtonEvent, ButtonMonitor};
use button_fetch::config::{SocketPools, DEBOUNCE_MILLIS, LINK_POLL_MILLIS};
use button_fetch::fetch::{FetchAction, FetchEvent, FetchState, FetchWorker};
use button_fetch::signal::IntentSignal;

/// A lock of the kind two tasks on one core share a value through: the
/// value is reached only inside the closure handed to `lock`.
struct Shared<T> {
    value: T,
}

impl<T> Shared<T> {
    fn lock<U>(&self, f: impl FnOnce(&T) -> U) -> U {
        f(&self.value)
    }
}

#[test]
fn two_tasks_share_the_signal_through_a_lock() {
    let intent = Shared { value: RefCell::new(IntentSignal::new()) };
    let mut monitor = ButtonMonitor::new(DEBOUNCE_MILLIS);
    let mut worker = FetchWorker::new(SocketPools::standard(), 32, LINK_POLL_MILLIS);

    // The worker runs first and parks.
    let mut event = FetchEvent::Resumed;
    let action = intent.lock(|cell| worker.step(event, &mut cell.borrow_mut()));
    assert_eq!(action, FetchAction::Park);

    // The button is pressed and held.
    let mut wakes = 0;
    for outcome in [
        ButtonEvent::FallingEdge,
        ButtonEvent::WindowElapsed { pin_low: true },
        ButtonEvent::Resumed,
    ] {
        let action = intent.lock(|cell| monitor.step(outcome, &mut cell.borrow_mut()));
        if action == ButtonAction::Wake {
            wakes += 1;
        }
    }
    assert_eq!(wakes, 1);

    // The worker is woken and goes through its round.
    let mut tell =
        |event: FetchEvent| intent.lock(|cell| worker.step(event, &mut cell.borrow_mut()));
    assert_eq!(tell(FetchEvent::Resumed), FetchAction::CheckLink);
    assert_eq!(
        tell(FetchEvent::LinkStatus { up: true }),
        FetchAction::OpenRequest { connections: 3 }
    );
    assert_eq!(tell(FetchEvent::RequestReady), FetchAction::SendRequest);
    assert_eq!(tell(FetchEvent::ResponseStarted), FetchAction::ReadBody);
    let body: &mut [u8] = &mut [b'h', b'i'];
    assert_eq!(tell(FetchEvent::BodyChunk(Vec::from(&*body))), FetchAction::ReadBody);
    assert_eq!(tell(FetchEvent::BodyEnd), FetchAction::Emit);
    assert_eq!(worker.report(), Some("hi".to_string()));

    event = FetchEvent::Resumed;
    let action = intent.lock(|cell| worker.step(event, &mut cell.borrow_mut()));
    assert_eq!(action, FetchAction::Proceed);
    assert_eq!(worker.state(), FetchState::Idle);
    assert!(!intent.lock(|cell| cell.borrow().is_signalled()));
    event = FetchEvent::Resumed;
    let action = intent.lock(|cell| worker.step(event, &mut cell.borrow_mut()));
    assert_eq!(action, FetchAction::Park);
}
