use std::cell::RefCell;
use taple_sdk::error::NotificationError;
use taple_sdk::notification::{
    drain_step, received, DrainAction, DrainMode, NotificationHandlerInterface, TapleNotification,
};

struct Recorder {
    seen: RefCell<Vec<TapleNotification>>,
}

impl NotificationHandlerInterface for Recorder {
    fn process_notification(&self, notification: TapleNotification) {
        self.seen.borrow_mut().push(notification);
    }
}

fn emitted() -> Vec<TapleNotification> {
    vec![
        TapleNotification::NewSubject { subject_id: "A".to_string() },
        TapleNotification::NewEvent { sn: 1, subject_id: "A".to_string() },
        TapleNotification::StateUpdated { sn: 1, subject_id: "A".to_string() },
    ]
}

fn drain(mode: DrainMode, stream: Vec<Option<TapleNotification>>, handler: &Recorder) -> usize {
    let mut taken = 0;
    for next in stream {
        taken += 1;
        match drain_step(mode, next) {
            DrainAction::Deliver(n) => handler.process_notification(n),
            DrainAction::Drop => {}
            DrainAction::Finish => break,
        }
    }
    taken
}

#[test]
fn handler_sees_events_in_emission_order() {
    let rec = Recorder { seen: RefCell::new(Vec::new()) };
    let mut stream: Vec<Option<TapleNotification>> = emitted().into_iter().map(Some).collect();
    stream.push(None);
    stream.push(Some(TapleNotification::UnrecoverableError { error: "late".to_string() }));
    let taken = drain(DrainMode::Handle, stream, &rec);
    assert_eq!(taken, 4);
    assert_eq!(*rec.seen.borrow(), emitted());
}

#[test]
fn discarding_drain_calls_no_handler() {
    let rec = Recorder { seen: RefCell::new(Vec::new()) };
    let mut stream: Vec<Option<TapleNotification>> = emitted().into_iter().map(Some).collect();
    stream.push(None);
    assert_eq!(drain(DrainMode::Discard, stream, &rec), 4);
    assert!(rec.seen.borrow().is_empty());
}

#[test]
fn drain_step_decisions() {
    let n = TapleNotification::ApprovalReceived {
        id: "i".to_string(),
        subject_id: "s".to_string(),
        sn: 3,
    };
    assert_eq!(drain_step(DrainMode::Handle, Some(n.clone())), DrainAction::Deliver(n.clone()));
    assert_eq!(drain_step(DrainMode::Discard, Some(n)), DrainAction::Drop);
    assert_eq!(drain_step(DrainMode::Handle, None), DrainAction::Finish);
}

#[test]
fn blocking_receive_result() {
    let n = TapleNotification::ObsoletedApproval {
        id: "i".to_string(),
        subject_id: "s".to_string(),
        sn: 2,
    };
    assert_eq!(received(Some(n.clone())), Ok(n));
    assert_eq!(received(None), Err(NotificationError::NoConnection));
}
