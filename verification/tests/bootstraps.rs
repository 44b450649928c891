use object_storage::bootstrap::{advance, Event, Outcome, Phase};
use object_storage::error::StorageError;

fn run(events: Vec<Event>) -> (Outcome, usize) {
    let mut phase = Phase::Probing;
    let mut creations = 0;
    for event in events {
        match advance(phase, event) {
            Outcome::Pending(then) => {
                if then == Phase::Creating {
                    creations += 1;
                }
                phase = then;
            }
            done => return (done, creations),
        }
    }
    (Outcome::Pending(phase), creations)
}

#[test]
fn existing_prefix_needs_no_creation() {
    assert_eq!(run(vec![Event::Done]), (Outcome::Ready, 0));
}

#[test]
fn absent_prefix_is_created_once() {
    let events = vec![Event::NotFound("no such key".to_string()), Event::Done];
    assert_eq!(run(events), (Outcome::Ready, 1));
}

#[test]
fn absent_prefix_leaves_the_creation_pending() {
    assert_eq!(
        advance(Phase::Probing, Event::NotFound("no such key".to_string())),
        Outcome::Pending(Phase::Creating)
    );
}

#[test]
fn failed_probe_is_fatal() {
    assert_eq!(
        advance(Phase::Probing, Event::Failed("permission denied".to_string())),
        Outcome::Failed(StorageError::Bootstrap("permission denied".to_string()))
    );
    assert_eq!(
        run(vec![Event::Failed("timed out".to_string()), Event::Done]),
        (Outcome::Failed(StorageError::Bootstrap("timed out".to_string())), 0)
    );
}

#[test]
fn failed_creation_is_fatal() {
    assert_eq!(
        advance(Phase::Creating, Event::Failed("permission denied".to_string())),
        Outcome::Failed(StorageError::Bootstrap("permission denied".to_string()))
    );
    assert_eq!(
        advance(Phase::Creating, Event::NotFound("no such bucket".to_string())),
        Outcome::Failed(StorageError::Bootstrap("no such bucket".to_string()))
    );
    let events = vec![
        Event::NotFound("no such key".to_string()),
        Event::Failed("throttled".to_string()),
    ];
    assert_eq!(run(events), (Outcome::Failed(StorageError::Bootstrap("throttled".to_string())), 1));
}

#[test]
fn successful_creation_makes_ready() {
    assert_eq!(advance(Phase::Creating, Event::Done), Outcome::Ready);
}

#[test]
fn failure_is_classed_by_its_kind() {
    assert_eq!(
        Event::of_failure(true, "no such key".to_string()),
        Event::NotFound("no such key".to_string())
    );
    assert_eq!(
        Event::of_failure(false, "permission denied".to_string()),
        Event::Failed("permission denied".to_string())
    );
}

#[test]
fn success_of_a_call_is_done() {
    assert_eq!(Event::of_result(Ok(())), Event::Done);
}

#[test]
fn not_found_of_the_client_is_told_apart() {
    let absent = opendal::Error::new(opendal::ErrorKind::NotFound, "no such key");
    let message = absent.to_string();
    assert_eq!(Event::of_result(Err(absent)), Event::NotFound(message));

    let denied = opendal::Error::new(opendal::ErrorKind::PermissionDenied, "permission denied");
    let message = denied.to_string();
    assert!(message.contains("permission denied"));
    assert_eq!(Event::of_result(Err(denied)), Event::Failed(message));
}
