use gws::model::{Exposure, Star};
use gws::plan::{star_create, Action};
use gws::run::{ClusterError, Reconciliation};

fn plan() -> Vec<Action> {
    star_create(&Star {
        id: 1,
        name: "web".to_string(),
        nebula: "nginx".to_string(),
        exposure: Exposure::Public("foo".to_string()),
        port: 80,
        galaxy_id: 2,
    })
}

#[test]
fn run_applies_every_action_in_order() {
    let mut run = Reconciliation::new(plan());
    let mut seen = 0;
    while let Some(action) = run.next_action() {
        if seen == 0 {
            assert!(matches!(action, Action::Create(..)));
        }
        seen += 1;
        run.record(Ok(()));
    }
    assert_eq!(seen, 4);
    assert!(run.is_finished());
    assert_eq!(run.outcome(), Ok(()));
}

#[test]
fn run_stops_at_first_failure() {
    let mut run = Reconciliation::new(plan());
    run.next_action().unwrap();
    run.record(Ok(()));
    run.next_action().unwrap();
    run.record(Err(ClusterError::Api(409)));
    assert!(run.next_action().is_none());
    assert!(run.is_finished());
    assert_eq!(run.outcome(), Err(ClusterError::Api(409)));
}

#[test]
fn empty_run_is_finished_at_once() {
    let run = Reconciliation::new(Vec::new());
    assert!(run.next_action().is_none());
    assert_eq!(run.outcome(), Ok(()));
}
