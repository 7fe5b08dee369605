use jack2::{ActivateFlags, Activation, ActivationAction, ActivationStep, Error};

/// Runs an activation, failing the step at position `fail_at` of the plan if given.
fn run(
    has_process: bool,
    has_notify: bool,
    flags: ActivateFlags,
    fail_at: Option<usize>,
) -> (Vec<ActivationStep>, ActivationAction) {
    let mut a = Activation::new(has_process, has_notify, flags);
    let mut performed = Vec::new();
    let mut planned = 0usize;
    loop {
        match a.next_action() {
            ActivationAction::Perform(step) => {
                performed.push(step);
                let in_plan = !matches!(step, ActivationStep::ReleaseTimebase | ActivationStep::Deactivate);
                if in_plan {
                    let ok = fail_at != Some(planned);
                    planned += 1;
                    a.report(ok);
                }
            }
            done => return (performed, done),
        }
    }
}

#[test]
fn full_activation_with_both_handlers() {
    let flags = ActivateFlags::latency().union(ActivateFlags::sync()).union(ActivateFlags::timebase());
    let (steps, done) = run(true, true, flags, None);
    assert_eq!(done, ActivationAction::Activated);
    assert_eq!(
        steps,
        vec![
            ActivationStep::SetProcessCallbacks,
            ActivationStep::SetNotificationCallbacks,
            ActivationStep::SetLatencyCallback,
            ActivationStep::SetSyncCallback,
            ActivationStep::SetTimebaseCallback { conditional: false },
            ActivationStep::Activate,
        ]
    );
}

#[test]
fn activation_without_handlers_unsets_callbacks() {
    let (steps, done) = run(false, false, ActivateFlags::all(), None);
    assert_eq!(done, ActivationAction::Activated);
    assert_eq!(
        steps,
        vec![
            ActivationStep::UnsetProcessCallbacks,
            ActivationStep::UnsetNotificationCallbacks,
            ActivationStep::Activate,
        ]
    );
}

#[test]
fn activation_with_default_flags() {
    let (steps, _) = run(true, true, ActivateFlags::empty(), None);
    assert_eq!(
        steps,
        vec![
            ActivationStep::SetProcessCallbacks,
            ActivationStep::SetNotificationCallbacks,
            ActivationStep::UnsetLatencyCallback,
            ActivationStep::UnsetSyncCallback,
            ActivationStep::Activate,
        ]
    );
}

#[test]
fn forced_timebase_is_a_conditional_request() {
    let (steps, _) = run(true, false, ActivateFlags::timebase_force(), None);
    assert!(steps.contains(&ActivationStep::SetTimebaseCallback { conditional: true }));
}

#[test]
fn failure_stops_and_rolls_back() {
    let flags = ActivateFlags::timebase();
    let (steps, done) = run(true, true, flags, Some(1));
    assert_eq!(done, ActivationAction::Failed);
    assert_eq!(
        steps,
        vec![
            ActivationStep::SetProcessCallbacks,
            ActivationStep::SetNotificationCallbacks,
            ActivationStep::ReleaseTimebase,
            ActivationStep::Deactivate,
        ]
    );
}

#[test]
fn failed_activate_call_is_undone() {
    let (steps, done) = run(false, false, ActivateFlags::empty(), Some(2));
    assert_eq!(done, ActivationAction::Failed);
    assert_eq!(
        steps,
        vec![
            ActivationStep::UnsetProcessCallbacks,
            ActivationStep::UnsetNotificationCallbacks,
            ActivationStep::Activate,
            ActivationStep::Deactivate,
        ]
    );
}

#[test]
fn sync_and_timebase_need_a_process_handler() {
    assert_eq!(ActivationStep::register_sync(true).unwrap(), ActivationStep::SetSyncCallback);
    assert!(matches!(ActivationStep::register_sync(false), Err(Error::Failure(_))));
    assert_eq!(
        ActivationStep::acquire_timebase(true, true).unwrap(),
        ActivationStep::SetTimebaseCallback { conditional: false }
    );
    assert_eq!(
        ActivationStep::acquire_timebase(true, false).unwrap(),
        ActivationStep::SetTimebaseCallback { conditional: true }
    );
    match ActivationStep::acquire_timebase(false, true) {
        Err(Error::Failure(f)) => assert_eq!(f.bits(), 0x03),
        other => panic!("unexpected {:?}", other),
    }
}
