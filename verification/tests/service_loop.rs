use enturion::service::ServiceLoop;

#[test]
fn abort_keeps_the_loop_running() {
    // The "abort" signal has its handler invoked and the loop keeps
    // accepting; a second, different signal ends the loop at once.
    let mut service = ServiceLoop::new();
    assert!(service.is_running());

    let invoke = service.on_signal(true);
    assert!(invoke);
    assert!(service.is_running());
    assert!(service.on_accept_ok());

    let invoke = service.on_signal(false);
    assert!(!invoke);
    assert!(!service.is_running());
    assert!(!service.on_accept_ok());
}

#[test]
fn accept_failure_does_not_stop_the_loop() {
    let mut service = ServiceLoop::new();
    service.on_accept_err();
    assert!(service.is_running());
    assert!(service.on_accept_ok());
}

#[test]
fn ticks_run_while_the_loop_runs() {
    let mut service = ServiceLoop::new();
    assert!(service.on_tick());
    service.on_tick_complete(false);
    assert!(service.is_running());

    // The world-simulation variant stops when the tick reports the world
    // stopped.
    service.on_tick_complete(true);
    assert!(!service.is_running());
    assert!(!service.on_tick());
}

#[test]
fn termination_is_one_way() {
    let mut service = ServiceLoop::new();
    assert!(!service.on_signal(false));
    assert!(!service.is_running());

    // No later event revives the loop.
    service.on_accept_err();
    service.on_tick_complete(false);
    assert!(!service.on_signal(true));
    assert!(!service.on_tick());
    assert!(!service.is_running());
}
