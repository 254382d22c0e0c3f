use exogress_instance::instance::{Instance, InstanceError};
use exogress_instance::outcome::{completion_outcome, RunEnd};

#[test]
fn new_instance_has_not_been_spawned() {
    let instance = Instance::new(42u32);
    assert!(!instance.has_been_spawned());
}

#[test]
fn reload_before_spawn_is_a_no_op_success() {
    let instance = Instance::new(0u32);
    assert!(instance.reload().is_ok());
    assert!(instance.reload().is_ok());
    assert!(!instance.has_been_spawned());
}

#[test]
fn stop_before_spawn_is_a_no_op_success() {
    let mut instance = Instance::new(0u32);
    assert!(instance.stop().is_ok());
    assert!(instance.stop().is_ok());
}

#[test]
fn spawn_hands_out_the_client_and_sets_the_flag() {
    let mut instance = Instance::new(7u32);
    let handles = instance.spawn().unwrap();
    assert_eq!(handles.client, 7u32);
    assert!(instance.has_been_spawned());
}

#[test]
fn second_spawn_always_fails_already_spawned() {
    let mut instance = Instance::new(0u32);
    let _handles = instance.spawn().unwrap();
    assert_eq!(instance.spawn().unwrap_err(), InstanceError::AlreadySpawned);
    // and it keeps failing
    assert_eq!(instance.spawn().unwrap_err(), InstanceError::AlreadySpawned);
}

#[test]
fn first_stop_after_spawn_delivers_second_fails_already_stopped() {
    let mut instance = Instance::new(0u32);
    let handles = instance.spawn().unwrap();
    assert!(instance.stop().is_ok());
    // the stop notification actually arrived at the receiver
    let received = futures::executor::block_on(handles.stop_rx);
    assert!(received.is_ok());
    assert_eq!(instance.stop().unwrap_err(), InstanceError::AlreadyStopped);
}

#[test]
fn stop_after_background_run_exited_reports_delivery_failure() {
    let mut instance = Instance::new(0u32);
    let handles = instance.spawn().unwrap();
    // the background run ends on its own: its side of the channels is dropped
    drop(handles);
    assert_eq!(instance.stop().unwrap_err(), InstanceError::StopNotDelivered);
    // the failed delivery still consumed the single-use sender
    assert_eq!(instance.stop().unwrap_err(), InstanceError::AlreadyStopped);
}

#[test]
fn reload_after_background_run_exited_reports_delivery_failure() {
    let mut instance = Instance::new(0u32);
    let handles = instance.spawn().unwrap();
    drop(handles);
    assert_eq!(instance.reload().unwrap_err(), InstanceError::ReloadNotDelivered);
}

#[test]
fn reload_signals_after_spawn_arrive_in_order_without_drops() {
    let mut instance = Instance::new(0u32);
    let mut handles = instance.spawn().unwrap();
    assert!(instance.reload().is_ok());
    assert!(instance.reload().is_ok());
    assert!(instance.reload().is_ok());
    let mut received = 0;
    while let Ok(Some(())) = handles.reload_rx.try_next() {
        received += 1;
    }
    assert_eq!(received, 3);
}

#[test]
fn reload_before_spawn_sends_nothing() {
    let mut instance = Instance::new(0u32);
    assert!(instance.reload().is_ok());
    let mut handles = instance.spawn().unwrap();
    // nothing was buffered: the pre-spawn reload was a pure no-op
    assert!(handles.reload_rx.try_next().is_err());
}

#[test]
fn cloned_reload_sender_feeds_the_same_receiver() {
    let mut instance = Instance::new(0u32);
    let mut handles = instance.spawn().unwrap();
    handles.reload_tx.unbounded_send(()).unwrap();
    assert!(matches!(handles.reload_rx.try_next(), Ok(Some(()))));
}

#[test]
fn stop_wins_race_and_reports_clean_termination() {
    // end-to-end: spawn, stop at once, race the never-ending client loop
    // against the stop signal; the stop side wins and the callback argument
    // is a null error.
    let mut instance = Instance::new(0u32);
    let handles = instance.spawn().unwrap();
    assert!(instance.stop().is_ok());
    let client_loop = futures::future::pending::<Result<(), String>>();
    let race = futures::future::select(handles.stop_rx, client_loop);
    let end = match futures::executor::block_on(race) {
        futures::future::Either::Left((_stop, _)) => RunEnd::StopRequested,
        futures::future::Either::Right((res, _)) => RunEnd::ClientFinished(res),
    };
    assert_eq!(completion_outcome(end), None);
}

#[test]
fn client_failure_reaches_the_callback_with_its_message() {
    // end-to-end: spawn, never stop; the client loop fails on its own and
    // the callback argument carries that message.
    let mut instance = Instance::new(0u32);
    let handles = instance.spawn().unwrap();
    let client_loop = futures::future::ready(Err::<(), String>("tunnel lost".to_string()));
    let race = futures::future::select(client_loop, handles.stop_rx);
    let end = match futures::executor::block_on(race) {
        futures::future::Either::Left((res, _)) => RunEnd::ClientFinished(res),
        futures::future::Either::Right((_stop, _)) => RunEnd::StopRequested,
    };
    assert_eq!(completion_outcome(end), Some("tunnel lost".to_string()));
    // after the run, the instance's slots stay taken for good
    assert_eq!(instance.spawn().unwrap_err(), InstanceError::AlreadySpawned);
}

#[test]
fn error_messages_identify_the_cause() {
    assert_eq!(
        InstanceError::AlreadySpawned.message(),
        "instance has already been spawned"
    );
    assert_eq!(InstanceError::AlreadyStopped.message(), "instance already stopped");
    assert_eq!(
        InstanceError::CannotStartStopped.message(),
        "cannot start already stopped instance"
    );
    assert_eq!(InstanceError::ReloadNotDelivered.message(), "failed to send reload signal");
    assert_eq!(InstanceError::StopNotDelivered.message(), "failed to deliver stop signal");
}
