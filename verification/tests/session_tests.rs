use voice_session::activation::{ActivatedInput, ActivationState, SourceActivator};
use voice_session::bitrate::BitrateSetting;
use voice_session::errors::SessionError;
use voice_session::session::SessionHandle;

/// Runs one whole successful activation, as the embedding layer would after
/// the source provider produced a playable input.
fn activated() -> ActivatedInput {
    let mut activator = SourceActivator::inert();
    activator.begin();
    activator.finish_success()
}

/// Runs one whole failed activation with the given provider diagnostic.
fn failed_activation(diagnostic: &str) -> SessionError {
    let mut activator = SourceActivator::inert();
    activator.begin();
    activator.finish_failure(diagnostic.to_string())
}

#[test]
fn direct_construction_fails_with_usage_error() {
    let r: Result<SessionHandle<u64>, SessionError> = SessionHandle::new();
    match r {
        Err(e) => assert!(e.is_usage_error()),
        Ok(_) => panic!("the plain constructor must never yield a handle"),
    }
}

#[test]
fn create_starts_disconnected() {
    let handle: SessionHandle<u64> = SessionHandle::create(None);
    assert!(!handle.is_connected());
    assert!(!handle.is_muted());
    assert_eq!(handle.active_track_count(), 0);
    assert_eq!(handle.current_bitrate(), BitrateSetting::Automatic);
    assert_eq!(handle.current_config(), &None);
}

#[test]
fn connect_success_connects() {
    let mut handle: SessionHandle<u64> = SessionHandle::create(None);
    let r = handle.apply_connect(Ok(()));
    assert!(r.is_ok());
    assert!(handle.is_connected());
}

#[test]
fn connect_failure_stays_disconnected() {
    let mut handle: SessionHandle<u64> = SessionHandle::create(None);
    let r = handle.apply_connect(Err("handshake refused".to_string()));
    match r {
        Err(SessionError::ConnectionFailure(d)) => assert_eq!(d, "handshake refused"),
        _ => panic!("a rejected handshake must surface a ConnectionFailure"),
    }
    assert!(!handle.is_connected());
}

#[test]
fn mute_reads_back_exactly() {
    let mut handle: SessionHandle<u64> = SessionHandle::create(None);
    handle.set_mute(true);
    assert!(handle.is_muted());
    handle.set_mute(false);
    assert!(!handle.is_muted());
    handle.mute();
    assert!(handle.is_muted());
    handle.unmute();
    assert!(!handle.is_muted());
}

#[test]
fn failed_activation_leaves_session_untouched() {
    let mut handle: SessionHandle<u64> = SessionHandle::create(None);
    let r = handle.play_source(Err(failed_activation("no codec")));
    match r {
        Err(SessionError::ActivationFailure(d)) => assert_eq!(d, "no codec"),
        _ => panic!("a failed activation must surface an ActivationFailure"),
    }
    assert_eq!(handle.active_track_count(), 0);

    let first = handle.play_source(Ok(activated()));
    assert!(first.is_ok());
    assert_eq!(handle.active_track_count(), 1);
    let again = handle.play_source(Err(failed_activation("still no codec")));
    assert!(again.is_err());
    assert_eq!(handle.active_track_count(), 1);
}

#[test]
fn play_only_source_leaves_exactly_one_active() {
    let mut handle: SessionHandle<u64> = SessionHandle::create(None);
    handle.play_source(Ok(activated())).unwrap();
    handle.play_source(Ok(activated())).unwrap();
    handle.play_source(Ok(activated())).unwrap();
    assert_eq!(handle.active_track_count(), 3);
    let t = handle.play_only_source(Ok(activated())).unwrap();
    assert_eq!(handle.active_track_count(), 1);
    assert_eq!(t.id, 3);
}

#[test]
fn play_only_source_failure_keeps_old_sources() {
    let mut handle: SessionHandle<u64> = SessionHandle::create(None);
    handle.play_source(Ok(activated())).unwrap();
    handle.play_source(Ok(activated())).unwrap();
    let r = handle.play_only_source(Err(failed_activation("unreachable origin")));
    assert!(r.is_err());
    assert_eq!(handle.active_track_count(), 2);
}

#[test]
fn track_handles_are_fresh_per_play() {
    let mut handle: SessionHandle<u64> = SessionHandle::create(None);
    let a = handle.play_source(Ok(activated())).unwrap();
    let b = handle.play_source(Ok(activated())).unwrap();
    assert_ne!(a.id, b.id);
}

#[test]
fn explicit_bitrate_distinguishable_from_max_and_auto() {
    let mut handle: SessionHandle<u64> = SessionHandle::create(None);
    handle.set_bitrate(64000);
    let b = handle.current_bitrate();
    assert_eq!(b, BitrateSetting::ExplicitBitsPerSecond(64000));
    assert_ne!(b, BitrateSetting::Maximum);
    assert_ne!(b, BitrateSetting::Automatic);
    handle.set_bitrate_to_max();
    assert_eq!(handle.current_bitrate(), BitrateSetting::Maximum);
    handle.set_bitrate_to_auto();
    assert_eq!(handle.current_bitrate(), BitrateSetting::Automatic);
}

#[test]
fn stop_clears_all_sources() {
    let mut handle: SessionHandle<u64> = SessionHandle::create(None);
    handle.play_source(Ok(activated())).unwrap();
    handle.play_source(Ok(activated())).unwrap();
    handle.stop();
    assert_eq!(handle.active_track_count(), 0);
}

#[test]
fn leave_only_drops_the_connection() {
    let mut handle: SessionHandle<u64> = SessionHandle::create(Some(7));
    handle.apply_connect(Ok(())).unwrap();
    handle.play_source(Ok(activated())).unwrap();
    handle.set_mute(true);
    handle.set_bitrate(9600);
    handle.leave();
    assert!(!handle.is_connected());
    assert_eq!(handle.active_track_count(), 1);
    assert!(handle.is_muted());
    assert_eq!(handle.current_bitrate(), BitrateSetting::ExplicitBitsPerSecond(9600));
    assert_eq!(handle.current_config(), &Some(7));
}

#[test]
fn set_config_replaces_the_value_wholesale() {
    let mut handle: SessionHandle<u64> = SessionHandle::create(Some(1));
    assert_eq!(handle.current_config(), &Some(1));
    handle.set_config(2);
    assert_eq!(handle.current_config(), &Some(2));
    handle.set_config(3);
    assert_eq!(handle.current_config(), &Some(3));
}

#[test]
fn activator_walks_the_success_path() {
    let mut activator = SourceActivator::inert();
    assert_eq!(activator.current_state(), ActivationState::Inert);
    activator.begin();
    assert_eq!(activator.current_state(), ActivationState::Activating);
    let _input = activator.finish_success();
    assert_eq!(activator.current_state(), ActivationState::Activated);
}

#[test]
fn activator_walks_the_failure_path() {
    let mut activator = SourceActivator::inert();
    activator.begin();
    let e = activator.finish_failure("origin timed out".to_string());
    assert_eq!(activator.current_state(), ActivationState::Failed);
    match e {
        SessionError::ActivationFailure(d) => assert_eq!(d, "origin timed out"),
        _ => panic!("a failed activation must be an ActivationFailure"),
    }
}
