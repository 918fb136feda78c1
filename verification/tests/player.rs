use rusfi::player::{BackendRequest, MediaController, PlaybackState, PlayerError};

#[test]
fn rewind_targets_position_minus_seconds() {
    let c = MediaController::new();
    // 25 s into the stream, rewind 10 s.
    assert_eq!(
        c.rewind(10, Some(25_000_000_000)),
        Some(BackendRequest::Seek(15_000_000_000))
    );
    // Rewinding past the start clamps to zero.
    assert_eq!(
        c.rewind(30, Some(25_000_000_000)),
        Some(BackendRequest::Seek(0))
    );
    // Rewinding by nothing seeks to the reported position itself.
    assert_eq!(c.rewind(0, Some(7)), Some(BackendRequest::Seek(7)));
    // A rewind amount whose nanosecond value exceeds u64 still clamps.
    assert_eq!(
        c.rewind(u64::MAX, Some(u64::MAX)),
        Some(BackendRequest::Seek(0))
    );
}

#[test]
fn rewind_without_position_is_noop() {
    let c = MediaController::new();
    assert_eq!(c.rewind(10, None), None);
}

#[test]
fn pause_before_init_leaves_state() {
    let mut c = MediaController::new();
    assert_eq!(c.state, PlaybackState::Uninitialized);
    let r = c.pause();
    assert_eq!(r, None);
    assert_eq!(c.state, PlaybackState::Uninitialized);
}

#[test]
fn failed_backend_init_raises() {
    let mut c = MediaController::new();
    let r = c.set_source(false);
    assert_eq!(r, Err(PlayerError::BackendInitError));
    assert_eq!(c.state, PlaybackState::Uninitialized);
    // No further method does anything meaningful.
    assert_eq!(c.play(), None);
    assert_eq!(c.pause(), None);
    assert_eq!(c.stop(), None);
    assert_eq!(c.seek(5), None);
    assert_eq!(c.set_volume(500), None);
    assert_eq!(c.state, PlaybackState::Uninitialized);
}

#[test]
fn transport_state_machine() {
    let mut c = MediaController::new();
    assert_eq!(c.set_source(true), Ok(()));
    assert_eq!(c.state, PlaybackState::Ready);

    assert_eq!(c.play(), Some(BackendRequest::SetPlaying));
    assert_eq!(c.state, PlaybackState::Playing);

    assert_eq!(c.pause(), Some(BackendRequest::SetPaused));
    assert_eq!(c.state, PlaybackState::Paused);

    assert_eq!(c.resume(), Some(BackendRequest::SetPlaying));
    assert_eq!(c.state, PlaybackState::Playing);

    assert_eq!(c.stop(), Some(BackendRequest::SetNull));
    assert_eq!(c.state, PlaybackState::Stopped);

    // Play restarts from Stopped.
    assert_eq!(c.play(), Some(BackendRequest::SetPlaying));
    assert_eq!(c.state, PlaybackState::Playing);
}

#[test]
fn pause_outside_playing_keeps_state() {
    let mut c = MediaController::new();
    assert_eq!(c.set_source(true), Ok(()));
    // The request is still issued, but the tracked state stays Ready.
    assert_eq!(c.pause(), Some(BackendRequest::SetPaused));
    assert_eq!(c.state, PlaybackState::Ready);
}

#[test]
fn seek_and_volume_pass_through() {
    let mut c = MediaController::new();
    assert_eq!(c.set_source(true), Ok(()));
    assert_eq!(c.seek(123_456), Some(BackendRequest::Seek(123_456)));
    // Volume is forwarded unvalidated, even out of range or negative.
    assert_eq!(c.set_volume(1_500), Some(BackendRequest::SetVolume(1_500)));
    assert_eq!(c.set_volume(-20), Some(BackendRequest::SetVolume(-20)));
}

#[test]
fn seek_and_volume_require_backend() {
    let c = MediaController::new();
    assert_eq!(c.seek(42), None);
    assert_eq!(c.set_volume(900), None);
}
