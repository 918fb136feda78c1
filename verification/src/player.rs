//! The playback-transport state machine.
//!
//! The controller owns one backend handle exclusively and serializes all
//! transport intent into it. Commands are fire-and-forget: each method
//! decides the next tracked state and returns the request that the
//! unverified shell should issue to the backend; a rejected request is
//! simply dropped and never surfaces to the caller. The one failure that
//! does propagate is a backend that cannot be constructed at all.

use vstd::prelude::*;

verus! {

use vstd::arithmetic::div_mod::lemma_fundamental_div_mod;
use vstd::arithmetic::mul::lemma_mul_inequality;

/// Nanoseconds per second: backend positions and seek targets are in
/// nanoseconds, while rewind amounts arrive in whole seconds.
pub const NANOS_PER_SECOND: u64 = 1_000_000_000;

/// The transport state the controller tracks for its backend handle.
#[derive(Clone, Copy, PartialEq, Eq, Structural, Debug)]
pub enum PlaybackState {
    /// No backend handle exists yet (or its construction failed).
    Uninitialized,
    /// A backend handle is attached and quiescent.
    Ready,
    Playing,
    Paused,
    Stopped,
}

/// The one failure that propagates to the caller: without a backend
/// handle no further transport operation is meaningful.
#[derive(Clone, Copy, PartialEq, Eq, Structural, Debug)]
pub enum PlayerError {
    BackendInitError,
}

/// A fire-and-forget request for the media backend. The unverified shell
/// performs it and does not report back; a rejection by the backend is
/// absorbed there.
#[derive(Clone, Copy, PartialEq, Eq, Structural, Debug)]
pub enum BackendRequest {
    /// Request the backend into its playing state.
    SetPlaying,
    /// Request the backend into its paused state.
    SetPaused,
    /// Request the backend into its idle state.
    SetNull,
    /// Flushing, accurate seek to an absolute position in nanoseconds.
    Seek(u64),
    /// New volume in thousandths of full loudness, forwarded unvalidated.
    SetVolume(i64),
}

/// The seek target of a rewind: `max(0, position - seconds)`, both sides
/// taken in nanoseconds.
pub open spec fn rewind_target(position_ns: u64, seconds: u64) -> u64 {
    if position_ns >= seconds * NANOS_PER_SECOND {
        (position_ns - seconds * NANOS_PER_SECOND) as u64
    } else {
        0u64
    }
}

/// Serializes all playback-transport intent into one backend handle.
pub struct MediaController {
    /// Tracked transport state of the exclusively owned backend handle.
    pub state: PlaybackState,
}

impl MediaController {
    /// A fresh controller has no backend handle yet.
    pub fn new() -> (c: MediaController)
        ensures
            c.state == PlaybackState::Uninitialized,
    {
        MediaController { state: PlaybackState::Uninitialized }
    }

    /// Attach a backend for a new source. `backend_ready` reports whether
    /// the shell could construct a backend handle for the source; on
    /// failure the controller stays unusable and the error propagates.
    pub fn set_source(&mut self, backend_ready: bool) -> (r: Result<(), PlayerError>)
        ensures
            backend_ready ==> r is Ok && final(self).state == PlaybackState::Ready,
            !backend_ready ==> r == Err::<(), PlayerError>(PlayerError::BackendInitError)
                && final(self).state == PlaybackState::Uninitialized,
    {
        if backend_ready {
            self.state = PlaybackState::Ready;
            Ok(())
        } else {
            self.state = PlaybackState::Uninitialized;
            Err(PlayerError::BackendInitError)
        }
    }

    /// Request the backend into `Playing`. Without a backend this is a
    /// silent no-op; it never fails.
    pub fn play(&mut self) -> (r: Option<BackendRequest>)
        ensures
            old(self).state == PlaybackState::Uninitialized ==> r is None
                && final(self).state == old(self).state,
            old(self).state != PlaybackState::Uninitialized
                ==> r == Some(BackendRequest::SetPlaying)
                && final(self).state == PlaybackState::Playing,
    {
        match self.state {
            PlaybackState::Uninitialized => None,
            _ => {
                self.state = PlaybackState::Playing;
                Some(BackendRequest::SetPlaying)
            },
        }
    }

    /// Semantically identical to `play`.
    pub fn resume(&mut self) -> (r: Option<BackendRequest>)
        ensures
            old(self).state == PlaybackState::Uninitialized ==> r is None
                && final(self).state == old(self).state,
            old(self).state != PlaybackState::Uninitialized
                ==> r == Some(BackendRequest::SetPlaying)
                && final(self).state == PlaybackState::Playing,
    {
        self.play()
    }

    /// Request the backend into `Paused`. Only an actually playing
    /// controller moves its tracked state; the request itself is still
    /// issued whenever a backend exists, and a backend that rejects it is
    /// ignored.
    pub fn pause(&mut self) -> (r: Option<BackendRequest>)
        ensures
            old(self).state == PlaybackState::Uninitialized ==> r is None,
            old(self).state != PlaybackState::Uninitialized ==> r == Some(
                BackendRequest::SetPaused,
            ),
            old(self).state == PlaybackState::Playing ==> final(self).state
                == PlaybackState::Paused,
            old(self).state != PlaybackState::Playing ==> final(self).state == old(self).state,
    {
        match self.state {
            PlaybackState::Uninitialized => None,
            PlaybackState::Playing => {
                self.state = PlaybackState::Paused;
                Some(BackendRequest::SetPaused)
            },
            _ => Some(BackendRequest::SetPaused),
        }
    }

    /// Request the backend into its idle state; any initialized state
    /// moves to `Stopped`.
    pub fn stop(&mut self) -> (r: Option<BackendRequest>)
        ensures
            old(self).state == PlaybackState::Uninitialized ==> r is None
                && final(self).state == old(self).state,
            old(self).state != PlaybackState::Uninitialized ==> r == Some(BackendRequest::SetNull)
                && final(self).state == PlaybackState::Stopped,
    {
        match self.state {
            PlaybackState::Uninitialized => None,
            _ => {
                self.state = PlaybackState::Stopped;
                Some(BackendRequest::SetNull)
            },
        }
    }

    /// Issue a flushing, accurate seek to an absolute position. Whether
    /// the backend accepts it is observed by the shell alone and never
    /// propagates back.
    pub fn seek(&self, position_ns: u64) -> (r: Option<BackendRequest>)
        ensures
            self.state == PlaybackState::Uninitialized ==> r is None,
            self.state != PlaybackState::Uninitialized ==> r == Some(
                BackendRequest::Seek(position_ns),
            ),
    {
        match self.state {
            PlaybackState::Uninitialized => None,
            _ => Some(BackendRequest::Seek(position_ns)),
        }
    }

    /// Decide the rewind request from the position the backend reported:
    /// with no position available the rewind is an explicit no-op, else it
    /// seeks to `max(0, position - seconds)`. The position-availability
    /// check takes the place of any state check: only a live backend can
    /// report a position.
    pub fn rewind(&self, seconds: u64, position_ns: Option<u64>) -> (r: Option<BackendRequest>)
        ensures
            position_ns is None ==> r is None,
            position_ns matches Some(p) ==> r == Some(
                BackendRequest::Seek(rewind_target(p, seconds)),
            ),
    {
        match position_ns {
            None => None,
            Some(p) => {
                let sec_ns: u64 = if seconds <= u64::MAX / NANOS_PER_SECOND {
                    proof {
                        lemma_mul_inequality(
                            seconds as int,
                            (u64::MAX / NANOS_PER_SECOND) as int,
                            NANOS_PER_SECOND as int,
                        );
                        lemma_fundamental_div_mod(u64::MAX as int, NANOS_PER_SECOND as int);
                    }
                    seconds * NANOS_PER_SECOND
                } else {
                    proof {
                        lemma_mul_inequality(
                            (u64::MAX / NANOS_PER_SECOND + 1) as int,
                            seconds as int,
                            NANOS_PER_SECOND as int,
                        );
                        lemma_fundamental_div_mod(u64::MAX as int, NANOS_PER_SECOND as int);
                    }
                    u64::MAX
                };
                let target: u64 = if p > sec_ns {
                    p - sec_ns
                } else {
                    0
                };
                Some(BackendRequest::Seek(target))
            },
        }
    }

    /// Forward a volume, in thousandths of full loudness, to the backend.
    /// The value is deliberately not clamped or validated.
    pub fn set_volume(&self, volume_milli: i64) -> (r: Option<BackendRequest>)
        ensures
            self.state == PlaybackState::Uninitialized ==> r is None,
            self.state != PlaybackState::Uninitialized ==> r == Some(
                BackendRequest::SetVolume(volume_milli),
            ),
    {
        match self.state {
            PlaybackState::Uninitialized => None,
            _ => Some(BackendRequest::SetVolume(volume_milli)),
        }
    }
}

} // verus!

