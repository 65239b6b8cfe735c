//! The session manager's core: the single session slot, the operations on
//! it, and the abstract model of the session lifecycle.
//!
//! A session owns the producer ends of two queues: the audio-frame queue the
//! outbound relay consumes, and the stop-signal channel that asks it to wind
//! down. The slot holding at most one session is guarded by the caller's
//! mutual exclusion; the library works on the slot's content while that
//! exclusion is held.
//!
//! The slot is cleared by an explicit stop alone. A relay that terminates on
//! its own — remote close or transport error — leaves the slot in place, so
//! a later `send_audio` reports the closed queue rather than a missing
//! session; this keeps clearing the slot a single, serialized operation.

use vstd::prelude::*;
use crate::errors::DgError;

verus! {

#[verifier::external_type_specification]
#[verifier::external_body]
#[verifier::reject_recursive_types(T)]
pub struct ExUnboundedSender<T>(tokio::sync::mpsc::UnboundedSender<T>);

#[verifier::external_type_specification]
#[verifier::external_body]
#[verifier::reject_recursive_types(T)]
pub struct ExUnboundedReceiver<T>(tokio::sync::mpsc::UnboundedReceiver<T>);

/// The live state of one connection: the producer handles of the audio
/// queue and of the stop signal. At most one of these exists at a time;
/// it is created only after the transport is confirmed open.
pub struct DeepgramSession {
    tx_audio: tokio::sync::mpsc::UnboundedSender<Vec<u8>>,
    stop_tx: tokio::sync::mpsc::UnboundedSender<()>,
}

/// Relies on `tokio::sync::mpsc::unbounded_channel`: returns the two ends
/// of a fresh FIFO queue for audio frames.
#[verifier::external_body]
fn new_audio_channel() -> (r: (
    tokio::sync::mpsc::UnboundedSender<Vec<u8>>,
    tokio::sync::mpsc::UnboundedReceiver<Vec<u8>>,
)) {
    tokio::sync::mpsc::unbounded_channel()
}

/// Relies on `tokio::sync::mpsc::unbounded_channel`: returns the two ends
/// of a fresh channel for the stop signal.
#[verifier::external_body]
fn new_stop_channel() -> (r: (
    tokio::sync::mpsc::UnboundedSender<()>,
    tokio::sync::mpsc::UnboundedReceiver<()>,
)) {
    tokio::sync::mpsc::unbounded_channel()
}

/// Relies on `tokio::sync::mpsc::UnboundedSender::send`: enqueues the frame
/// and returns `Ok` unless every receiver has been dropped; the queue is
/// FIFO, so frames are dequeued in the order accepted. Returns whether the
/// frame was accepted.
#[verifier::external_body]
fn send_on_audio_channel(tx: &tokio::sync::mpsc::UnboundedSender<Vec<u8>>, chunk: Vec<u8>) -> (r:
    bool) {
    tx.send(chunk).is_ok()
}

/// Relies on `tokio::sync::mpsc::UnboundedSender::send`: delivers the stop
/// signal unless the receiver has been dropped; issuing it with no receiver
/// is not an error at this layer. Returns whether it was delivered.
#[verifier::external_body]
fn send_on_stop_channel(tx: &tokio::sync::mpsc::UnboundedSender<()>) -> (r: bool) {
    tx.send(()).is_ok()
}

/// Creates the queues of a new session: the session (both producer ends)
/// and the two consumer ends, for the outbound relay to take.
pub fn open_session() -> (r: (
    DeepgramSession,
    tokio::sync::mpsc::UnboundedReceiver<Vec<u8>>,
    tokio::sync::mpsc::UnboundedReceiver<()>,
)) {
    let (tx_audio, rx_audio) = new_audio_channel();
    let (stop_tx, stop_rx) = new_stop_channel();
    (DeepgramSession { tx_audio, stop_tx }, rx_audio, stop_rx)
}

/// The session slot: the explicitly owned, lifecycle-scoped handle that
/// enforces "no session" and "one live session" as the only two states.
///
/// Alongside the slot it records, as ghost state, the audio frames the
/// live session has accepted, in order — the order in which the outbound
/// relay's FIFO queue yields them.
pub struct SessionSlot {
    slot: Option<DeepgramSession>,
    frames: Ghost<Seq<Seq<u8>>>,
}

impl SessionSlot {
    /// Whether a session is live.
    pub closed spec fn is_active(self) -> bool {
        self.slot is Some
    }

    /// The frames the live session has accepted since it was installed,
    /// oldest first.
    pub closed spec fn frames_queued(self) -> Seq<Seq<u8>> {
        self.frames@
    }

    /// An empty slot: the state before any start.
    pub fn new() -> (r: SessionSlot)
        ensures
            !r.is_active(),
            r.frames_queued() == Seq::<Seq<u8>>::empty(),
    {
        SessionSlot { slot: None, frames: Ghost(Seq::empty()) }
    }

    /// Whether a session is present.
    pub fn present(&self) -> (r: bool)
        ensures
            r == self.is_active(),
    {
        self.slot.is_some()
    }

    /// Stores a freshly opened session. The caller does this only after
    /// the transport is open and both relays are running, so a session is
    /// observable only when a consumer for its queue exists.
    pub fn install(&mut self, sess: DeepgramSession)
        ensures
            final(self).is_active(),
            final(self).frames_queued() == Seq::<Seq<u8>>::empty(),
    {
        self.slot = Some(sess);
        self.frames = Ghost(Seq::empty());
    }

    /// Enqueues one audio frame for the outbound relay.
    ///
    /// With no session live it fails with `NotStarted` and enqueues
    /// nothing. With a session live, either the frame joins the end of the
    /// FIFO queue and the call succeeds, or the relay's consumer end is
    /// gone, the call fails with `ChannelClosed`, and nothing is enqueued.
    pub fn send_audio(&mut self, chunk: Vec<u8>) -> (r: Result<(), DgError>)
        ensures
            !old(self).is_active() ==> r == Err::<(), DgError>(DgError::NotStarted) && *final(self)
                == *old(self),
            old(self).is_active() ==> match r {
                Ok(_) => final(self).frames_queued() == old(self).frames_queued().push(chunk@)
                    && final(self).is_active(),
                Err(e) => e == DgError::ChannelClosed && *final(self) == *old(self),
            },
    {
        match &self.slot {
            None => Err(DgError::NotStarted),
            Some(sess) => {
                if send_on_audio_channel(&sess.tx_audio, chunk) {
                    self.frames = Ghost(self.frames@.push(chunk@));
                    Ok(())
                } else {
                    Err(DgError::ChannelClosed)
                }
            },
        }
    }

    /// Removes the session, if one is present, and sends it the stop
    /// signal. Always succeeds, also on an empty slot; it does not wait
    /// for the relays, which wind down on their own. What was already
    /// queued stays with the relay.
    pub fn stop(&mut self) -> (r: Result<(), DgError>)
        ensures
            !final(self).is_active(),
            r == Ok::<(), DgError>(()),
            final(self).frames_queued() == old(self).frames_queued(),
    {
        match self.slot.take() {
            Some(sess) => {
                let _ = send_on_stop_channel(&sess.stop_tx);
            },
            None => {},
        }
        Ok(())
    }
}

/// The abstract state of the whole lifecycle: whether a session is live
/// and how many connections have been attempted.
pub struct ManagerModel {
    pub active: bool,
    pub connects: nat,
}

/// What `start` does: with a session live it is a no-op; otherwise it
/// attempts exactly one connection, and a session becomes live only when
/// the connect succeeds.
pub open spec fn spec_start(m: ManagerModel, connect_ok: bool) -> ManagerModel {
    if m.active {
        m
    } else {
        ManagerModel { active: connect_ok, connects: m.connects + 1 }
    }
}

/// What `stop` does: clears the session, whatever the state was.
pub open spec fn spec_stop(m: ManagerModel) -> ManagerModel {
    ManagerModel { active: false, connects: m.connects }
}

/// Calling start twice in a row without an intervening stop attempts
/// exactly one connection: the second start sees the live session and
/// changes nothing.
pub proof fn lemma_start_idempotent(m: ManagerModel)
    requires
        !m.active,
    ensures
        spec_start(spec_start(m, true), true) == spec_start(m, true),
        spec_start(spec_start(m, true), true).connects == m.connects + 1,
{
}

/// Stop always succeeds and leaves no session, whatever the state was, and
/// a later start opens a fresh connection: shutdown and failure are scoped
/// to one session.
pub proof fn lemma_stop_then_restart(m: ManagerModel)
    ensures
        !spec_stop(m).active,
        spec_start(spec_stop(m), true).active,
        spec_start(spec_stop(m), true).connects == m.connects + 1,
{
}

} // verus!
