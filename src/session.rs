//! One feed session's lifecycle and message dispatch, as a function from the
//! session's state and an event to its next state and the action to perform.
//! The caller owns the transport: it performs the action and reports back
//! what happened as the next event.
use crate::dedup::{admits, after_offer, identity_of, DedupModel, TradeDeduplicator, TradeRecord};
use crate::reconciler::{
    after_delta, after_snapshot, delta_result, faulted, handle_diff_update, raw_delta_readable,
    reload_snapshot, DeltaOutcome, ReconModel, ReconcileError, SequenceReconciler, SyncState,
};
use crate::decimal::unsigned_text;
use crate::wire::{levels_readable, levels_text, RawDepthDelta, Snapshot};
use vstd::prelude::*;

verus! {

/// The lifecycle of a session.
#[derive(Clone, Copy, Debug, PartialEq, Eq, Structural)]
pub enum SessionPhase {
    /// Waiting for the transport to connect.
    Connecting,
    /// Connected; the subscription is being sent.
    Subscribed,
    /// Subscribed; keep-alive runs and messages are dispatched.
    Streaming,
    /// Ended; the supervisor decides what follows.
    Closed,
}

/// A decoded inbound message.
pub enum FeedMessage {
    Snapshot(Snapshot),
    Delta(RawDepthDelta),
    Trade(TradeRecord),
    /// The peer asks for a liveness answer.
    LivenessProbe,
    /// The peer answers our liveness probe.
    LivenessResponse,
    /// The peer closes the session.
    Close,
}

/// What happened on the transport.
pub enum SessionEvent {
    Connected,
    SubscribeSent,
    KeepAliveTick,
    Inbound(FeedMessage),
    /// A frame that could not be decoded; it is dropped.
    MalformedFrame,
    TransportError,
}

/// What the caller is to do next.
#[derive(Clone, Copy, Debug, PartialEq, Eq, Structural)]
pub enum SessionAction {
    Nothing,
    SendSubscribe,
    StartKeepAlive,
    SendProbe,
    AnswerProbe,
    /// Report a liveness round trip of `millis` to telemetry.
    RecordRoundTrip { millis: u64 },
    /// The book is crossed after an update; it is kept and reported.
    ReportCrossed,
    /// The book needs a fresh snapshot; the transport stays up.
    RequestResync,
    /// Hand an admitted trade to persistence.
    ForwardTrade(TradeRecord),
    /// The session has ended; report to the supervisor.
    Terminate,
}

/// The abstract session.
pub struct SessionModel {
    pub phase: SessionPhase,
    pub probe_sent_ms: Option<u64>,
    pub recon: ReconModel,
    pub dedup: DedupModel,
}

/// The action that follows a delta's result.
pub open spec fn delta_action(r: Result<DeltaOutcome, ReconcileError>) -> SessionAction {
    match r {
        Ok(DeltaOutcome::Applied { crossed: true, .. }) => SessionAction::ReportCrossed,
        Ok(_) => SessionAction::Nothing,
        Err(_) => SessionAction::RequestResync,
    }
}

/// The reconciler after a text delta, and what follows, on a synced reconciler.
pub open spec fn delta_step(r: ReconModel, d: RawDepthDelta) -> (ReconModel, SessionAction) {
    if raw_delta_readable(d) {
        let from = unsigned_text(d.from_version@)->0;
        let to = unsigned_text(d.to_version@)->0;
        let bids = levels_text(d.bids@);
        let asks = levels_text(d.asks@);
        (after_delta(r, from, to, bids, asks), delta_action(delta_result(r, from, to, bids, asks)))
    } else {
        (faulted(r), SessionAction::RequestResync)
    }
}

/// The reconciler after a text snapshot, and what follows.
pub open spec fn snapshot_step(r: ReconModel, s: Snapshot) -> (ReconModel, SessionAction) {
    if levels_readable(s.bids@) && levels_readable(s.asks@) {
        (after_snapshot(r, s.last_update_id, levels_text(s.bids@), levels_text(s.asks@)), SessionAction::Nothing)
    } else {
        (r, SessionAction::RequestResync)
    }
}

/// The milliseconds from `sent` to `now`, zero if the clock went back.
pub open spec fn elapsed(sent: u64, now: u64) -> u64 {
    if now >= sent {
        (now - sent) as u64
    } else {
        0
    }
}

/// The session after an inbound message, and what follows, while messages
/// are accepted.
pub open spec fn message_step(m: SessionModel, msg: FeedMessage) -> (SessionModel, SessionAction) {
    match msg {
        FeedMessage::Snapshot(s) => {
            let (r, a) = snapshot_step(m.recon, s);
            (SessionModel { recon: r, ..m }, a)
        },
        FeedMessage::Delta(d) => if m.recon.state == SyncState::Synced {
            let (r, a) = delta_step(m.recon, d);
            (SessionModel { recon: r, ..m }, a)
        } else {
            (m, SessionAction::Nothing)
        },
        FeedMessage::Trade(t) => if admits(m.dedup, t.exchange_timestamp, identity_of(t)) {
            (
                SessionModel { dedup: after_offer(m.dedup, t.exchange_timestamp, identity_of(t)), ..m },
                SessionAction::ForwardTrade(t),
            )
        } else {
            (m, SessionAction::Nothing)
        },
        FeedMessage::LivenessProbe => (m, SessionAction::AnswerProbe),
        FeedMessage::LivenessResponse => (m, SessionAction::Nothing),
        FeedMessage::Close => (SessionModel { phase: SessionPhase::Closed, ..m }, SessionAction::Terminate),
    }
}

/// The session after an event at time `now` (milliseconds), and what follows.
pub open spec fn session_step(m: SessionModel, e: SessionEvent, now: u64) -> (SessionModel, SessionAction) {
    let accepting = m.phase == SessionPhase::Subscribed || m.phase == SessionPhase::Streaming;
    match e {
        SessionEvent::Connected => if m.phase == SessionPhase::Connecting {
            (SessionModel { phase: SessionPhase::Subscribed, ..m }, SessionAction::SendSubscribe)
        } else {
            (m, SessionAction::Nothing)
        },
        SessionEvent::SubscribeSent => if m.phase == SessionPhase::Subscribed {
            (SessionModel { phase: SessionPhase::Streaming, ..m }, SessionAction::StartKeepAlive)
        } else {
            (m, SessionAction::Nothing)
        },
        SessionEvent::KeepAliveTick => if m.phase == SessionPhase::Streaming {
            (SessionModel { probe_sent_ms: Some(now), ..m }, SessionAction::SendProbe)
        } else {
            (m, SessionAction::Nothing)
        },
        SessionEvent::Inbound(FeedMessage::LivenessResponse) => if accepting {
            match m.probe_sent_ms {
                Some(sent) => (
                    SessionModel { probe_sent_ms: None, ..m },
                    SessionAction::RecordRoundTrip { millis: elapsed(sent, now) },
                ),
                None => (m, SessionAction::Nothing),
            }
        } else {
            (m, SessionAction::Nothing)
        },
        SessionEvent::Inbound(msg) => if accepting {
            message_step(m, msg)
        } else {
            (m, SessionAction::Nothing)
        },
        SessionEvent::MalformedFrame => (m, SessionAction::Nothing),
        SessionEvent::TransportError => if m.phase != SessionPhase::Closed {
            (SessionModel { phase: SessionPhase::Closed, ..m }, SessionAction::Terminate)
        } else {
            (m, SessionAction::Nothing)
        },
    }
}

/// One feed session: it owns the book's reconciler and the trade
/// deduplicator for its lifetime, and changes them only through events.
pub struct FeedSession {
    phase: SessionPhase,
    probe_sent_ms: Option<u64>,
    recon: SequenceReconciler,
    dedup: TradeDeduplicator,
}

impl View for FeedSession {
    type V = SessionModel;

    closed spec fn view(&self) -> SessionModel {
        SessionModel { phase: self.phase, probe_sent_ms: self.probe_sent_ms, recon: self.recon@, dedup: self.dedup@ }
    }
}

impl FeedSession {
    pub closed spec fn wf(&self) -> bool {
        self.recon.wf() && self.dedup.wf()
    }

    /// A session about to connect, around `recon` and `dedup`.
    pub fn new(recon: SequenceReconciler, dedup: TradeDeduplicator) -> (r: FeedSession)
        requires
            recon.wf(),
            dedup.wf(),
        ensures
            r.wf(),
            r@ == (SessionModel {
                phase: SessionPhase::Connecting,
                probe_sent_ms: None,
                recon: recon@,
                dedup: dedup@,
            }),
    {
        FeedSession { phase: SessionPhase::Connecting, probe_sent_ms: None, recon, dedup }
    }

    pub fn phase(&self) -> (r: SessionPhase)
        ensures
            r == self@.phase,
    {
        self.phase
    }

    pub fn reconciler(&self) -> (r: &SequenceReconciler)
        ensures
            r@ == self@.recon,
            self.wf() ==> r.wf(),
    {
        &self.recon
    }

    /// Installs a snapshot fetched out of band, in any phase: at bootstrap and
    /// on resynchronization. Returns its version.
    pub fn install_snapshot(&mut self, snap: &Snapshot) -> (r: Result<u64, ReconcileError>)
        requires
            old(self).wf(),
        ensures
            final(self).wf(),
            final(self)@ == (SessionModel { recon: snapshot_step(old(self)@.recon, *snap).0, ..old(self)@ }),
            r is Ok <==> levels_readable(snap.bids@) && levels_readable(snap.asks@),
            r matches Ok(v) ==> v == snap.last_update_id,
    {
        reload_snapshot(&mut self.recon, snap)
    }

    fn on_message(&mut self, msg: FeedMessage) -> (r: SessionAction)
        requires
            old(self).wf(),
        ensures
            final(self).wf(),
            (final(self)@, r) == message_step(old(self)@, msg),
    {
        match msg {
            FeedMessage::Snapshot(s) => match reload_snapshot(&mut self.recon, &s) {
                Ok(_) => SessionAction::Nothing,
                Err(_) => SessionAction::RequestResync,
            },
            FeedMessage::Delta(d) => {
                if self.recon.state() != SyncState::Synced {
                    return SessionAction::Nothing;
                }
                match handle_diff_update(&mut self.recon, &d) {
                    Ok(DeltaOutcome::Applied { crossed: true, .. }) => SessionAction::ReportCrossed,
                    Ok(_) => SessionAction::Nothing,
                    Err(_) => SessionAction::RequestResync,
                }
            },
            FeedMessage::Trade(t) => if self.dedup.offer(&t) {
                SessionAction::ForwardTrade(t)
            } else {
                SessionAction::Nothing
            },
            FeedMessage::LivenessProbe => SessionAction::AnswerProbe,
            FeedMessage::LivenessResponse => SessionAction::Nothing,
            FeedMessage::Close => {
                self.phase = SessionPhase::Closed;
                SessionAction::Terminate
            },
        }
    }

    /// Takes one event at time `now_ms` and returns the action to perform, as
    /// `session_step` says.
    pub fn handle(&mut self, event: SessionEvent, now_ms: u64) -> (r: SessionAction)
        requires
            old(self).wf(),
        ensures
            final(self).wf(),
            (final(self)@, r) == session_step(old(self)@, event, now_ms),
    {
        let accepting = self.phase == SessionPhase::Subscribed || self.phase == SessionPhase::Streaming;
        match event {
            SessionEvent::Connected => if self.phase == SessionPhase::Connecting {
                self.phase = SessionPhase::Subscribed;
                SessionAction::SendSubscribe
            } else {
                SessionAction::Nothing
            },
            SessionEvent::SubscribeSent => if self.phase == SessionPhase::Subscribed {
                self.phase = SessionPhase::Streaming;
                SessionAction::StartKeepAlive
            } else {
                SessionAction::Nothing
            },
            SessionEvent::KeepAliveTick => if self.phase == SessionPhase::Streaming {
                self.probe_sent_ms = Some(now_ms);
                SessionAction::SendProbe
            } else {
                SessionAction::Nothing
            },
            SessionEvent::Inbound(FeedMessage::LivenessResponse) => {
                if !accepting {
                    return SessionAction::Nothing;
                }
                match self.probe_sent_ms {
                    Some(sent) => {
                        self.probe_sent_ms = None;
                        let millis = if now_ms >= sent {
                            now_ms - sent
                        } else {
                            0
                        };
                        SessionAction::RecordRoundTrip { millis }
                    },
                    None => SessionAction::Nothing,
                }
            },
            SessionEvent::Inbound(msg) => if accepting {
                self.on_message(msg)
            } else {
                SessionAction::Nothing
            },
            SessionEvent::MalformedFrame => SessionAction::Nothing,
            SessionEvent::TransportError => if self.phase != SessionPhase::Closed {
                self.phase = SessionPhase::Closed;
                SessionAction::Terminate
            } else {
                SessionAction::Nothing
            },
        }
    }
}

} // verus!
