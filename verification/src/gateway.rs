//! The gateway protocol state machine.
//!
//! A [`Session`] consumes decoded inbound frames and decides, one frame at
//! a time, how the protocol advances: the handshake, the steady dispatch
//! stream, session invalidation, resumption and reconnection.  Every
//! decision is returned as a [`Step`] for the caller together with a list
//! of [`Action`]s — frames to write, and heartbeat task commands — that the
//! surrounding plumbing must carry out in order.
//!
//! The contracts here pin the whole decision table down, among it: the
//! observed sequence number never decreases within a session; a resume is
//! only ever begun while a session identifier is held; a second session
//! invalidation during one handshake is a protocol error, not a loop; and
//! the heartbeat commands never leave two heartbeat tasks alive.

use vstd::prelude::*;

use crate::error::Error;
use crate::frame::{Dispatch, GatewayFrame};
use crate::wire::{heartbeat_json, resume_json};

verus! {

/// Where in the protocol a session stands.
#[derive(Debug, Clone, PartialEq, Eq, Structural)]
pub enum ProtocolState {
    /// The websocket is open; the hello frame has not arrived yet.
    AwaitingHello,
    /// Identify was sent; the ready dispatch has not arrived yet.
    AwaitingReady {
        /// Whether an invalidation already forced one identify retry.
        retried: bool,
    },
    /// The session is established and dispatches are streaming.
    Streaming,
    /// A resume frame was sent on a fresh websocket; the first replayed
    /// dispatch has not arrived yet.
    Resuming,
    /// The session is finished; no further frame will be consumed.
    Closed,
}

/// One order to the plumbing around the state machine.
#[derive(Debug)]
pub enum Action {
    /// Write this frame text to the websocket through the shared sender.
    SendFrame(String),
    /// Spawn the heartbeat task with this interval in milliseconds.
    StartHeartbeat {
        /// Milliseconds between heartbeats.
        interval_ms: u64,
    },
    /// Signal the heartbeat task to stop.
    StopHeartbeat,
    /// Hand the latest observed sequence number to the heartbeat task.
    HeartbeatSequence(u64),
    /// Re-program the heartbeat task's interval.
    HeartbeatInterval(u64),
}

/// What one consumed frame amounts to for the caller.
#[derive(Debug)]
pub enum Step {
    /// Nothing to report; feed the next inbound frame.
    Continue,
    /// The handshake finished: the ready dispatch, to hand to the caller.
    Ready(Dispatch),
    /// A streamed event, to hand to the caller.
    Event(Dispatch),
    /// The platform demands a fresh connection.
    Reconnect,
    /// The connection failed; the session is closed.
    Fatal(Error),
}

/// How many heartbeat tasks are alive after a list of actions has been
/// carried out, starting from `before` alive tasks.
pub open spec fn hb_after(before: int, actions: Seq<Action>) -> int
    decreases actions.len(),
{
    if actions.len() == 0 {
        before
    } else {
        let prev = hb_after(before, actions.drop_last());
        match actions.last() {
            Action::StartHeartbeat { .. } => prev + 1,
            Action::StopHeartbeat => prev - 1,
            _ => prev,
        }
    }
}

/// Whether a list of actions only ever starts a heartbeat task when none
/// is alive, and only ever stops one when one is.
pub open spec fn hb_discipline(before: int, actions: Seq<Action>) -> bool
    decreases actions.len(),
{
    if actions.len() == 0 {
        true
    } else {
        hb_discipline(before, actions.drop_last()) && {
            let prev = hb_after(before, actions.drop_last());
            match actions.last() {
                Action::StartHeartbeat { .. } => prev == 0,
                Action::StopHeartbeat => prev == 1,
                _ => true,
            }
        }
    }
}

/// No action list leaves the heartbeat count where it started but the
/// empty one.
pub broadcast proof fn lemma_hb_empty(before: int)
    ensures
        #[trigger] hb_after(before, Seq::<Action>::empty()) == before,
        hb_discipline(before, Seq::<Action>::empty()),
{
}

/// How one more action moves the heartbeat count.
pub broadcast proof fn lemma_hb_after_push(before: int, actions: Seq<Action>, a: Action)
    ensures
        #[trigger] hb_after(before, actions.push(a)) == (match a {
            Action::StartHeartbeat { .. } => hb_after(before, actions) + 1,
            Action::StopHeartbeat => hb_after(before, actions) - 1,
            _ => hb_after(before, actions),
        }),
{
    assert(actions.push(a).drop_last() =~= actions);
    assert(actions.push(a).last() == a);
}

/// How one more action extends the heartbeat discipline.
pub broadcast proof fn lemma_hb_discipline_push(before: int, actions: Seq<Action>, a: Action)
    ensures
        #[trigger] hb_discipline(before, actions.push(a)) == (hb_discipline(before, actions)
            && (match a {
            Action::StartHeartbeat { .. } => hb_after(before, actions) == 0,
            Action::StopHeartbeat => hb_after(before, actions) == 1,
            _ => true,
        })),
{
    assert(actions.push(a).drop_last() =~= actions);
    assert(actions.push(a).last() == a);
}

/// Discipline restricted to a prefix of the actions.
proof fn lemma_hb_prefix(before: int, actions: Seq<Action>, k: int)
    requires
        hb_discipline(before, actions),
        0 <= k <= actions.len(),
    ensures
        hb_discipline(before, actions.take(k)),
    decreases actions.len() - k,
{
    if k == actions.len() {
        assert(actions.take(k) =~= actions);
    } else {
        lemma_hb_prefix(before, actions, k + 1);
        assert(actions.take(k + 1).drop_last() =~= actions.take(k));
    }
}

/// At any instant there is at most one live heartbeat task per
/// connection: starting from at most one alive, an action list that
/// respects the heartbeat discipline keeps the count of alive tasks
/// between zero and one after every prefix — so in particular at every
/// point while the actions are carried out in order.
pub proof fn lemma_heartbeat_bound(before: int, actions: Seq<Action>, k: int)
    requires
        0 <= before <= 1,
        hb_discipline(before, actions),
        0 <= k <= actions.len(),
    ensures
        0 <= hb_after(before, actions.take(k)) <= 1,
    decreases k,
{
    if k == 0 {
        assert(actions.take(0) =~= Seq::<Action>::empty());
    } else {
        lemma_heartbeat_bound(before, actions, k - 1);
        lemma_hb_prefix(before, actions, k);
        assert(actions.take(k).drop_last() =~= actions.take(k - 1));
        assert(actions.take(k).last() == actions[k - 1]);
    }
}

/// The gateway protocol state machine for one connection.
#[derive(Debug)]
pub struct Session {
    /// Where in the protocol the session stands.
    pub state: ProtocolState,
    /// The session identifier, held exactly from the ready dispatch until
    /// an invalidation; a resume is legitimate exactly while it is held.
    pub session_id: Option<String>,
    /// The highest dispatch sequence number observed this session.
    pub last_sequence: u64,
    /// Milliseconds between heartbeats, as the hello frame fixed it.
    pub heartbeat_interval: u64,
    /// Whether the heartbeat task of this connection is alive.
    pub heartbeat_live: bool,
    /// The frozen identify frame text, replayed verbatim on re-identify.
    pub identify: String,
    /// The bearer token, used again when resuming.
    pub token: String,
    /// The websocket URL this connection was opened against.
    pub url: String,
}

/// How many heartbeat tasks a session holds alive.
pub open spec fn hb_live(s: Session) -> int {
    if s.heartbeat_live {
        1
    } else {
        0
    }
}

/// The beginning of a resume: the frame to send on the fresh websocket,
/// and the actions to carry out beforehand.
#[derive(Debug)]
pub struct ResumeStart {
    /// The resume frame text.
    pub frame: String,
    /// The actions to carry out before sending.
    pub actions: Vec<Action>,
}

impl Session {
    /// Well-formedness: before the hello frame arrived no heartbeat task
    /// can have been started.
    pub open spec fn wf(self) -> bool {
        self.state == ProtocolState::AwaitingHello ==> !self.heartbeat_live
    }

    /// A fresh session about to handshake: no identity, sequence seeded to
    /// zero, no heartbeat task yet.
    pub fn begin(url: String, token: String, identify: String) -> (r: Session)
        ensures
            r.wf(),
            r.state == ProtocolState::AwaitingHello,
            r.session_id is None,
            r.last_sequence == 0,
            r.heartbeat_live == false,
            r.identify@ == identify@,
            r.token@ == token@,
            r.url@ == url@,
    {
        Session {
            state: ProtocolState::AwaitingHello,
            session_id: None,
            last_sequence: 0,
            heartbeat_interval: 0,
            heartbeat_live: false,
            identify,
            token,
            url,
        }
    }

    /// Consume one decoded inbound frame and advance the protocol.
    ///
    /// The returned actions must be carried out in order before the next
    /// frame is consumed.
    pub fn handle_frame(&mut self, frame: GatewayFrame) -> (r: (Step, Vec<Action>))
        requires
            old(self).wf(),
        ensures
            final(self).wf(),
            // The observed sequence number never decreases across
            // dispatches: once the session streams or resumes, it can
            // only grow; the handshake's ready dispatch seeds it.
            old(self).state == ProtocolState::Streaming || old(self).state
                == ProtocolState::Resuming ==> final(self).last_sequence >= old(self).last_sequence,
            old(self).state == ProtocolState::AwaitingHello || old(self).state
                == ProtocolState::Closed ==> final(self).last_sequence == old(self).last_sequence,
            // Heartbeat commands keep at most one task alive, and the
            // session's record of it stays in step.
            hb_discipline(hb_live(*old(self)), r.1@),
            hb_after(hb_live(*old(self)), r.1@) == hb_live(*final(self)),
            hb_live(*final(self)) <= 1,
            // Only a hello frame ever re-programs the heartbeat cadence.
            !(frame matches GatewayFrame::Hello { .. }) ==> final(self).heartbeat_interval == old(self).heartbeat_interval,
            // The frozen connection data never changes.
            final(self).identify@ == old(self).identify@,
            final(self).token@ == old(self).token@,
            final(self).url@ == old(self).url@,
            // A closed session consumes nothing.
            old(self).state == ProtocolState::Closed ==> (r.0 matches Step::Fatal(
                Error::Protocol(_),
            )) && *final(self) == *old(self) && r.1@.len() == 0,
            // Handshake: only the hello frame is admitted first, and it
            // starts the heartbeat and sends the frozen identify.
            old(self).state == ProtocolState::AwaitingHello ==> (match frame {
                GatewayFrame::Hello { heartbeat_interval } => final(self).state == (
                ProtocolState::AwaitingReady { retried: false }) && final(self).heartbeat_interval
                    == heartbeat_interval && final(self).heartbeat_live && r.1@.len() == 2
                    && r.1@[0] == (Action::StartHeartbeat { interval_ms: heartbeat_interval }) && (
                r.1@[1] matches Action::SendFrame(t) && t@ == old(self).identify@) && r.0 matches
                    Step::Continue,
                _ => r.0 matches Step::Fatal(Error::Protocol(_)) && final(self).state
                    == ProtocolState::Closed && final(self).session_id == old(self).session_id
                    && r.1@.len() == 0,
            }),
            // Awaiting ready: a ready dispatch records the session and
            // seeds the sequence; a first invalidation retries the
            // identify exactly once; a second one is fatal; anything else
            // is a protocol error.
            old(self).state matches ProtocolState::AwaitingReady { retried } ==> (match frame {
                GatewayFrame::Dispatch(d) => if d.ready is Some {
                    &&& final(self).state == ProtocolState::Streaming
                    &&& (final(self).session_id matches Some(sid) && sid@
                        == d.ready->0.session_id@)
                    &&& final(self).last_sequence == d.sequence
                    &&& r.1@.len() == 1
                    &&& r.1@[0] == Action::HeartbeatSequence(d.sequence)
                    &&& (r.0 matches Step::Ready(e) && e.sequence == d.sequence && e.name == d.name
                        && e.ready == d.ready && e.payload == d.payload)
                } else {
                    r.0 matches Step::Fatal(Error::Protocol(_)) && final(self).state
                        == ProtocolState::Closed && final(self).session_id == old(self).session_id
                        && r.1@.len() == 0
                },
                GatewayFrame::InvalidateSession => if !retried {
                    final(self).state == (ProtocolState::AwaitingReady { retried: true })
                        && r.1@.len() == 1 && (r.1@[0] matches Action::SendFrame(t) && t@ == old(self).identify@) && r.0 matches Step::Continue
                } else {
                    r.0 matches Step::Fatal(Error::Protocol(_)) && final(self).state
                        == ProtocolState::Closed && final(self).session_id == old(self).session_id
                        && r.1@.len() == 0
                },
                _ => r.0 matches Step::Fatal(Error::Protocol(_)) && final(self).state
                    == ProtocolState::Closed && final(self).session_id == old(self).session_id
                    && r.1@.len() == 0,
            }),
            // Streaming: dispatches advance the sequence monotonically and
            // are yielded after the heartbeat task learned the sequence; a
            // requested heartbeat is answered at once; an invalidation
            // clears the session and re-identifies; a reconnect demand
            // closes the session.
            old(self).state == ProtocolState::Streaming ==> (match frame {
                GatewayFrame::Dispatch(d) => {
                    &&& final(self).last_sequence == (if d.sequence > old(self).last_sequence {
                        d.sequence
                    } else {
                        old(self).last_sequence
                    })
                    &&& final(self).state == ProtocolState::Streaming
                    &&& (d.ready matches Some(rd) ==> final(self).session_id matches Some(sid)
                        && sid@ == rd.session_id@)
                    &&& (d.ready is None ==> final(self).session_id == old(self).session_id)
                    &&& r.1@.len() == 1
                    &&& r.1@[0] == Action::HeartbeatSequence(final(self).last_sequence)
                    &&& (r.0 matches Step::Event(e) && e.sequence == d.sequence && e.name == d.name
                        && e.ready == d.ready && e.payload == d.payload)
                },
                GatewayFrame::HeartbeatRequest { .. } => *final(self) == *old(self) && r.1@.len()
                    == 1 && (r.1@[0] matches Action::SendFrame(t) && t@ == heartbeat_json(
                    Some(old(self).last_sequence),
                )) && r.0 matches Step::Continue,
                GatewayFrame::HeartbeatAck => *final(self) == *old(self) && r.1@.len() == 0 && r.0
                    matches Step::Continue,
                GatewayFrame::Hello { .. } => *final(self) == *old(self) && r.1@.len() == 0 && r.0
                    matches Step::Continue,
                GatewayFrame::Reconnect => final(self).state == ProtocolState::Closed && final(self).heartbeat_live == false && r.1@ == (if old(self).heartbeat_live {
                    seq![Action::StopHeartbeat]
                } else {
                    Seq::<Action>::empty()
                }) && (r.0 matches Step::Reconnect),
                GatewayFrame::InvalidateSession => final(self).session_id is None && final(self).state == ProtocolState::Streaming && r.1@.len() == 1 && (r.1@[0] matches
                    Action::SendFrame(t) && t@ == old(self).identify@) && r.0 matches
                    Step::Continue,
            }),
            // Resuming: a hello re-programs the heartbeat; the first
            // dispatch ends the resume and is yielded to the caller; an
            // invalidation re-identifies; anything else is fatal.
            old(self).state == ProtocolState::Resuming ==> (match frame {
                GatewayFrame::Hello { heartbeat_interval } => {
                    &&& final(self).state == ProtocolState::Resuming
                    &&& final(self).heartbeat_interval == heartbeat_interval
                    &&& final(self).heartbeat_live
                    &&& r.1@.len() == 1
                    &&& (if old(self).heartbeat_live {
                        r.1@[0] == Action::HeartbeatInterval(heartbeat_interval)
                    } else {
                        r.1@[0] == (Action::StartHeartbeat { interval_ms: heartbeat_interval })
                    })
                    &&& r.0 matches Step::Continue
                },
                GatewayFrame::Dispatch(d) => {
                    &&& final(self).state == ProtocolState::Streaming
                    &&& final(self).last_sequence == (if d.sequence > old(self).last_sequence {
                        d.sequence
                    } else {
                        old(self).last_sequence
                    })
                    &&& (d.ready matches Some(rd) ==> final(self).session_id matches Some(sid)
                        && sid@ == rd.session_id@)
                    &&& (d.ready is None ==> final(self).session_id == old(self).session_id)
                    &&& r.1@.len() == 1
                    &&& r.1@[0] == Action::HeartbeatSequence(final(self).last_sequence)
                    &&& (r.0 matches Step::Event(e) && e.sequence == d.sequence && e.name == d.name
                        && e.ready == d.ready && e.payload == d.payload)
                },
                GatewayFrame::InvalidateSession => final(self).state == ProtocolState::Resuming
                    && r.1@.len() == 1 && (r.1@[0] matches Action::SendFrame(t) && t@ == old(self).identify@) && r.0 matches Step::Continue,
                _ => r.0 matches Step::Fatal(Error::Protocol(_)) && final(self).state
                    == ProtocolState::Closed && r.1@.len() == 0,
            }),
    {
        proof {
            broadcast use lemma_hb_empty, lemma_hb_after_push, lemma_hb_discipline_push;

        }
        let mut actions: Vec<Action> = Vec::new();
        match self.state {
            ProtocolState::Closed => {
                let step = Step::Fatal(
                    Error::Protocol(String::from_str("the connection is closed")),
                );
                (step, actions)
            },
            ProtocolState::AwaitingHello => {
                match frame {
                    GatewayFrame::Hello { heartbeat_interval } => {
                        self.state = ProtocolState::AwaitingReady { retried: false };
                        self.heartbeat_interval = heartbeat_interval;
                        self.heartbeat_live = true;
                        actions.push(Action::StartHeartbeat { interval_ms: heartbeat_interval });
                        actions.push(Action::SendFrame(self.identify.clone()));
                        (Step::Continue, actions)
                    },
                    _ => {
                        self.state = ProtocolState::Closed;
                        let step = Step::Fatal(
                            Error::Protocol(
                                String::from_str("expected the hello frame during the handshake"),
                            ),
                        );
                        (step, actions)
                    },
                }
            },
            ProtocolState::AwaitingReady { retried } => {
                match frame {
                    GatewayFrame::Dispatch(d) => {
                        if d.ready.is_some() {
                            let sid = match &d.ready {
                                Some(rd) => rd.session_id.clone(),
                                None => String::new(),
                            };
                            self.session_id = Some(sid);
                            self.last_sequence = d.sequence;
                            self.state = ProtocolState::Streaming;
                            actions.push(Action::HeartbeatSequence(d.sequence));
                            (Step::Ready(d), actions)
                        } else {
                            self.state = ProtocolState::Closed;
                            let step = Step::Fatal(
                                Error::Protocol(
                                    String::from_str("expected a ready dispatch after identify"),
                                ),
                            );
                            (step, actions)
                        }
                    },
                    GatewayFrame::InvalidateSession => {
                        if !retried {
                            self.state = ProtocolState::AwaitingReady { retried: true };
                            actions.push(Action::SendFrame(self.identify.clone()));
                            (Step::Continue, actions)
                        } else {
                            self.state = ProtocolState::Closed;
                            let step = Step::Fatal(
                                Error::Protocol(
                                    String::from_str(
                                        "the session was invalidated twice during one handshake",
                                    ),
                                ),
                            );
                            (step, actions)
                        }
                    },
                    _ => {
                        self.state = ProtocolState::Closed;
                        let step = Step::Fatal(
                            Error::Protocol(
                                String::from_str("unexpected frame during the handshake"),
                            ),
                        );
                        (step, actions)
                    },
                }
            },
            ProtocolState::Streaming => {
                match frame {
                    GatewayFrame::Dispatch(d) => {
                        if d.sequence > self.last_sequence {
                            self.last_sequence = d.sequence;
                        }
                        if let Some(rd) = &d.ready {
                            self.session_id = Some(rd.session_id.clone());
                        }
                        actions.push(Action::HeartbeatSequence(self.last_sequence));
                        (Step::Event(d), actions)
                    },
                    GatewayFrame::HeartbeatRequest { .. } => {
                        let beat = crate::wire::heartbeat_frame(Some(self.last_sequence));
                        actions.push(Action::SendFrame(beat));
                        (Step::Continue, actions)
                    },
                    GatewayFrame::HeartbeatAck => (Step::Continue, actions),
                    GatewayFrame::Hello { .. } => {
                        // A mid-stream hello is noted and otherwise ignored.
                        (Step::Continue, actions)
                    },
                    GatewayFrame::Reconnect => {
                        if self.heartbeat_live {
                            self.heartbeat_live = false;
                            actions.push(Action::StopHeartbeat);
                        }
                        self.state = ProtocolState::Closed;
                        (Step::Reconnect, actions)
                    },
                    GatewayFrame::InvalidateSession => {
                        self.session_id = None;
                        actions.push(Action::SendFrame(self.identify.clone()));
                        (Step::Continue, actions)
                    },
                }
            },
            ProtocolState::Resuming => {
                match frame {
                    GatewayFrame::Hello { heartbeat_interval } => {
                        self.heartbeat_interval = heartbeat_interval;
                        if self.heartbeat_live {
                            actions.push(Action::HeartbeatInterval(heartbeat_interval));
                        } else {
                            self.heartbeat_live = true;
                            actions.push(
                                Action::StartHeartbeat { interval_ms: heartbeat_interval },
                            );
                        }
                        (Step::Continue, actions)
                    },
                    GatewayFrame::Dispatch(d) => {
                        if d.sequence > self.last_sequence {
                            self.last_sequence = d.sequence;
                        }
                        if let Some(rd) = &d.ready {
                            self.session_id = Some(rd.session_id.clone());
                        }
                        self.state = ProtocolState::Streaming;
                        actions.push(Action::HeartbeatSequence(self.last_sequence));
                        (Step::Event(d), actions)
                    },
                    GatewayFrame::InvalidateSession => {
                        actions.push(Action::SendFrame(self.identify.clone()));
                        (Step::Continue, actions)
                    },
                    _ => {
                        self.state = ProtocolState::Closed;
                        let step = Step::Fatal(
                            Error::Protocol(String::from_str("unexpected frame during resume")),
                        );
                        (step, actions)
                    },
                }
            },
        }
    }

    /// Whether a dropped transport may be recovered by resuming: a session
    /// identifier must be held, and a peer close with the session-timeout
    /// status forbids it.
    pub fn may_resume(&self, close_code: Option<u16>) -> (r: bool)
        ensures
            r == (self.session_id is Some && close_code != Some(4006u16)),
    {
        if self.session_id.is_none() {
            return false;
        }
        match close_code {
            Some(code) => code != 4006,
            None => true,
        }
    }

    /// Begin a resume: stop the heartbeat task and build the resume frame
    /// for the fresh websocket.  Yields nothing — leaving the session
    /// untouched — exactly when no session identifier is held.
    pub fn begin_resume(&mut self) -> (r: Option<ResumeStart>)
        ensures
            r is Some <==> old(self).session_id is Some,
            r is None ==> *final(self) == *old(self),
            r matches Some(start) ==> {
                &&& start.frame@ == resume_json(
                    old(self).token@,
                    old(self).session_id->0@,
                    old(self).last_sequence,
                )
                &&& final(self).state == ProtocolState::Resuming
                &&& final(self).heartbeat_live == false
                &&& start.actions@ == (if old(self).heartbeat_live {
                    seq![Action::StopHeartbeat]
                } else {
                    Seq::<Action>::empty()
                })
                &&& hb_discipline(hb_live(*old(self)), start.actions@)
                &&& hb_after(hb_live(*old(self)), start.actions@) == 0
                &&& final(self).session_id == old(self).session_id
                &&& final(self).last_sequence == old(self).last_sequence
                &&& final(self).identify@ == old(self).identify@
                &&& final(self).token@ == old(self).token@
                &&& final(self).url@ == old(self).url@
            },
    {
        proof {
            broadcast use lemma_hb_empty, lemma_hb_after_push, lemma_hb_discipline_push;

        }
        let sid = match &self.session_id {
            Some(sid) => sid.clone(),
            None => {
                return None;
            },
        };
        let frame = crate::wire::resume_frame(
            self.token.as_str(),
            sid.as_str(),
            self.last_sequence,
        );
        let mut actions: Vec<Action> = Vec::new();
        if self.heartbeat_live {
            self.heartbeat_live = false;
            actions.push(Action::StopHeartbeat);
        }
        self.state = ProtocolState::Resuming;
        Some(ResumeStart { frame, actions })
    }

    /// Close the session: stop the heartbeat task and consume no further
    /// frame.  Dropping the connection runs this.
    pub fn close(&mut self) -> (r: Vec<Action>)
        ensures
            final(self).state == ProtocolState::Closed,
            final(self).heartbeat_live == false,
            r@ == (if old(self).heartbeat_live {
                seq![Action::StopHeartbeat]
            } else {
                Seq::<Action>::empty()
            }),
            hb_discipline(hb_live(*old(self)), r@),
            hb_after(hb_live(*old(self)), r@) == 0,
    {
        proof {
            broadcast use lemma_hb_empty, lemma_hb_after_push, lemma_hb_discipline_push;

        }
        let mut actions: Vec<Action> = Vec::new();
        if self.heartbeat_live {
            self.heartbeat_live = false;
            actions.push(Action::StopHeartbeat);
        }
        self.state = ProtocolState::Closed;
        actions
    }
}

/// One attempt of the reconnect schedule: how long to sleep first, and
/// whether to ask the REST control plane for a fresh gateway URL instead
/// of reusing the known one.
#[derive(Debug, Clone, PartialEq, Eq, Structural)]
pub struct ReconnectAttempt {
    /// Milliseconds to sleep before the attempt.
    pub delay_ms: u64,
    /// Whether to rediscover the gateway URL over REST first.
    pub rediscover_url: bool,
}

/// The reconnect schedule: two attempts against the known URL with
/// one-second gaps, then one attempt against a freshly discovered URL;
/// after that the connection is given up.
pub fn reconnect_attempt(attempt: u8) -> (r: Option<ReconnectAttempt>)
    ensures
        attempt == 0 ==> r == Some(ReconnectAttempt { delay_ms: 1000u64, rediscover_url: false }),
        attempt == 1 ==> r == Some(ReconnectAttempt { delay_ms: 1000u64, rediscover_url: false }),
        attempt == 2 ==> r == Some(ReconnectAttempt { delay_ms: 1000u64, rediscover_url: true }),
        attempt >= 3 ==> r is None,
{
    if attempt < 2 {
        Some(ReconnectAttempt { delay_ms: 1000, rediscover_url: false })
    } else if attempt == 2 {
        Some(ReconnectAttempt { delay_ms: 1000, rediscover_url: true })
    } else {
        None
    }
}

} // verus!
