use vstd::prelude::*;

use crate::packet::{model_datalog, Packet, PacketModel};
use crate::serial::Serial;

verus! {

/// Wait before the first reconnect, and after a successful frame.
pub const INITIAL_BACKOFF_MS: u64 = 1000;

/// Longest wait between two connection attempts.
pub const MAX_BACKOFF_MS: u64 = 60000;

/// The wait after `b`: doubled, capped at a minute.
pub open spec fn next_backoff(b: u64) -> u64 {
    if b >= MAX_BACKOFF_MS / 2 {
        MAX_BACKOFF_MS
    } else {
        (2 * b) as u64
    }
}

#[derive(Clone, Copy, Debug, PartialEq, Eq, Structural)]
pub enum SessionState {
    Disconnected,
    /// The socket is open; no frame has been read yet.
    Connecting,
    Connected,
}

/// What happened to the connection.
#[derive(Debug)]
pub enum SessionEvent {
    /// Time to (re)connect.
    Start,
    /// The TCP connection was opened.
    Opened,
    /// Opening the connection failed.
    OpenFailed,
    /// A whole frame was read and decoded.
    Frame(Packet),
    /// No bytes arrived within the read timeout.
    ReadTimeout,
    /// Reading from the socket failed or it was closed.
    ReadFailed,
    /// Writing to the socket failed.
    WriteFailed,
    /// Another component asked for a reconnect.
    DisconnectRequested,
}

/// What the session asks its driver to do.
#[derive(Debug)]
pub enum SessionAction {
    /// Open the connection after waiting this long.
    Open { delay_ms: u64 },
    /// Close the socket.
    Close,
    /// Announce that the datalog is connected.
    AnnounceConnected(Serial),
    /// Forward a frame to the inbound bus.
    Forward(Packet),
    /// Send a packet back to the inverter.
    Reply(Packet),
    /// Announce that the inverter's connection was lost.
    AnnounceDisconnect,
}

pub enum ActionModel {
    Open(u64),
    Close,
    AnnounceConnected(Seq<u8>),
    Forward(PacketModel),
    Reply(PacketModel),
    AnnounceDisconnect,
}

impl View for SessionAction {
    type V = ActionModel;

    open spec fn view(&self) -> ActionModel {
        match self {
            SessionAction::Open { delay_ms } => ActionModel::Open(*delay_ms),
            SessionAction::Close => ActionModel::Close,
            SessionAction::AnnounceConnected(s) => ActionModel::AnnounceConnected(s@),
            SessionAction::Forward(p) => ActionModel::Forward(p@),
            SessionAction::Reply(p) => ActionModel::Reply(p@),
            SessionAction::AnnounceDisconnect => ActionModel::AnnounceDisconnect,
        }
    }
}

pub open spec fn actions_view(v: Seq<SessionAction>) -> Seq<ActionModel> {
    v.map_values(|a: SessionAction| a@)
}

/// The connection decisions of one inverter session: state, reconnect backoff, and
/// whether heartbeats are echoed.
pub struct Session {
    pub state: SessionState,
    pub backoff_ms: u64,
    pub heartbeats: bool,
}

impl Session {
    pub open spec fn wf(&self) -> bool {
        INITIAL_BACKOFF_MS <= self.backoff_ms <= MAX_BACKOFF_MS
    }

    pub fn new(heartbeats: bool) -> (r: Session)
        ensures
            r.wf(),
            r.state == SessionState::Disconnected,
            r.backoff_ms == INITIAL_BACKOFF_MS,
            r.heartbeats == heartbeats,
    {
        Session { state: SessionState::Disconnected, backoff_ms: INITIAL_BACKOFF_MS, heartbeats }
    }

    /// Applies one event and says what to do: a frame connects the session, is forwarded
    /// and resets the backoff (a heartbeat is echoed when enabled); a failure or timeout
    /// closes the socket and reopens it after the current backoff, which then doubles up
    /// to a minute.
    pub fn on_event(&mut self, event: SessionEvent) -> (r: Vec<SessionAction>)
        requires
            old(self).wf(),
        ensures
            final(self).wf(),
            final(self).heartbeats == old(self).heartbeats,
            match event {
                SessionEvent::Start => final(self).state == SessionState::Disconnected
                    && final(self).backoff_ms == old(self).backoff_ms && actions_view(r@) == seq![
                    ActionModel::Open(old(self).backoff_ms),
                ],
                SessionEvent::Opened => final(self).state == SessionState::Connecting
                    && final(self).backoff_ms == old(self).backoff_ms && r@.len() == 0,
                SessionEvent::Frame(p) => {
                    &&& final(self).state == SessionState::Connected
                    &&& final(self).backoff_ms == INITIAL_BACKOFF_MS
                    &&& actions_view(r@) == (if old(self).state != SessionState::Connected {
                        seq![ActionModel::AnnounceConnected(model_datalog(p@))]
                    } else {
                        Seq::empty()
                    }) + seq![ActionModel::Forward(p@)] + (if old(self).heartbeats && p is Heartbeat {
                        seq![ActionModel::Reply(p@)]
                    } else {
                        Seq::empty()
                    })
                },
                SessionEvent::OpenFailed => final(self).state == SessionState::Disconnected
                    && final(self).backoff_ms == next_backoff(old(self).backoff_ms) && actions_view(
                    r@,
                ) == seq![ActionModel::Open(old(self).backoff_ms)],
                SessionEvent::WriteFailed => final(self).state == SessionState::Disconnected
                    && final(self).backoff_ms == next_backoff(old(self).backoff_ms) && actions_view(
                    r@,
                ) == seq![
                    ActionModel::Close,
                    ActionModel::AnnounceDisconnect,
                    ActionModel::Open(old(self).backoff_ms),
                ],
                _ => final(self).state == SessionState::Disconnected && final(self).backoff_ms
                    == next_backoff(old(self).backoff_ms) && actions_view(r@) == seq![
                    ActionModel::Close,
                    ActionModel::Open(old(self).backoff_ms),
                ],
            },
    {
        let mut r: Vec<SessionAction> = Vec::new();
        let backoff = self.backoff_ms;
        let doubled = if backoff >= MAX_BACKOFF_MS / 2 {
            MAX_BACKOFF_MS
        } else {
            2 * backoff
        };
        match event {
            SessionEvent::Start => {
                r.push(SessionAction::Open { delay_ms: backoff });
                self.state = SessionState::Disconnected;
            },
            SessionEvent::Opened => {
                self.state = SessionState::Connecting;
            },
            SessionEvent::Frame(p) => {
                if self.state != SessionState::Connected {
                    r.push(SessionAction::AnnounceConnected(p.datalog()));
                }
                let echo = self.heartbeats && matches!(p, Packet::Heartbeat(_));
                if echo {
                    let q = p.copied();
                    r.push(SessionAction::Forward(p));
                    r.push(SessionAction::Reply(q));
                } else {
                    r.push(SessionAction::Forward(p));
                }
                self.state = SessionState::Connected;
                self.backoff_ms = INITIAL_BACKOFF_MS;
            },
            SessionEvent::OpenFailed => {
                r.push(SessionAction::Open { delay_ms: backoff });
                self.state = SessionState::Disconnected;
                self.backoff_ms = doubled;
            },
            SessionEvent::WriteFailed => {
                r.push(SessionAction::Close);
                r.push(SessionAction::AnnounceDisconnect);
                r.push(SessionAction::Open { delay_ms: backoff });
                self.state = SessionState::Disconnected;
                self.backoff_ms = doubled;
            },
            _ => {
                r.push(SessionAction::Close);
                r.push(SessionAction::Open { delay_ms: backoff });
                self.state = SessionState::Disconnected;
                self.backoff_ms = doubled;
            },
        }
        r
    }
}

} // verus!
