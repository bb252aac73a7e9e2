//! The per-connection state machine: handshake, heartbeat and frame
//! handling. The socket loop outside performs what it decides.
use vstd::prelude::*;

verus! {

/// A ping goes out after this long without one (ms).
pub const PING_INTERVAL_MS: u64 = 30000;

/// A peer silent for this long since its last pong is dead (ms).
pub const PONG_TIMEOUT_MS: u64 = 60000;

/// Longest wait for an inbound frame per loop turn (ms).
pub const READ_TIMEOUT_MS: u64 = 100;

/// Longest wait for an outbound write (ms).
pub const WRITE_TIMEOUT_MS: u64 = 5000;

/// Delay before `pluginMetadata` goes to a new client (ms).
pub const METADATA_DELAY_MS: u64 = 200;

/// Further delay before the editor-state burst (ms).
pub const STATE_DELAY_MS: u64 = 50;

/// Connection states.
#[derive(Debug, Clone, Copy, PartialEq, Eq)]
pub enum ConnState {
    Handshake,
    Authenticated,
    Open,
    Closing,
    Closed,
}

/// Time elapsed from `since` to `now`; zero if the clock seems to go back.
pub open spec fn elapsed(now: u64, since: u64) -> int {
    if now >= since {
        now - since
    } else {
        0
    }
}

/// What one turn of the loop does before reading.
#[derive(Debug, Clone, Copy, PartialEq, Eq)]
pub struct Tick {
    pub send_ping: bool,
    pub close: bool,
}

/// An inbound frame, as far as the state machine needs it.
#[derive(Debug)]
pub enum Frame {
    Text(String),
    Binary,
    Ping(Vec<u8>),
    Pong,
    Close,
}

/// What to do with an inbound frame.
#[derive(Debug)]
pub enum FrameAction {
    /// Hand the text to the router; write its response, if any.
    Route(String),
    /// Answer with a pong carrying the same payload.
    Pong(Vec<u8>),
    /// Echo a close frame and stop.
    Close,
    /// Nothing.
    Ignore,
}

/// One live connection.
#[derive(Debug)]
pub struct Connection {
    pub state: ConnState,
    pub last_ping_ms: u64,
    pub last_pong_ms: u64,
}

impl Connection {
    /// A connection opened at `now`: both heartbeat clocks start there.
    pub fn open(now: u64) -> (r: Connection)
        ensures
            r.state == ConnState::Open,
            r.last_ping_ms == now,
            r.last_pong_ms == now,
    {
        Connection { state: ConnState::Open, last_ping_ms: now, last_pong_ms: now }
    }

    /// Heartbeat step at `now`: ping after 30 s since the last ping; close
    /// after 60 s without a pong.
    pub fn tick(&mut self, now: u64) -> (r: Tick)
        ensures
            r.send_ping == (elapsed(now, old(self).last_ping_ms) >= PING_INTERVAL_MS),
            r.close == (elapsed(now, old(self).last_pong_ms) >= PONG_TIMEOUT_MS),
            final(self).last_ping_ms == if r.send_ping { now } else { old(self).last_ping_ms },
            final(self).last_pong_ms == old(self).last_pong_ms,
            final(self).state == if r.close { ConnState::Closing } else { old(self).state },
    {
        let since_ping = if now >= self.last_ping_ms { now - self.last_ping_ms } else { 0 };
        let since_pong = if now >= self.last_pong_ms { now - self.last_pong_ms } else { 0 };
        let send_ping = since_ping >= PING_INTERVAL_MS;
        if send_ping {
            self.last_ping_ms = now;
        }
        let close = since_pong >= PONG_TIMEOUT_MS;
        if close {
            self.state = ConnState::Closing;
        }
        Tick { send_ping, close }
    }

    /// Handles an inbound frame received at `now`.
    pub fn on_frame(&mut self, frame: Frame, now: u64) -> (r: FrameAction)
        ensures
            match frame {
                Frame::Text(t) => r matches FrameAction::Route(u) && u == t,
                Frame::Ping(p) => r matches FrameAction::Pong(q) && q@ == p@,
                Frame::Pong => r is Ignore,
                Frame::Close => r is Close,
                Frame::Binary => r is Ignore,
            },
            final(self).last_pong_ms == if frame is Pong { now } else { old(self).last_pong_ms },
            final(self).last_ping_ms == old(self).last_ping_ms,
            final(self).state == if frame is Close { ConnState::Closing } else { old(self).state },
    {
        match frame {
            Frame::Text(t) => FrameAction::Route(t),
            Frame::Ping(p) => FrameAction::Pong(p),
            Frame::Pong => {
                self.last_pong_ms = now;
                FrameAction::Ignore
            },
            Frame::Close => {
                self.state = ConnState::Closing;
                FrameAction::Close
            },
            Frame::Binary => FrameAction::Ignore,
        }
    }

    /// A read or write failed with something other than a timeout.
    pub fn on_io_error(&mut self)
        ensures
            final(self).state == ConnState::Closing,
            final(self).last_ping_ms == old(self).last_ping_ms,
            final(self).last_pong_ms == old(self).last_pong_ms,
    {
        self.state = ConnState::Closing;
    }

    /// The graceful close was attempted; the connection is gone.
    pub fn finish(&mut self)
        ensures
            final(self).state == ConnState::Closed,
    {
        self.state = ConnState::Closed;
    }
}

/// A peer that never answers pings is let go between 60 s after its last
/// pong and one read timeout later, when the loop turns at least once per
/// read timeout: a tick before the deadline keeps it, the first tick at or
/// after the deadline closes it.
pub proof fn law_dead_peer_window(last_pong: u64, prev: u64, now: u64)
    requires
        last_pong <= prev <= now,
        prev - last_pong < PONG_TIMEOUT_MS,
        now - prev <= READ_TIMEOUT_MS,
        now - last_pong >= PONG_TIMEOUT_MS,
    ensures
        elapsed(prev, last_pong) < PONG_TIMEOUT_MS,
        elapsed(now, last_pong) >= PONG_TIMEOUT_MS,
        PONG_TIMEOUT_MS <= now - last_pong < PONG_TIMEOUT_MS + READ_TIMEOUT_MS,
{
}

} // verus!
