//! The link to the cloud: what each message does, and when to reconnect.
//!
//! The runtime owns the socket and the clock. It asks [`Backoff`] what to
//! publish and how long to wait, and hands each parsed message to
//! [`handle_message`], which says what to send and broadcast.
use vstd::prelude::*;
use vstd::string::*;
use crate::display::{
    announced_foul_out, expiries_fit, scored, updated_display, DisplayEngine, TimerActions,
};
use crate::models::{CloudMessage, ConnectionStatus, MatchConfig};
use crate::text::{decimal, push_decimal};

verus! {

/// Seconds before the first reconnection attempt.
pub const INITIAL_RETRY_DELAY_SECS: u64 = 2;

/// The longest wait between reconnection attempts, in seconds.
pub const MAX_RETRY_DELAY_SECS: u64 = 30;

/// Reconnection state: how long to wait next and how many attempts have
/// failed since the last successful connection.
#[derive(Debug, Clone, Copy, PartialEq, Eq, Structural)]
pub struct Backoff {
    pub retry_delay_secs: u64,
    pub retry_count: u32,
}

/// Twice the delay, but no more than [`MAX_RETRY_DELAY_SECS`].
pub open spec fn doubled_delay(secs: u64) -> u64 {
    if 2 * secs <= MAX_RETRY_DELAY_SECS {
        (2 * secs) as u64
    } else {
        MAX_RETRY_DELAY_SECS
    }
}

impl Backoff {
    /// The delay lies between the initial and the maximal one.
    pub open spec fn wf(self) -> bool {
        INITIAL_RETRY_DELAY_SECS <= self.retry_delay_secs <= MAX_RETRY_DELAY_SECS
    }

    /// The state of a fresh start.
    pub fn new() -> (b: Self)
        ensures
            b.retry_delay_secs == INITIAL_RETRY_DELAY_SECS,
            b.retry_count == 0,
            b.wf(),
    {
        Backoff { retry_delay_secs: INITIAL_RETRY_DELAY_SECS, retry_count: 0 }
    }

    /// The status to publish while an attempt is under way.
    pub fn connecting_status(&self) -> (s: ConnectionStatus)
        ensures
            s == if self.retry_count == 0 {
                ConnectionStatus::Disconnected { error: None }
            } else {
                ConnectionStatus::Reconnecting { retry_count: self.retry_count }
            },
    {
        if self.retry_count == 0 {
            ConnectionStatus::Disconnected { error: None }
        } else {
            ConnectionStatus::Reconnecting { retry_count: self.retry_count }
        }
    }

    /// A connection succeeded: the backoff starts over.
    pub fn on_connected(&mut self) -> (s: ConnectionStatus)
        ensures
            s == ConnectionStatus::Connected,
            final(self).retry_delay_secs == INITIAL_RETRY_DELAY_SECS,
            final(self).retry_count == 0,
            final(self).wf(),
    {
        self.retry_delay_secs = INITIAL_RETRY_DELAY_SECS;
        self.retry_count = 0;
        ConnectionStatus::Connected
    }

    /// An attempt failed or a connection ended: one more failure counts.
    pub fn on_connection_lost(&mut self) -> (s: ConnectionStatus)
        requires
            old(self).retry_count < u32::MAX,
        ensures
            s matches ConnectionStatus::Disconnected { error: Some(e) } && e@
                == "Connection lost"@,
            final(self).retry_count == old(self).retry_count + 1,
            final(self).retry_delay_secs == old(self).retry_delay_secs,
    {
        self.retry_count = self.retry_count + 1;
        ConnectionStatus::Disconnected { error: Some(String::from_str("Connection lost")) }
    }

    /// The wait before the next attempt is over. A reconnect signal cut it
    /// short and resets the backoff; a full wait doubles the delay up to
    /// [`MAX_RETRY_DELAY_SECS`].
    pub fn after_wait(&mut self, signalled: bool)
        requires
            old(self).wf(),
        ensures
            final(self).wf(),
            signalled ==> final(self).retry_delay_secs == INITIAL_RETRY_DELAY_SECS
                && final(self).retry_count == 0,
            !signalled ==> final(self).retry_delay_secs == doubled_delay(
                old(self).retry_delay_secs,
            ) && final(self).retry_count == old(self).retry_count,
    {
        if signalled {
            self.retry_delay_secs = INITIAL_RETRY_DELAY_SECS;
            self.retry_count = 0;
        } else {
            let doubled = self.retry_delay_secs * 2;
            self.retry_delay_secs = if doubled <= MAX_RETRY_DELAY_SECS {
                doubled
            } else {
                MAX_RETRY_DELAY_SECS
            };
        }
    }
}

/// The reply to a ping: `{"timestamp":…,"type":"pong"}`, the timestamp
/// echoed or `null`.
pub open spec fn pong_text(timestamp: Option<u64>) -> Seq<char> {
    "{\"timestamp\":"@ + match timestamp {
        Some(t) => decimal(t as nat),
        None => "null"@,
    } + ",\"type\":\"pong\"}"@
}

/// The reply to a ping.
pub fn pong_message(timestamp: Option<u64>) -> (s: String)
    ensures
        s@ == pong_text(timestamp),
{
    let mut s = String::from_str("{\"timestamp\":");
    match timestamp {
        Some(t) => push_decimal(&mut s, t),
        None => s.append("null"),
    }
    s.append(",\"type\":\"pong\"}");
    s
}

/// What the runtime must do after a message.
#[derive(Debug)]
pub struct MessageEffects {
    /// Timers to restart.
    pub timers: TimerActions,
    /// Push the game state and display to their subscribers (and the dock).
    pub broadcast_display: bool,
    /// Push the dock state only.
    pub broadcast_dock: bool,
    /// Text to send back to the cloud.
    pub reply: Option<String>,
}

/// The effect a message may have on the engine's clock-dependent timers
/// fits in 64-bit milliseconds.
pub open spec fn message_expiries_fit(engine: DisplayEngine, msg: CloudMessage, now_ms: u64) -> bool {
    msg matches CloudMessage::State { game_state, .. } ==> expiries_fit(
        engine.match_config,
        engine.game_state,
        game_state,
        now_ms,
    )
}

/// Apply a message from the cloud.
///
/// A state update replaces the game state and updates the display; match
/// info replaces the match configuration; a ping is answered with a pong.
pub fn handle_message(engine: &mut DisplayEngine, msg: CloudMessage, now_ms: u64) -> (fx:
    MessageEffects)
    requires
        message_expiries_fit(*old(engine), msg, now_ms),
    ensures
        match msg {
            CloudMessage::State { game_state, last_event } => {
                &&& final(engine).game_state == Some(game_state)
                &&& final(engine).match_config == old(engine).match_config
                &&& final(engine).display == updated_display(
                    old(engine).display,
                    old(engine).match_config,
                    old(engine).game_state,
                    game_state,
                    last_event,
                    now_ms,
                )
                &&& fx.timers.restart_goal_timer == (old(engine).game_state matches Some(o)
                    && scored(o, game_state))
                &&& fx.timers.restart_foul_out_timer == (old(engine).game_state matches Some(o)
                    && announced_foul_out(old(engine).match_config, o, game_state) is Some)
                &&& fx.broadcast_display
                &&& !fx.broadcast_dock
                &&& fx.reply is None
            },
            CloudMessage::MatchInfo { home_team, away_team, rule_set } => {
                &&& final(engine).match_config == Some(
                    MatchConfig { home_team, away_team, rule_set },
                )
                &&& final(engine).game_state == old(engine).game_state
                &&& final(engine).display == old(engine).display
                &&& fx.timers == (TimerActions {
                    restart_goal_timer: false,
                    restart_foul_out_timer: false,
                })
                &&& !fx.broadcast_display
                &&& fx.broadcast_dock
                &&& fx.reply is None
            },
            CloudMessage::Ping { timestamp } => {
                &&& *final(engine) == *old(engine)
                &&& fx.timers == (TimerActions {
                    restart_goal_timer: false,
                    restart_foul_out_timer: false,
                })
                &&& !fx.broadcast_display
                &&& !fx.broadcast_dock
                &&& fx.reply matches Some(r) && r@ == pong_text(timestamp)
            },
        },
{
    let no_timers = TimerActions { restart_goal_timer: false, restart_foul_out_timer: false };
    match msg {
        CloudMessage::State { game_state, last_event } => {
            let previous = engine.game_state.take();
            let timers = engine.on_state_update(
                previous.as_ref(),
                &game_state,
                last_event.as_ref(),
                now_ms,
            );
            engine.game_state = Some(game_state);
            MessageEffects { timers, broadcast_display: true, broadcast_dock: false, reply: None }
        },
        CloudMessage::MatchInfo { home_team, away_team, rule_set } => {
            engine.match_config = Some(MatchConfig { home_team, away_team, rule_set });
            MessageEffects {
                timers: no_timers,
                broadcast_display: false,
                broadcast_dock: true,
                reply: None,
            }
        },
        CloudMessage::Ping { timestamp } => {
            MessageEffects {
                timers: no_timers,
                broadcast_display: false,
                broadcast_dock: false,
                reply: Some(pong_message(timestamp)),
            }
        },
    }
}

} // verus!
