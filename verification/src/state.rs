//! The dock's summary of the bridge: connection, match, score, period, clock.
use vstd::prelude::*;
use vstd::string::*;
use crate::config::{configured, Config};
use crate::models::{ConnectionStatus, DockState, GameState, MatchConfig, MatchStatus};
use crate::text::{decimal, decimal2, push_decimal, push_decimal2};

verus! {

pub open spec fn sat_sub(a: nat, b: nat) -> nat {
    if a >= b {
        (a - b) as nat
    } else {
        0
    }
}

/// The dock's short label for the period: `Pre`, `Q1`..`Q4`, `Q2 End`,
/// `HT`, `OT1`, `SO`, `Final`, `ABD`.
pub open spec fn period_label(period: u32, status: MatchStatus) -> Seq<char> {
    match status {
        MatchStatus::NotStarted => "Pre"@,
        MatchStatus::Completed => "Final"@,
        MatchStatus::Abandoned => "ABD"@,
        MatchStatus::Halftime => "HT"@,
        MatchStatus::Shootout => "SO"@,
        MatchStatus::Overtime => "OT"@ + decimal(sat_sub(period as nat, 4)),
        MatchStatus::PeriodBreak => {
            let ended = sat_sub(period as nat, 1);
            "Q"@ + decimal(if ended >= 1 { ended } else { 1 }) + " End"@
        },
        MatchStatus::InProgress => if period <= 4 {
            "Q"@ + decimal(period as nat)
        } else {
            "OT"@ + decimal((period - 4) as nat)
        },
    }
}

/// `Home vs Away`, by the teams' short names.
pub open spec fn match_name_text(mc: MatchConfig) -> Seq<char> {
    mc.home_team.short_name@ + " vs "@ + mc.away_team.short_name@
}

/// `home–away`, with an en dash.
pub open spec fn score_text(gs: GameState) -> Seq<char> {
    decimal(gs.home_score as nat) + "\u{2013}"@ + decimal(gs.away_score as nat)
}

/// `m:ss` of the period clock.
pub open spec fn clock_text(secs: u64) -> Seq<char> {
    decimal((secs / 60) as nat) + ":"@ + decimal2((secs % 60) as nat)
}

/// Where the composite overlay is served.
pub open spec fn overlay_url_text(port: u16) -> Seq<char> {
    "localhost:"@ + decimal(port as nat) + "/overlay/composite"@
}

pub open spec fn text_of(s: Option<String>) -> Option<Seq<char>> {
    match s {
        Some(t) => Some(t@),
        None => None,
    }
}

/// The dock's match fields: all present once both a game state and the
/// match's configuration are known, all absent otherwise.
pub open spec fn dock_fields_match(d: DockState, gs: Option<GameState>, mc: Option<MatchConfig>) -> bool {
    match (gs, mc) {
        (Some(g), Some(m)) => {
            &&& text_of(d.match_name) == Some(match_name_text(m))
            &&& text_of(d.score) == Some(score_text(g))
            &&& text_of(d.period) == Some(period_label(g.current_period, g.status))
            &&& text_of(d.clock) == Some(clock_text(g.period_clock_secs))
        },
        _ => {
            &&& d.match_name is None
            &&& d.score is None
            &&& d.period is None
            &&& d.clock is None
        },
    }
}

/// The label the dock shows for a period.
pub fn format_period(period: u32, status: MatchStatus) -> (s: String)
    ensures
        s@ == period_label(period, status),
{
    match status {
        MatchStatus::NotStarted => String::from_str("Pre"),
        MatchStatus::Completed => String::from_str("Final"),
        MatchStatus::Abandoned => String::from_str("ABD"),
        MatchStatus::Halftime => String::from_str("HT"),
        MatchStatus::Shootout => String::from_str("SO"),
        MatchStatus::Overtime => {
            let mut s = String::from_str("OT");
            let n = if period >= 4 {
                period - 4
            } else {
                0
            };
            push_decimal(&mut s, n as u64);
            s
        },
        MatchStatus::PeriodBreak => {
            let mut s = String::from_str("Q");
            let ended = if period >= 1 {
                period - 1
            } else {
                0
            };
            let shown = if ended >= 1 {
                ended
            } else {
                1
            };
            push_decimal(&mut s, shown as u64);
            s.append(" End");
            s
        },
        MatchStatus::InProgress => {
            if period <= 4 {
                let mut s = String::from_str("Q");
                push_decimal(&mut s, period as u64);
                s
            } else {
                let mut s = String::from_str("OT");
                push_decimal(&mut s, (period - 4) as u64);
                s
            }
        },
    }
}

/// The status the dock shows before the first connection attempt.
pub fn initial_connection_status(config: &Config) -> (s: ConnectionStatus)
    ensures
        s == if configured(*config) {
            ConnectionStatus::Disconnected { error: None }
        } else {
            ConnectionStatus::NotConfigured
        },
{
    if config.is_configured() {
        ConnectionStatus::Disconnected { error: None }
    } else {
        ConnectionStatus::NotConfigured
    }
}

/// Build the dock's snapshot from the current state.
pub fn dock_state(
    port: u16,
    connection: ConnectionStatus,
    game_state: Option<&GameState>,
    match_config: Option<&MatchConfig>,
) -> (d: DockState)
    ensures
        d.connection == connection,
        d.overlay_url@ == overlay_url_text(port),
        dock_fields_match(
            d,
            match game_state {
                Some(g) => Some(*g),
                None => None,
            },
            match match_config {
                Some(m) => Some(*m),
                None => None,
            },
        ),
{
    let mut overlay_url = String::from_str("localhost:");
    push_decimal(&mut overlay_url, port as u64);
    overlay_url.append("/overlay/composite");
    match (game_state, match_config) {
        (Some(gs), Some(mc)) => {
            let mut name = mc.home_team.short_name.clone();
            name.append(" vs ");
            name.append(mc.away_team.short_name.as_str());
            let mut score = String::new();
            push_decimal(&mut score, gs.home_score as u64);
            score.append("\u{2013}");
            push_decimal(&mut score, gs.away_score as u64);
            let period = format_period(gs.current_period, gs.status);
            let secs = gs.period_clock_secs;
            let mut clock = String::new();
            push_decimal(&mut clock, secs / 60);
            clock.append(":");
            push_decimal2(&mut clock, secs % 60);
            proof {
                assert(score@ =~= score_text(*gs));
                assert(clock@ =~= clock_text(secs));
            }
            DockState {
                connection,
                match_name: Some(name),
                score: Some(score),
                period: Some(period),
                clock: Some(clock),
                overlay_url,
            }
        },
        _ => DockState {
            connection,
            match_name: None,
            score: None,
            period: None,
            clock: None,
            overlay_url,
        },
    }
}

} // verus!
