//! Match state, display state and dock state as plain values.
//!
//! Clock readings that arrive as fractional seconds are held here as whole
//! seconds; everything the display rules read is held exactly.
use vstd::prelude::*;

verus! {

/// Where a match stands.
#[derive(Debug, Clone, Copy, PartialEq, Eq, Structural)]
pub enum MatchStatus {
    NotStarted,
    InProgress,
    PeriodBreak,
    Halftime,
    Overtime,
    Shootout,
    Completed,
    Abandoned,
}

/// A side of the match, or neither.
#[derive(Debug, Clone, Copy, PartialEq, Eq, Structural)]
pub enum Possession {
    Home,
    Away,
    /// Neither side (serialised as `none`).
    Neither,
}

/// The possession clock's length.
#[derive(Debug, Clone, Copy, PartialEq, Eq, Structural)]
pub enum PossessionClockMode {
    Standard,
    Reduced,
}

/// Kinds of exclusion a referee can award.
#[derive(Debug, Clone, Copy, PartialEq, Eq, Structural)]
pub enum ExclusionType {
    Standard,
    ViolentAction,
    ForGame,
}

/// A player currently serving an exclusion.
#[derive(Debug, Clone)]
pub struct ActiveExclusion {
    pub player_id: String,
    pub team_id: String,
    pub cap_number: u32,
    /// Whole seconds left to serve.
    pub remaining_secs: u64,
    pub exclusion_type: ExclusionType,
    /// Whole seconds on the period clock at which a substitute may enter.
    pub substitute_eligible_at_secs: Option<u64>,
}

/// One penalty taken in a shootout.
#[derive(Debug, Clone)]
pub struct ShootoutShot {
    pub team_id: String,
    pub player_id: String,
    pub cap_number: u32,
    pub round: u32,
    pub outcome: String,
    pub home_shootout_score_after: u32,
    pub away_shootout_score_after: u32,
}

/// The running state of a penalty shootout.
#[derive(Debug, Clone)]
pub struct ShootoutState {
    pub home_score: u32,
    pub away_score: u32,
    pub current_round: u32,
    pub shots: Vec<ShootoutShot>,
    pub next_shooting_team: Possession,
}

/// The match as the cloud reports it.
#[derive(Debug, Clone)]
pub struct GameState {
    pub match_id: String,
    pub status: MatchStatus,
    pub current_period: u32,
    /// Whole seconds on the period clock.
    pub period_clock_secs: u64,
    pub home_score: u32,
    pub away_score: u32,
    pub possession: Possession,
    /// Whole seconds on the possession clock, when it runs.
    pub possession_clock_secs: Option<u64>,
    pub possession_clock_mode: Option<PossessionClockMode>,
    pub home_timeouts_remaining: u32,
    pub away_timeouts_remaining: u32,
    pub active_exclusions: Vec<ActiveExclusion>,
    /// Personal foul count per player id, each id at most once (see
    /// `player_ids_distinct`); a lookup takes the first entry of an id.
    pub player_foul_counts: Vec<(String, u32)>,
    pub players_excluded_for_game: Vec<String>,
    pub shootout_state: Option<ShootoutState>,
}

/// The event that produced a state update, as far as the display reads it.
#[derive(Debug, Clone)]
pub struct LastEvent {
    pub event_type: String,
    /// The payload's `cap_number` field, when it is an unsigned integer.
    pub cap_number: Option<u64>,
}

/// A message from the cloud.
#[derive(Debug, Clone)]
pub enum CloudMessage {
    State { game_state: GameState, last_event: Option<LastEvent> },
    MatchInfo { home_team: TeamConfig, away_team: TeamConfig, rule_set: RuleSetConfig },
    Ping { timestamp: Option<u64> },
}

/// What every overlay shows; the overlay page renders exactly this.
#[derive(Debug, Clone)]
pub struct DisplayState {
    pub scorebug: OverlayVisibility,
    pub exclusions: OverlayVisibility,
    pub goal_animation: GoalAnimationState,
    pub foul_out: FoulOutState,
    pub quarter_summary: QuarterSummaryState,
    pub lower_third: LowerThirdState,
    pub possession_clock: OverlayVisibility,
    pub shootout: OverlayVisibility,
}

#[derive(Debug, Clone, Copy)]
pub struct OverlayVisibility {
    pub visible: bool,
}

#[derive(Debug, Clone, Copy)]
pub struct GoalAnimationState {
    pub visible: bool,
    /// Milliseconds since the Unix epoch at which the animation ends.
    pub expires_at: Option<u64>,
    pub scoring_team: Option<Possession>,
    pub cap_number: Option<u32>,
    pub home_score: Option<u32>,
    pub away_score: Option<u32>,
}

#[derive(Debug, Clone, Copy)]
pub struct FoulOutState {
    pub visible: bool,
    /// Milliseconds since the Unix epoch at which the notice ends.
    pub expires_at: Option<u64>,
    pub team: Option<Possession>,
    pub cap_number: Option<u32>,
    pub foul_count: Option<u32>,
}

#[derive(Debug, Clone, Copy)]
pub struct QuarterSummaryState {
    pub visible: bool,
    pub period_completed: Option<u32>,
    pub home_score: Option<u32>,
    pub away_score: Option<u32>,
}

#[derive(Debug, Clone)]
pub struct LowerThirdState {
    pub visible: bool,
    pub cap_number: Option<u32>,
    pub player_name: Option<String>,
    pub team: Option<Possession>,
}

/// The display every overlay starts from: the scorebug alone.
pub open spec fn initial_display() -> DisplayState {
    DisplayState {
        scorebug: OverlayVisibility { visible: true },
        exclusions: OverlayVisibility { visible: false },
        goal_animation: GoalAnimationState {
            visible: false,
            expires_at: None,
            scoring_team: None,
            cap_number: None,
            home_score: None,
            away_score: None,
        },
        foul_out: FoulOutState {
            visible: false,
            expires_at: None,
            team: None,
            cap_number: None,
            foul_count: None,
        },
        quarter_summary: QuarterSummaryState {
            visible: false,
            period_completed: None,
            home_score: None,
            away_score: None,
        },
        lower_third: LowerThirdState {
            visible: false,
            cap_number: None,
            player_name: None,
            team: None,
        },
        possession_clock: OverlayVisibility { visible: false },
        shootout: OverlayVisibility { visible: false },
    }
}

impl Default for DisplayState {
    fn default() -> (d: Self)
        ensures
            d == initial_display(),
    {
        DisplayState {
            scorebug: OverlayVisibility { visible: true },
            exclusions: OverlayVisibility { visible: false },
            goal_animation: GoalAnimationState {
                visible: false,
                expires_at: None,
                scoring_team: None,
                cap_number: None,
                home_score: None,
                away_score: None,
            },
            foul_out: FoulOutState {
                visible: false,
                expires_at: None,
                team: None,
                cap_number: None,
                foul_count: None,
            },
            quarter_summary: QuarterSummaryState {
                visible: false,
                period_completed: None,
                home_score: None,
                away_score: None,
            },
            lower_third: LowerThirdState {
                visible: false,
                cap_number: None,
                player_name: None,
                team: None,
            },
            possession_clock: OverlayVisibility { visible: false },
            shootout: OverlayVisibility { visible: false },
        }
    }
}

/// A team's branding.
#[derive(Debug, Clone)]
pub struct TeamConfig {
    pub id: Option<String>,
    pub name: String,
    pub short_name: String,
    pub cap_colour: String,
    pub cap_label: String,
    pub logo_url: Option<String>,
}

/// The rule-set flags the overlays read.
#[derive(Debug, Clone, Copy)]
pub struct RuleSetConfig {
    pub possession_clock_enabled: bool,
    pub foul_limit_enforced: bool,
    pub periods: u32,
}

/// Both teams and the rule set of the connected match.
#[derive(Debug, Clone)]
pub struct MatchConfig {
    pub home_team: TeamConfig,
    pub away_team: TeamConfig,
    pub rule_set: RuleSetConfig,
}

/// A game state together with the display decided for it.
#[derive(Debug, Clone)]
pub struct DisplayPush {
    pub game_state: GameState,
    pub display: DisplayState,
}

/// The link to the cloud, as the dock shows it.
#[derive(Debug, Clone, PartialEq, Eq)]
pub enum ConnectionStatus {
    Connected,
    Reconnecting { retry_count: u32 },
    Disconnected { error: Option<String> },
    NotConfigured,
}

/// The summary the dock panel shows.
#[derive(Debug, Clone)]
pub struct DockState {
    pub connection: ConnectionStatus,
    pub match_name: Option<String>,
    pub score: Option<String>,
    pub period: Option<String>,
    pub clock: Option<String>,
    pub overlay_url: String,
}

} // verus!
