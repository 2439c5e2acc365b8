//! The display engine: every visibility and timing decision of the overlays.
//!
//! The engine compares each new game state with the one before it and decides
//! what the overlays show. It never waits: where a transient overlay must
//! disappear later, it says so in the [`TimerActions`] it returns, and the
//! runtime calls [`DisplayEngine::expire_goal_animation`] or
//! [`DisplayEngine::expire_foul_out`] when that time has come.
use vstd::prelude::*;
use crate::models::{
    initial_display, ActiveExclusion, DisplayState, FoulOutState, GameState, GoalAnimationState,
    LastEvent, MatchConfig, MatchStatus, OverlayVisibility, Possession, QuarterSummaryState,
};
use vstd::string::*;

verus! {

/// How long the goal animation stays up, in milliseconds.
pub const GOAL_ANIMATION_MS: u64 = 5000;

/// How long the foul-out notice stays up, in milliseconds.
pub const FOUL_OUT_MS: u64 = 6000;

/// The decisions of the display engine together with the state they read.
#[derive(Debug)]
pub struct DisplayEngine {
    /// What every overlay shows.
    pub display: DisplayState,
    /// The most recent game state.
    pub game_state: Option<GameState>,
    /// Teams and rule set of the connected match, once known.
    pub match_config: Option<MatchConfig>,
}

/// Timers the runtime must (re)start after an update. Restarting a timer
/// cancels the one that was running.
#[derive(Debug, Clone, Copy, PartialEq, Eq, Structural)]
pub struct TimerActions {
    /// Run [`DisplayEngine::expire_goal_animation`] after [`GOAL_ANIMATION_MS`].
    pub restart_goal_timer: bool,
    /// Run [`DisplayEngine::expire_foul_out`] after [`FOUL_OUT_MS`].
    pub restart_foul_out_timer: bool,
}

// ---------------------------------------------------------------------------
// The rules, stated over values
// ---------------------------------------------------------------------------

/// A break between periods, in which the quarter summary belongs on screen.
pub open spec fn is_break(status: MatchStatus) -> bool {
    status == MatchStatus::PeriodBreak || status == MatchStatus::Halftime
}

/// The foul limit applies unless the match's rule set turns it off.
pub open spec fn foul_limit_applies(mc: Option<MatchConfig>) -> bool {
    match mc {
        Some(c) => c.rule_set.foul_limit_enforced,
        None => true,
    }
}

pub open spec fn scored(old: GameState, new: GameState) -> bool {
    new.home_score > old.home_score || new.away_score > old.away_score
}

/// The home side when it scored, else the away side.
pub open spec fn scoring_team(old: GameState, new: GameState) -> Possession {
    if new.home_score > old.home_score {
        Possession::Home
    } else {
        Possession::Away
    }
}

/// The scorer's cap number: taken from a goal event only, truncated to 32 bits.
pub open spec fn goal_cap(last_event: Option<LastEvent>) -> Option<u32> {
    match last_event {
        Some(e) => if e.event_type@ == "goal"@ {
            match e.cap_number {
                Some(v) => Some(v as u32),
                None => None,
            }
        } else {
            None
        },
        None => None,
    }
}

pub open spec fn entered_break(old: GameState, new: GameState) -> bool {
    is_break(new.status) && !is_break(old.status)
}

pub open spec fn period_started(old: GameState, new: GameState) -> bool {
    new.status == MatchStatus::InProgress && (is_break(old.status) || old.status
        == MatchStatus::NotStarted)
}

/// The ids of a list of players.
pub open spec fn ids_of(players: Seq<String>) -> Seq<Seq<char>> {
    players.map_values(|s: String| s@)
}

/// The last entry of `new_ids` that `old_ids` does not hold.
pub open spec fn last_new_exclusion(old_ids: Seq<Seq<char>>, new_ids: Seq<Seq<char>>) -> Option<
    Seq<char>,
>
    decreases new_ids.len(),
{
    if new_ids.len() == 0 {
        None
    } else if !old_ids.contains(new_ids.last()) {
        Some(new_ids.last())
    } else {
        last_new_exclusion(old_ids, new_ids.drop_last())
    }
}

/// The foul count recorded first for `id`.
pub open spec fn foul_count_of(counts: Seq<(String, u32)>, id: Seq<char>) -> Option<u32>
    decreases counts.len(),
{
    if counts.len() == 0 {
        None
    } else if counts[0].0@ == id {
        Some(counts[0].1)
    } else {
        foul_count_of(counts.drop_first(), id)
    }
}

/// The cap number of the first active exclusion of `id`.
pub open spec fn exclusion_cap_of(excl: Seq<ActiveExclusion>, id: Seq<char>) -> Option<u32>
    decreases excl.len(),
{
    if excl.len() == 0 {
        None
    } else if excl[0].player_id@ == id {
        Some(excl[0].cap_number)
    } else {
        exclusion_cap_of(excl.drop_first(), id)
    }
}

/// The goal animation takes the centre region; the foul-out notice and the
/// quarter summary are hidden but keep their fields.
pub open spec fn with_goal(
    d: DisplayState,
    team: Possession,
    state: GameState,
    cap: Option<u32>,
    now_ms: u64,
) -> DisplayState {
    DisplayState {
        goal_animation: GoalAnimationState {
            visible: true,
            expires_at: Some((now_ms + GOAL_ANIMATION_MS) as u64),
            scoring_team: Some(team),
            cap_number: cap,
            home_score: Some(state.home_score),
            away_score: Some(state.away_score),
        },
        foul_out: FoulOutState { visible: false, ..d.foul_out },
        quarter_summary: QuarterSummaryState { visible: false, ..d.quarter_summary },
        ..d
    }
}

/// The foul-out notice is recorded and timed in any case; it shows at once
/// only when no goal animation holds the centre, and then hides the summary.
pub open spec fn with_foul_out(
    d: DisplayState,
    team: Option<Possession>,
    cap: Option<u32>,
    foul_count: Option<u32>,
    now_ms: u64,
) -> DisplayState {
    let goal_active = d.goal_animation.visible;
    DisplayState {
        foul_out: FoulOutState {
            visible: !goal_active,
            expires_at: Some((now_ms + FOUL_OUT_MS) as u64),
            team: team,
            cap_number: cap,
            foul_count: foul_count,
        },
        quarter_summary: if goal_active {
            d.quarter_summary
        } else {
            QuarterSummaryState { visible: false, ..d.quarter_summary }
        },
        ..d
    }
}

/// The quarter summary shows only while the centre region is free.
pub open spec fn with_quarter_summary(d: DisplayState, state: GameState) -> DisplayState {
    if d.goal_animation.visible || d.foul_out.visible {
        d
    } else {
        DisplayState {
            quarter_summary: QuarterSummaryState {
                visible: true,
                period_completed: Some(state.current_period),
                home_score: Some(state.home_score),
                away_score: Some(state.away_score),
            },
            ..d
        }
    }
}

pub open spec fn without_quarter_summary(d: DisplayState) -> DisplayState {
    DisplayState { quarter_summary: QuarterSummaryState { visible: false, ..d.quarter_summary }, ..d }
}

/// The foul-out stage of an update: the last player newly excluded for the
/// game is the one announced.
pub open spec fn foul_out_stage(
    d: DisplayState,
    new: GameState,
    id: Option<Seq<char>>,
    now_ms: u64,
) -> DisplayState {
    match id {
        Some(id) => with_foul_out(
            d,
            None,
            exclusion_cap_of(new.active_exclusions@, id),
            foul_count_of(new.player_foul_counts@, id),
            now_ms,
        ),
        None => d,
    }
}

/// The player whose foul-out an update announces, if any.
pub open spec fn announced_foul_out(mc: Option<MatchConfig>, old: GameState, new: GameState) -> Option<
    Seq<char>,
> {
    if foul_limit_applies(mc) {
        last_new_exclusion(
            ids_of(old.players_excluded_for_game@),
            ids_of(new.players_excluded_for_game@),
        )
    } else {
        None
    }
}

/// What an update changes in the centre region, given the previous state.
pub open spec fn transient_update(
    d: DisplayState,
    mc: Option<MatchConfig>,
    old: GameState,
    new: GameState,
    last_event: Option<LastEvent>,
    now_ms: u64,
) -> DisplayState {
    let d_goal = if scored(old, new) {
        with_goal(d, scoring_team(old, new), new, goal_cap(last_event), now_ms)
    } else {
        d
    };
    let d_foul = foul_out_stage(d_goal, new, announced_foul_out(mc, old, new), now_ms);
    let d_break = if entered_break(old, new) {
        with_quarter_summary(d_foul, new)
    } else {
        d_foul
    };
    if period_started(old, new) {
        without_quarter_summary(d_break)
    } else {
        d_break
    }
}

/// The overlays that follow the game state on every update.
pub open spec fn with_persistent(d: DisplayState, new: GameState) -> DisplayState {
    DisplayState {
        scorebug: OverlayVisibility { visible: new.status != MatchStatus::Shootout },
        shootout: OverlayVisibility { visible: new.status == MatchStatus::Shootout },
        exclusions: OverlayVisibility { visible: new.active_exclusions.len() > 0 },
        possession_clock: OverlayVisibility {
            visible: new.possession_clock_secs is Some && new.status == MatchStatus::InProgress,
        },
        ..d
    }
}

/// The display after a state update.
pub open spec fn updated_display(
    d: DisplayState,
    mc: Option<MatchConfig>,
    old: Option<GameState>,
    new: GameState,
    last_event: Option<LastEvent>,
    now_ms: u64,
) -> DisplayState {
    let d1 = match old {
        Some(o) => transient_update(d, mc, o, new, last_event, now_ms),
        None => d,
    };
    with_persistent(d1, new)
}

/// The display after the goal animation's timer fires: a foul-out notice
/// whose time has not run out comes back first, else the quarter summary
/// during a break.
pub open spec fn after_goal_expiry(d: DisplayState, in_break: bool, now_ms: u64) -> DisplayState {
    let d1 = DisplayState {
        goal_animation: GoalAnimationState { visible: false, expires_at: None, ..d.goal_animation },
        ..d
    };
    if d.foul_out.expires_at matches Some(e) && e > now_ms {
        DisplayState { foul_out: FoulOutState { visible: true, ..d1.foul_out }, ..d1 }
    } else if in_break {
        DisplayState {
            quarter_summary: QuarterSummaryState { visible: true, ..d1.quarter_summary },
            ..d1
        }
    } else {
        d1
    }
}

/// The display after the foul-out timer fires: the quarter summary returns
/// during a break, once the centre region is free (a goal animation still
/// running keeps it; the summary comes back when that animation ends).
pub open spec fn after_foul_out_expiry(d: DisplayState, in_break: bool) -> DisplayState {
    let d1 = DisplayState {
        foul_out: FoulOutState { visible: false, expires_at: None, ..d.foul_out },
        ..d
    };
    if in_break && !d.goal_animation.visible {
        DisplayState {
            quarter_summary: QuarterSummaryState { visible: true, ..d1.quarter_summary },
            ..d1
        }
    } else {
        d1
    }
}

/// Whether the last known game state is in a break.
pub open spec fn state_in_break(gs: Option<GameState>) -> bool {
    match gs {
        Some(g) => is_break(g.status),
        None => false,
    }
}

/// A transient overlay is on screen exactly while its timer runs (the
/// foul-out notice may be timed while the goal animation hides it).
pub open spec fn timers_consistent(d: DisplayState) -> bool {
    &&& (d.goal_animation.visible <==> d.goal_animation.expires_at is Some)
    &&& (d.foul_out.visible ==> d.foul_out.expires_at is Some)
}

/// At most one overlay occupies the centre region.
pub open spec fn centre_exclusive(d: DisplayState) -> bool {
    &&& !(d.goal_animation.visible && d.foul_out.visible)
    &&& !(d.goal_animation.visible && d.quarter_summary.visible)
    &&& !(d.foul_out.visible && d.quarter_summary.visible)
}

/// Expiry times of the overlays an update may start fit in 64 bits.
pub open spec fn expiries_fit(
    mc: Option<MatchConfig>,
    old: Option<GameState>,
    new: GameState,
    now_ms: u64,
) -> bool {
    old matches Some(o) ==> {
        &&& scored(o, new) ==> now_ms + GOAL_ANIMATION_MS <= u64::MAX
        &&& announced_foul_out(mc, o, new) is Some ==> now_ms + FOUL_OUT_MS <= u64::MAX
    }
}

// ---------------------------------------------------------------------------
// Lookups
// ---------------------------------------------------------------------------

fn is_break_status(status: MatchStatus) -> (b: bool)
    ensures
        b == is_break(status),
{
    match status {
        MatchStatus::PeriodBreak | MatchStatus::Halftime => true,
        _ => false,
    }
}

/// Whether `ids` holds `id`.
fn holds_id(ids: &Vec<String>, id: &String) -> (b: bool)
    ensures
        b == ids_of(ids@).contains(id@),
{
    let n = ids.len();
    for i in 0..n
        invariant
            n == ids@.len(),
            forall|k: int| 0 <= k < i ==> ids@[k]@ != id@,
    {
        if ids[i] == *id {
            assert(ids_of(ids@)[i as int] == id@);
            return true;
        }
    }
    assert(!ids_of(ids@).contains(id@)) by {
        if ids_of(ids@).contains(id@) {
            let k = choose|k: int| 0 <= k < ids_of(ids@).len() && ids_of(ids@)[k] == id@;
            assert(ids@[k]@ == id@);
        }
    }
    false
}

/// The foul count recorded for a player.
fn lookup_foul_count(counts: &Vec<(String, u32)>, id: &String) -> (r: Option<u32>)
    ensures
        r == foul_count_of(counts@, id@),
{
    let n = counts.len();
    assert(counts@.subrange(0, n as int) =~= counts@);
    for i in 0..n
        invariant
            n == counts@.len(),
            foul_count_of(counts@, id@) == foul_count_of(counts@.subrange(i as int, n as int), id@),
    {
        assert(counts@.subrange(i as int, n as int).drop_first() =~= counts@.subrange(
            i + 1,
            n as int,
        ));
        if counts[i].0 == *id {
            return Some(counts[i].1);
        }
    }
    None
}

/// Try to determine a player's team from the active exclusions. They carry
/// no home/away mapping, so the overlay shows the notice without team styling.
fn identify_player_team(player_id: &String, state: &GameState) -> (r: Option<Possession>)
    ensures
        r is None,
{
    let n = state.active_exclusions.len();
    for i in 0..n
        invariant
            n == state.active_exclusions@.len(),
    {
        if state.active_exclusions[i].player_id == *player_id {
            return None;
        }
    }
    None
}

/// The cap number of a player, from the first active exclusion that names them.
fn identify_player_cap(player_id: &String, state: &GameState) -> (r: Option<u32>)
    ensures
        r == exclusion_cap_of(state.active_exclusions@, player_id@),
{
    let n = state.active_exclusions.len();
    assert(state.active_exclusions@.subrange(0, n as int) =~= state.active_exclusions@);
    for i in 0..n
        invariant
            n == state.active_exclusions@.len(),
            exclusion_cap_of(state.active_exclusions@, player_id@) == exclusion_cap_of(
                state.active_exclusions@.subrange(i as int, n as int),
                player_id@,
            ),
    {
        assert(state.active_exclusions@.subrange(i as int, n as int).drop_first()
            =~= state.active_exclusions@.subrange(i + 1, n as int));
        if state.active_exclusions[i].player_id == *player_id {
            return Some(state.active_exclusions[i].cap_number);
        }
    }
    None
}

fn scorer_cap(last_event: Option<&LastEvent>) -> (r: Option<u32>)
    ensures
        r == goal_cap(match last_event {
            Some(e) => Some(*e),
            None => None,
        }),
{
    match last_event {
        Some(e) => {
            let goal = String::from_str("goal");
            if e.event_type == goal {
                match e.cap_number {
                    Some(v) => Some(v as u32),
                    None => None,
                }
            } else {
                None
            }
        },
        None => None,
    }
}

// ---------------------------------------------------------------------------
// The engine
// ---------------------------------------------------------------------------

impl DisplayEngine {
    /// An engine with the initial display and no match yet.
    pub fn new() -> (e: Self)
        ensures
            e.display == initial_display(),
            e.game_state is None,
            e.match_config is None,
    {
        DisplayEngine { display: DisplayState::default(), game_state: None, match_config: None }
    }

    /// Called every time a new game state arrives: compares it with the
    /// previous one and updates the display.
    pub fn on_state_update(
        &mut self,
        old_state: Option<&GameState>,
        new: &GameState,
        last_event: Option<&LastEvent>,
        now_ms: u64,
    ) -> (t: TimerActions)
        requires
            expiries_fit(
                old(self).match_config,
                match old_state {
                    Some(o) => Some(*o),
                    None => None,
                },
                *new,
                now_ms,
            ),
        ensures
            final(self).display == updated_display(
                old(self).display,
                old(self).match_config,
                match old_state {
                    Some(o) => Some(*o),
                    None => None,
                },
                *new,
                match last_event {
                    Some(e) => Some(*e),
                    None => None,
                },
                now_ms,
            ),
            final(self).game_state == old(self).game_state,
            final(self).match_config == old(self).match_config,
            t.restart_goal_timer == (old_state matches Some(o) && scored(*o, *new)),
            t.restart_foul_out_timer == (old_state matches Some(o) && announced_foul_out(
                old(self).match_config,
                *o,
                *new,
            ) is Some),
            timers_consistent(old(self).display) ==> timers_consistent(final(self).display),
            centre_exclusive(old(self).display) ==> centre_exclusive(final(self).display),
            // A goal animation starts only when a score goes up.
            (old_state matches Some(o) && new.home_score <= o.home_score && new.away_score
                <= o.away_score) ==> !t.restart_goal_timer && final(self).display.goal_animation
                == old(self).display.goal_animation,
            // Every rise of a score starts it, for the side that scored.
            (old_state matches Some(o) && (new.home_score > o.home_score || new.away_score
                > o.away_score)) ==> t.restart_goal_timer && final(self).display.goal_animation.visible
                && final(self).display.goal_animation.scoring_team == Some(
                if new.home_score > old_state->0.home_score {
                    Possession::Home
                } else {
                    Possession::Away
                },
            ),
            // Play resuming after a break, or starting, clears the quarter summary.
            (old_state matches Some(o) && new.status == MatchStatus::InProgress && (o.status
                == MatchStatus::PeriodBreak || o.status == MatchStatus::Halftime || o.status
                == MatchStatus::NotStarted)) ==> !final(self).display.quarter_summary.visible,
            // The persistent overlays follow the new state, whatever came before.
            final(self).display.exclusions.visible == (new.active_exclusions.len() > 0),
            final(self).display.scorebug.visible == (new.status != MatchStatus::Shootout),
            final(self).display.shootout.visible == (new.status == MatchStatus::Shootout),
            final(self).display.possession_clock.visible == (new.possession_clock_secs is Some
                && new.status == MatchStatus::InProgress),
    {
        let foul_limit_enforced = match &self.match_config {
            Some(mc) => mc.rule_set.foul_limit_enforced,
            None => true,
        };
        let mut actions = TimerActions { restart_goal_timer: false, restart_foul_out_timer: false };
        if let Some(prev) = old_state {
            actions = Self::apply_transitions(
                &mut self.display,
                foul_limit_enforced,
                prev,
                new,
                last_event,
                now_ms,
            );
            proof {
                lemma_transient_keeps_invariants(
                    old(self).display,
                    old(self).match_config,
                    *prev,
                    *new,
                    match last_event {
                        Some(e) => Some(*e),
                        None => None,
                    },
                    now_ms,
                );
            }
        }
        Self::apply_persistent(&mut self.display, new);
        actions
    }

    /// The transient overlays: goal, foul-out, quarter summary.
    fn apply_transitions(
        display: &mut DisplayState,
        foul_limit_enforced: bool,
        prev: &GameState,
        new: &GameState,
        last_event: Option<&LastEvent>,
        now_ms: u64,
    ) -> (t: TimerActions)
        requires
            scored(*prev, *new) ==> now_ms + GOAL_ANIMATION_MS <= u64::MAX,
            foul_limit_enforced && last_new_exclusion(
                ids_of(prev.players_excluded_for_game@),
                ids_of(new.players_excluded_for_game@),
            ) is Some ==> now_ms + FOUL_OUT_MS <= u64::MAX,
        ensures
            forall|mc: Option<MatchConfig>|
                foul_limit_applies(mc) == foul_limit_enforced ==> {
                    &&& *final(display) == transient_update(
                        *old(display),
                        mc,
                        *prev,
                        *new,
                        match last_event {
                            Some(e) => Some(*e),
                            None => None,
                        },
                        now_ms,
                    )
                    &&& t.restart_foul_out_timer == (announced_foul_out(mc, *prev, *new) is Some)
                },
            t.restart_goal_timer == scored(*prev, *new),
    {
        let mut actions = TimerActions { restart_goal_timer: false, restart_foul_out_timer: false };
        // --- Goal detection (score increased) ---
        let home_scored = new.home_score > prev.home_score;
        let away_scored = new.away_score > prev.away_score;
        if home_scored || away_scored {
            let scoring_team = if home_scored {
                Possession::Home
            } else {
                Possession::Away
            };
            let cap_number = scorer_cap(last_event);
            Self::trigger_goal_animation(display, scoring_team, new, cap_number, now_ms);
            actions.restart_goal_timer = true;
        }
        // --- Foul-out detection (new player in the excluded list) ---
        if foul_limit_enforced {
            actions.restart_foul_out_timer = Self::announce_foul_outs(display, prev, new, now_ms);
        }
        // --- Period break / halftime: show the quarter summary ---
        let entered_break = is_break_status(new.status) && !is_break_status(prev.status);
        if entered_break {
            Self::show_quarter_summary(display, new);
        }
        // --- Period start: clear the quarter summary ---
        let period_started = new.status == MatchStatus::InProgress && (is_break_status(prev.status)
            || prev.status == MatchStatus::NotStarted);
        if period_started {
            display.quarter_summary.visible = false;
        }
        actions
    }

    /// Announce each player newly excluded for the game; returns whether any was.
    fn announce_foul_outs(
        display: &mut DisplayState,
        prev: &GameState,
        new: &GameState,
        now_ms: u64,
    ) -> (any: bool)
        requires
            last_new_exclusion(
                ids_of(prev.players_excluded_for_game@),
                ids_of(new.players_excluded_for_game@),
            ) is Some ==> now_ms + FOUL_OUT_MS <= u64::MAX,
        ensures
            *final(display) == foul_out_stage(
                *old(display),
                *new,
                last_new_exclusion(
                    ids_of(prev.players_excluded_for_game@),
                    ids_of(new.players_excluded_for_game@),
                ),
                now_ms,
            ),
            any == (last_new_exclusion(
                ids_of(prev.players_excluded_for_game@),
                ids_of(new.players_excluded_for_game@),
            ) is Some),
    {
        let ghost d0 = *display;
        let ghost old_ids = ids_of(prev.players_excluded_for_game@);
        let ghost new_ids = ids_of(new.players_excluded_for_game@);
        let mut any = false;
        let n = new.players_excluded_for_game.len();
        proof {
            lemma_no_new_exclusion(old_ids, new_ids);
            assert(new_ids.take(0) =~= Seq::<Seq<char>>::empty());
        }
        for i in 0..n
            invariant
                n == new.players_excluded_for_game@.len(),
                old_ids == ids_of(prev.players_excluded_for_game@),
                new_ids == ids_of(new.players_excluded_for_game@),
                *display == foul_out_stage(
                    d0,
                    *new,
                    last_new_exclusion(old_ids, new_ids.take(i as int)),
                    now_ms,
                ),
                any == (last_new_exclusion(old_ids, new_ids.take(i as int)) is Some),
                last_new_exclusion(old_ids, new_ids) is Some ==> now_ms + FOUL_OUT_MS <= u64::MAX,
                last_new_exclusion(old_ids, new_ids) is None ==> forall|k: int|
                    0 <= k < new_ids.len() ==> old_ids.contains(#[trigger] new_ids[k]),
        {
            proof {
                lemma_last_new_exclusion_prefix(old_ids, new_ids, i + 1);
            }
            let player_id = &new.players_excluded_for_game[i];
            if !holds_id(&prev.players_excluded_for_game, player_id) {
                let foul_count = lookup_foul_count(&new.player_foul_counts, player_id);
                let team = identify_player_team(player_id, new);
                let cap = identify_player_cap(player_id, new);
                Self::trigger_foul_out(display, team, cap, foul_count, now_ms);
                any = true;
            }
        }
        proof {
            assert(new_ids.take(n as int) =~= new_ids);
        }
        any
    }

    /// The overlays that follow the game state on every update.
    fn apply_persistent(display: &mut DisplayState, new: &GameState)
        ensures
            *final(display) == with_persistent(*old(display), *new),
    {
        // Scorebug: always visible except during a shootout.
        display.scorebug.visible = new.status != MatchStatus::Shootout;
        display.shootout.visible = new.status == MatchStatus::Shootout;
        // Exclusions: visible while there are active exclusions.
        display.exclusions.visible = new.active_exclusions.len() > 0;
        // Possession clock: visible when it has a value and play is running.
        display.possession_clock.visible = new.possession_clock_secs.is_some() && new.status
            == MatchStatus::InProgress;
    }

    /// Show the goal animation for [`GOAL_ANIMATION_MS`]. Goal animation
    /// takes priority in the centre region: the foul-out notice is hidden but
    /// keeps its fields so that it can be restored.
    fn trigger_goal_animation(
        display: &mut DisplayState,
        team: Possession,
        state: &GameState,
        cap_number: Option<u32>,
        now_ms: u64,
    )
        requires
            now_ms + GOAL_ANIMATION_MS <= u64::MAX,
        ensures
            *final(display) == with_goal(*old(display), team, *state, cap_number, now_ms),
    {
        display.goal_animation = GoalAnimationState {
            visible: true,
            expires_at: Some(now_ms + GOAL_ANIMATION_MS),
            scoring_team: Some(team),
            cap_number: cap_number,
            home_score: Some(state.home_score),
            away_score: Some(state.away_score),
        };
        display.foul_out.visible = false;
        display.quarter_summary.visible = false;
    }

    /// Record the foul-out notice and time it for [`FOUL_OUT_MS`], even
    /// while the goal animation holds the centre region.
    fn trigger_foul_out(
        display: &mut DisplayState,
        team: Option<Possession>,
        cap: Option<u32>,
        foul_count: Option<u32>,
        now_ms: u64,
    )
        requires
            now_ms + FOUL_OUT_MS <= u64::MAX,
        ensures
            *final(display) == with_foul_out(*old(display), team, cap, foul_count, now_ms),
    {
        let goal_active = display.goal_animation.visible;
        display.foul_out = FoulOutState {
            visible: !goal_active,
            expires_at: Some(now_ms + FOUL_OUT_MS),
            team: team,
            cap_number: cap,
            foul_count: foul_count,
        };
        if !goal_active {
            // Centre region conflict: the foul-out notice wins over the summary.
            display.quarter_summary.visible = false;
        }
    }

    /// Show the quarter summary, but only while the centre region is free.
    fn show_quarter_summary(display: &mut DisplayState, state: &GameState)
        ensures
            *final(display) == with_quarter_summary(*old(display), *state),
    {
        if display.goal_animation.visible || display.foul_out.visible {
            return;
        }
        display.quarter_summary = QuarterSummaryState {
            visible: true,
            period_completed: Some(state.current_period),
            home_score: Some(state.home_score),
            away_score: Some(state.away_score),
        };
    }

    /// The goal animation's timer has fired at `now_ms`.
    pub fn expire_goal_animation(&mut self, now_ms: u64)
        ensures
            final(self).display == after_goal_expiry(
                old(self).display,
                state_in_break(old(self).game_state),
                now_ms,
            ),
            final(self).game_state == old(self).game_state,
            final(self).match_config == old(self).match_config,
            timers_consistent(old(self).display) ==> timers_consistent(final(self).display),
            centre_exclusive(old(self).display) && old(self).display.goal_animation.visible
                ==> centre_exclusive(final(self).display),
            !final(self).display.goal_animation.visible,
            final(self).display.goal_animation.expires_at is None,
            // A foul-out notice whose time has not run out comes back.
            (old(self).display.foul_out.expires_at matches Some(e) && e > now_ms)
                ==> final(self).display.foul_out.visible,
            // Outside a break, with no foul-out notice to bring back, the
            // quarter summary stays as it was.
            !(old(self).game_state matches Some(g) && (g.status == MatchStatus::PeriodBreak
                || g.status == MatchStatus::Halftime)) && !(old(self).display.foul_out.expires_at
                matches Some(e) && e > now_ms) ==> final(self).display.quarter_summary
                == old(self).display.quarter_summary && final(self).display.foul_out
                == old(self).display.foul_out,
    {
        let in_break = match &self.game_state {
            Some(gs) => is_break_status(gs.status),
            None => false,
        };
        self.display.goal_animation.visible = false;
        self.display.goal_animation.expires_at = None;
        let foul_running = match self.display.foul_out.expires_at {
            Some(e) => e > now_ms,
            None => false,
        };
        if foul_running {
            // Restore the foul-out notice while its time runs (it outranks the summary).
            self.display.foul_out.visible = true;
        } else if in_break {
            // Restore the quarter summary while the break lasts.
            self.display.quarter_summary.visible = true;
        }
    }

    /// The foul-out timer has fired.
    pub fn expire_foul_out(&mut self)
        ensures
            final(self).display == after_foul_out_expiry(
                old(self).display,
                state_in_break(old(self).game_state),
            ),
            final(self).game_state == old(self).game_state,
            final(self).match_config == old(self).match_config,
            timers_consistent(old(self).display) ==> timers_consistent(final(self).display),
            centre_exclusive(old(self).display) ==> centre_exclusive(final(self).display),
            !final(self).display.foul_out.visible,
            final(self).display.foul_out.expires_at is None,
            final(self).display.goal_animation == old(self).display.goal_animation,
            // Outside a break nothing returns to the centre region.
            !(old(self).game_state matches Some(g) && (g.status == MatchStatus::PeriodBreak
                || g.status == MatchStatus::Halftime)) ==> final(self).display.quarter_summary
                == old(self).display.quarter_summary,
            // During a break the summary returns once no goal animation runs.
            (old(self).game_state matches Some(g) && (g.status == MatchStatus::PeriodBreak
                || g.status == MatchStatus::Halftime)) && !old(self).display.goal_animation.visible
                ==> final(self).display.quarter_summary.visible,
    {
        let in_break = match &self.game_state {
            Some(gs) => is_break_status(gs.status),
            None => false,
        };
        self.display.foul_out.visible = false;
        self.display.foul_out.expires_at = None;
        // The quarter summary returns only while the centre region is free.
        if in_break && !self.display.goal_animation.visible {
            self.display.quarter_summary.visible = true;
        }
    }
}

/// The initial display has no transient overlay and nothing in the centre.
pub proof fn initial_display_well_formed()
    ensures
        timers_consistent(initial_display()),
        centre_exclusive(initial_display()),
{
}

/// A goal takes the centre region alone: whatever else the same update
/// brings, the goal animation shows and the foul-out notice and quarter
/// summary are hidden.
pub proof fn goal_takes_centre(
    d: DisplayState,
    mc: Option<MatchConfig>,
    old: GameState,
    new: GameState,
    last_event: Option<LastEvent>,
    now_ms: u64,
)
    requires
        scored(old, new),
    ensures
        ({
            let r = updated_display(d, mc, Some(old), new, last_event, now_ms);
            &&& r.goal_animation.visible
            &&& r.goal_animation.scoring_team == Some(scoring_team(old, new))
            &&& r.goal_animation.home_score == Some(new.home_score)
            &&& r.goal_animation.away_score == Some(new.away_score)
            &&& !r.foul_out.visible
            &&& !r.quarter_summary.visible
        }),
{
}

/// A goal animation starts only when a score goes up: an update in which
/// neither score rises (a repeated state, or a goal taken back) leaves the
/// goal animation exactly as it was and starts no goal timer.
pub proof fn goal_only_on_score_rise(
    d: DisplayState,
    mc: Option<MatchConfig>,
    old: GameState,
    new: GameState,
    last_event: Option<LastEvent>,
    now_ms: u64,
)
    requires
        new.home_score <= old.home_score,
        new.away_score <= old.away_score,
    ensures
        !scored(old, new),
        updated_display(d, mc, Some(old), new, last_event, now_ms).goal_animation
            == d.goal_animation,
{
}

/// Every rise of a score starts the goal animation for the side that
/// scored (the home side when both rose), showing the new score and timed
/// to end after [`GOAL_ANIMATION_MS`].
pub proof fn goal_follows_score_rise(
    d: DisplayState,
    mc: Option<MatchConfig>,
    old: GameState,
    new: GameState,
    last_event: Option<LastEvent>,
    now_ms: u64,
)
    requires
        new.home_score > old.home_score || new.away_score > old.away_score,
        now_ms + GOAL_ANIMATION_MS <= u64::MAX,
    ensures
        scored(old, new),
        ({
            let g = updated_display(d, mc, Some(old), new, last_event, now_ms).goal_animation;
            &&& g.visible
            &&& g.expires_at == Some((now_ms + 5000) as u64)
            &&& g.scoring_team == Some(
                if new.home_score > old.home_score {
                    Possession::Home
                } else {
                    Possession::Away
                },
            )
            &&& g.home_score == Some(new.home_score)
            &&& g.away_score == Some(new.away_score)
        }),
{
}

/// When play starts, or resumes after a period break or halftime, the
/// quarter summary leaves the screen.
pub proof fn play_resuming_clears_summary(
    d: DisplayState,
    mc: Option<MatchConfig>,
    old: GameState,
    new: GameState,
    last_event: Option<LastEvent>,
    now_ms: u64,
)
    requires
        new.status == MatchStatus::InProgress,
        old.status == MatchStatus::PeriodBreak || old.status == MatchStatus::Halftime
            || old.status == MatchStatus::NotStarted,
    ensures
        !updated_display(d, mc, Some(old), new, last_event, now_ms).quarter_summary.visible,
{
}

/// The persistent overlays follow the new state alone, whatever the
/// previous state and display: the exclusions panel shows exactly while an
/// exclusion runs, in every status; the scorebug shows except in a
/// shootout, the shootout overlay only then; the possession clock shows
/// while it has a value and play runs.
pub proof fn persistent_overlays_follow_state(
    d: DisplayState,
    mc: Option<MatchConfig>,
    old: Option<GameState>,
    new: GameState,
    last_event: Option<LastEvent>,
    now_ms: u64,
)
    ensures
        ({
            let r = updated_display(d, mc, old, new, last_event, now_ms);
            &&& r.exclusions.visible == (new.active_exclusions.len() > 0)
            &&& r.scorebug.visible == (new.status != MatchStatus::Shootout)
            &&& r.shootout.visible == (new.status == MatchStatus::Shootout)
            &&& r.possession_clock.visible == (new.possession_clock_secs is Some && new.status
                == MatchStatus::InProgress)
        }),
{
}

/// When the foul-out timer fires outside a period break or halftime, the
/// notice goes and nothing returns to the centre region: the quarter
/// summary stays as it was.
pub proof fn foul_out_expiry_outside_break(d: DisplayState, gs: Option<GameState>)
    requires
        !(gs matches Some(g) && (g.status == MatchStatus::PeriodBreak || g.status
            == MatchStatus::Halftime)),
    ensures
        ({
            let r = after_foul_out_expiry(d, state_in_break(gs));
            &&& !r.foul_out.visible
            &&& r.foul_out.expires_at is None
            &&& r.quarter_summary == d.quarter_summary
            &&& r.goal_animation == d.goal_animation
        }),
{
}

/// When the goal timer fires outside a period break or halftime and no
/// foul-out notice is left to bring back, the goal animation goes and the
/// rest of the centre region stays as it was.
pub proof fn goal_expiry_outside_break(d: DisplayState, gs: Option<GameState>, now_ms: u64)
    requires
        !(gs matches Some(g) && (g.status == MatchStatus::PeriodBreak || g.status
            == MatchStatus::Halftime)),
        !(d.foul_out.expires_at matches Some(e) && e > now_ms),
    ensures
        ({
            let r = after_goal_expiry(d, state_in_break(gs), now_ms);
            &&& !r.goal_animation.visible
            &&& r.goal_animation.expires_at is None
            &&& r.quarter_summary == d.quarter_summary
            &&& r.foul_out == d.foul_out
        }),
{
}

/// When a period break or halftime begins and the centre region is free
/// (no goal scored in the same update, no foul-out announced, nothing
/// showing before), the quarter summary shows the period just completed
/// and the score.
pub proof fn break_start_shows_summary(
    d: DisplayState,
    mc: Option<MatchConfig>,
    old: GameState,
    new: GameState,
    last_event: Option<LastEvent>,
    now_ms: u64,
)
    requires
        new.status == MatchStatus::PeriodBreak || new.status == MatchStatus::Halftime,
        old.status != MatchStatus::PeriodBreak && old.status != MatchStatus::Halftime,
        new.home_score <= old.home_score,
        new.away_score <= old.away_score,
        announced_foul_out(mc, old, new) is None,
        !d.goal_animation.visible,
        !d.foul_out.visible,
    ensures
        updated_display(d, mc, Some(old), new, last_event, now_ms).quarter_summary
            == (QuarterSummaryState {
            visible: true,
            period_completed: Some(new.current_period),
            home_score: Some(new.home_score),
            away_score: Some(new.away_score),
        }),
{
}

/// The foul-out notice is announced exactly when the foul limit applies
/// (no rule set, or one that enforces it) and some player in the new list
/// of players excluded for the game was not in the old one; the player
/// announced is the last such newcomer in the list.
pub proof fn foul_out_announces_last_newcomer(
    mc: Option<MatchConfig>,
    old: GameState,
    new: GameState,
)
    ensures
        ({
            let old_ids = ids_of(old.players_excluded_for_game@);
            let new_ids = ids_of(new.players_excluded_for_game@);
            &&& announced_foul_out(mc, old, new) is None <==> ((mc matches Some(c)
                && !c.rule_set.foul_limit_enforced) || forall|k: int|
                0 <= k < new_ids.len() ==> old_ids.contains(#[trigger] new_ids[k]))
            &&& announced_foul_out(mc, old, new) matches Some(id) ==> exists|k: int|
                0 <= k < new_ids.len() && #[trigger] new_ids[k] == id && !old_ids.contains(id)
                    && forall|j: int| k < j < new_ids.len() ==> old_ids.contains(#[trigger] new_ids[j])
        }),
{
    let old_ids = ids_of(old.players_excluded_for_game@);
    let new_ids = ids_of(new.players_excluded_for_game@);
    lemma_no_new_exclusion(old_ids, new_ids);
    if forall|k: int| 0 <= k < new_ids.len() ==> old_ids.contains(#[trigger] new_ids[k]) {
        lemma_nothing_new_when_all_held(old_ids, new_ids);
    }
    lemma_last_new_exclusion_is_last_newcomer(old_ids, new_ids);
}

/// An announced foul-out, with no goal animation on screen, shows at once
/// for [`FOUL_OUT_MS`] with the player's cap number and foul count, and
/// takes the quarter summary off the screen.
pub proof fn foul_out_shows_when_centre_free(
    d: DisplayState,
    mc: Option<MatchConfig>,
    old: GameState,
    new: GameState,
    last_event: Option<LastEvent>,
    now_ms: u64,
)
    requires
        !d.goal_animation.visible,
        new.home_score <= old.home_score,
        new.away_score <= old.away_score,
        announced_foul_out(mc, old, new) is Some,
        now_ms + FOUL_OUT_MS <= u64::MAX,
    ensures
        ({
            let id = announced_foul_out(mc, old, new)->0;
            let r = updated_display(d, mc, Some(old), new, last_event, now_ms);
            &&& r.foul_out.visible
            &&& r.foul_out.expires_at == Some((now_ms + 6000) as u64)
            &&& r.foul_out.cap_number == exclusion_cap_of(new.active_exclusions@, id)
            &&& r.foul_out.foul_count == foul_count_of(new.player_foul_counts@, id)
            &&& !r.quarter_summary.visible
        }),
{
}

/// The scorebug and the shootout overlay never show together, and one of
/// them always shows.
pub proof fn scorebug_or_shootout(
    d: DisplayState,
    mc: Option<MatchConfig>,
    old: Option<GameState>,
    new: GameState,
    last_event: Option<LastEvent>,
    now_ms: u64,
)
    ensures
        ({
            let r = updated_display(d, mc, old, new, last_event, now_ms);
            r.scorebug.visible != r.shootout.visible
        }),
{
}

/// A foul-out notice hidden by a goal comes back when the goal animation
/// ends, as long as its own time has not run out.
pub proof fn foul_out_returns_after_goal(d: DisplayState, in_break: bool, now_ms: u64)
    requires
        d.foul_out.expires_at matches Some(e) && e > now_ms,
    ensures
        after_goal_expiry(d, in_break, now_ms).foul_out.visible,
        !after_goal_expiry(d, in_break, now_ms).goal_animation.visible,
{
}

/// A repeated game state is quiet: it starts no timer and changes nothing
/// but the overlays that follow the state anyway.
pub proof fn repeated_state_is_quiet(
    d: DisplayState,
    mc: Option<MatchConfig>,
    g: GameState,
    last_event: Option<LastEvent>,
    now_ms: u64,
)
    ensures
        !scored(g, g),
        announced_foul_out(mc, g, g) is None,
        updated_display(d, mc, Some(g), g, last_event, now_ms) == with_persistent(d, g),
{
    let ids = ids_of(g.players_excluded_for_game@);
    lemma_nothing_new_when_all_held(ids, ids);
}

/// A list whose every entry is already held announces nobody.
proof fn lemma_nothing_new_when_all_held(old_ids: Seq<Seq<char>>, new_ids: Seq<Seq<char>>)
    requires
        forall|k: int| 0 <= k < new_ids.len() ==> old_ids.contains(#[trigger] new_ids[k]),
    ensures
        last_new_exclusion(old_ids, new_ids) is None,
    decreases new_ids.len(),
{
    if new_ids.len() > 0 {
        assert(old_ids.contains(new_ids[new_ids.len() - 1]));
        let rest = new_ids.drop_last();
        assert forall|k: int| 0 <= k < rest.len() implies old_ids.contains(#[trigger] rest[k]) by {
            assert(rest[k] == new_ids[k]);
        }
        lemma_nothing_new_when_all_held(old_ids, rest);
    }
}

/// No player id occurs twice among the foul counts, as in a map from
/// player to count.
pub open spec fn player_ids_distinct(counts: Seq<(String, u32)>) -> bool {
    forall|i: int, j: int|
        0 <= i < j < counts.len() ==> #[trigger] counts[i].0@ != #[trigger] counts[j].0@
}

/// With distinct player ids the foul counts read as a map: a player's
/// count is the one recorded for them, and a player without an entry has
/// none.
pub proof fn foul_count_is_map_lookup(counts: Seq<(String, u32)>, id: Seq<char>)
    requires
        player_ids_distinct(counts),
    ensures
        forall|k: int|
            0 <= k < counts.len() && #[trigger] counts[k].0@ == id ==> foul_count_of(counts, id)
                == Some(counts[k].1),
        (forall|k: int| 0 <= k < counts.len() ==> #[trigger] counts[k].0@ != id) ==> foul_count_of(
            counts,
            id,
        ) is None,
    decreases counts.len(),
{
    if counts.len() > 0 {
        let rest = counts.drop_first();
        assert forall|i: int, j: int| 0 <= i < j < rest.len() implies #[trigger] rest[i].0@
            != #[trigger] rest[j].0@ by {
            assert(rest[i] == counts[i + 1]);
            assert(rest[j] == counts[j + 1]);
        }
        foul_count_is_map_lookup(rest, id);
        assert forall|k: int|
            0 <= k < counts.len() && #[trigger] counts[k].0@ == id implies foul_count_of(
                counts,
                id,
            ) == Some(counts[k].1) by {
            if k > 0 {
                assert(counts[0].0@ != counts[k].0@);
                assert(rest[k - 1] == counts[k]);
            }
        }
        if forall|k: int| 0 <= k < counts.len() ==> #[trigger] counts[k].0@ != id {
            assert forall|k: int| 0 <= k < rest.len() implies #[trigger] rest[k].0@ != id by {
                assert(rest[k] == counts[k + 1]);
            }
            assert(counts[0].0@ != id);
        }
    }
}

/// Every state update, whatever the clock reads, keeps a transient overlay
/// on screen only while it is timed, and the centre region to at most one
/// overlay.
pub proof fn update_keeps_invariants(
    d: DisplayState,
    mc: Option<MatchConfig>,
    old: Option<GameState>,
    new: GameState,
    last_event: Option<LastEvent>,
    now_ms: u64,
)
    ensures
        timers_consistent(d) ==> timers_consistent(
            updated_display(d, mc, old, new, last_event, now_ms),
        ),
        centre_exclusive(d) ==> centre_exclusive(
            updated_display(d, mc, old, new, last_event, now_ms),
        ),
{
    if let Some(o) = old {
        lemma_transient_keeps_invariants(d, mc, o, new, last_event, now_ms);
    }
}

/// Every update keeps a transient overlay on screen only while timed, and
/// the centre region to at most one overlay.
proof fn lemma_transient_keeps_invariants(
    d: DisplayState,
    mc: Option<MatchConfig>,
    old: GameState,
    new: GameState,
    last_event: Option<LastEvent>,
    now_ms: u64,
)
    ensures
        timers_consistent(d) ==> timers_consistent(
            transient_update(d, mc, old, new, last_event, now_ms),
        ),
        centre_exclusive(d) ==> centre_exclusive(
            transient_update(d, mc, old, new, last_event, now_ms),
        ),
{
}

/// When no entry is announced, every entry of the new list was already held.
proof fn lemma_no_new_exclusion(old_ids: Seq<Seq<char>>, new_ids: Seq<Seq<char>>)
    ensures
        last_new_exclusion(old_ids, new_ids) is None ==> forall|k: int|
            0 <= k < new_ids.len() ==> old_ids.contains(#[trigger] new_ids[k]),
    decreases new_ids.len(),
{
    if new_ids.len() > 0 {
        lemma_no_new_exclusion(old_ids, new_ids.drop_last());
        assert forall|k: int| 0 <= k < new_ids.len() - 1 implies new_ids.drop_last()[k]
            == new_ids[k] by {}
    }
}

/// Extending the new list by one entry either announces that entry or keeps
/// the earlier announcement.
proof fn lemma_last_new_exclusion_prefix(
    old_ids: Seq<Seq<char>>,
    new_ids: Seq<Seq<char>>,
    k: int,
)
    requires
        0 < k <= new_ids.len(),
    ensures
        last_new_exclusion(old_ids, new_ids.take(k)) == if !old_ids.contains(new_ids[k - 1]) {
            Some(new_ids[k - 1])
        } else {
            last_new_exclusion(old_ids, new_ids.take(k - 1))
        },
{
    assert(new_ids.take(k).drop_last() =~= new_ids.take(k - 1));
    assert(new_ids.take(k).last() == new_ids[k - 1]);
}

/// The entry announced is a newcomer after which every entry was already held.
proof fn lemma_last_new_exclusion_is_last_newcomer(old_ids: Seq<Seq<char>>, new_ids: Seq<Seq<char>>)
    ensures
        last_new_exclusion(old_ids, new_ids) matches Some(id) ==> exists|k: int|
            0 <= k < new_ids.len() && #[trigger] new_ids[k] == id && !old_ids.contains(id)
                && forall|j: int| k < j < new_ids.len() ==> old_ids.contains(#[trigger] new_ids[j]),
    decreases new_ids.len(),
{
    if new_ids.len() > 0 {
        let n = new_ids.len() - 1;
        if !old_ids.contains(new_ids.last()) {
            assert(new_ids[n] == new_ids.last());
        } else {
            let rest = new_ids.drop_last();
            lemma_last_new_exclusion_is_last_newcomer(old_ids, rest);
            if last_new_exclusion(old_ids, rest) is Some {
                let k = choose|k: int|
                    0 <= k < rest.len() && #[trigger] rest[k] == last_new_exclusion(
                        old_ids,
                        rest,
                    )->0 && !old_ids.contains(rest[k]) && forall|j: int|
                        k < j < rest.len() ==> old_ids.contains(#[trigger] rest[j]);
                assert(new_ids[k] == rest[k]);
                assert forall|j: int| k < j < new_ids.len() implies old_ids.contains(
                    #[trigger] new_ids[j],
                ) by {
                    if j < n {
                        assert(new_ids[j] == rest[j]);
                    }
                }
            }
        }
    }
}

} // verus!
