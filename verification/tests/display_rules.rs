use chukka_obs::display::{DisplayEngine, TimerActions, FOUL_OUT_MS, GOAL_ANIMATION_MS};
use chukka_obs::models::{
    ActiveExclusion, DisplayState, ExclusionType, GameState, LastEvent, MatchConfig, MatchStatus,
    Possession, RuleSetConfig, TeamConfig,
};

fn game(status: MatchStatus, home: u32, away: u32) -> GameState {
    GameState {
        match_id: "m1".to_string(),
        status,
        current_period: 2,
        period_clock_secs: 245,
        home_score: home,
        away_score: away,
        possession: Possession::Home,
        possession_clock_secs: None,
        possession_clock_mode: None,
        home_timeouts_remaining: 2,
        away_timeouts_remaining: 2,
        active_exclusions: Vec::new(),
        player_foul_counts: Vec::new(),
        players_excluded_for_game: Vec::new(),
        shootout_state: None,
    }
}

fn exclusion(player: &str, cap: u32) -> ActiveExclusion {
    ActiveExclusion {
        player_id: player.to_string(),
        team_id: "t1".to_string(),
        cap_number: cap,
        remaining_secs: 20,
        exclusion_type: ExclusionType::Standard,
        substitute_eligible_at_secs: None,
    }
}

fn team(short: &str) -> TeamConfig {
    TeamConfig {
        id: None,
        name: short.to_string(),
        short_name: short.to_string(),
        cap_colour: "blue".to_string(),
        cap_label: "white".to_string(),
        logo_url: None,
    }
}

fn goal_event(cap: u64) -> LastEvent {
    LastEvent { event_type: "goal".to_string(), cap_number: Some(cap) }
}

const NOW: u64 = 1_700_000_000_000;

#[test]
fn default_display_shows_only_scorebug() {
    let d = DisplayState::default();
    assert!(d.scorebug.visible);
    assert!(!d.exclusions.visible);
    assert!(!d.goal_animation.visible);
    assert_eq!(d.goal_animation.expires_at, None);
    assert!(!d.foul_out.visible);
    assert!(!d.quarter_summary.visible);
    assert!(!d.lower_third.visible);
    assert!(!d.possession_clock.visible);
    assert!(!d.shootout.visible);
}

#[test]
fn home_goal_starts_animation_with_scorer_cap() {
    let mut e = DisplayEngine::new();
    let old = game(MatchStatus::InProgress, 1, 1);
    let new = game(MatchStatus::InProgress, 2, 1);
    let t = e.on_state_update(Some(&old), &new, Some(&goal_event(7)), NOW);
    assert_eq!(t, TimerActions { restart_goal_timer: true, restart_foul_out_timer: false });
    let g = e.display.goal_animation;
    assert!(g.visible);
    assert_eq!(g.expires_at, Some(NOW + GOAL_ANIMATION_MS));
    assert_eq!(g.expires_at, Some(NOW + 5000));
    assert_eq!(g.scoring_team, Some(Possession::Home));
    assert_eq!(g.cap_number, Some(7));
    assert_eq!(g.home_score, Some(2));
    assert_eq!(g.away_score, Some(1));
}

#[test]
fn away_goal_without_goal_event_has_no_cap() {
    let mut e = DisplayEngine::new();
    let old = game(MatchStatus::InProgress, 3, 4);
    let new = game(MatchStatus::InProgress, 3, 5);
    let other = LastEvent { event_type: "timeout".to_string(), cap_number: Some(9) };
    e.on_state_update(Some(&old), &new, Some(&other), NOW);
    assert_eq!(e.display.goal_animation.scoring_team, Some(Possession::Away));
    assert_eq!(e.display.goal_animation.cap_number, None);
}

#[test]
fn both_sides_scoring_credits_home() {
    let mut e = DisplayEngine::new();
    let old = game(MatchStatus::InProgress, 0, 0);
    let new = game(MatchStatus::InProgress, 1, 1);
    e.on_state_update(Some(&old), &new, None, NOW);
    assert_eq!(e.display.goal_animation.scoring_team, Some(Possession::Home));
}

#[test]
fn scorer_cap_is_truncated_to_32_bits() {
    let mut e = DisplayEngine::new();
    let old = game(MatchStatus::InProgress, 0, 0);
    let new = game(MatchStatus::InProgress, 1, 0);
    e.on_state_update(Some(&old), &new, Some(&goal_event((1u64 << 32) + 5)), NOW);
    assert_eq!(e.display.goal_animation.cap_number, Some(5));
}

#[test]
fn first_state_shows_no_transient_overlay() {
    let mut e = DisplayEngine::new();
    let new = game(MatchStatus::PeriodBreak, 5, 0);
    let t = e.on_state_update(None, &new, Some(&goal_event(3)), NOW);
    assert_eq!(t, TimerActions { restart_goal_timer: false, restart_foul_out_timer: false });
    assert!(!e.display.goal_animation.visible);
    assert!(!e.display.quarter_summary.visible);
    assert!(e.display.scorebug.visible);
}

#[test]
fn foul_out_is_announced_with_cap_and_count() {
    let mut e = DisplayEngine::new();
    let old = game(MatchStatus::InProgress, 1, 1);
    let mut new = game(MatchStatus::InProgress, 1, 1);
    new.players_excluded_for_game = vec!["p9".to_string()];
    new.active_exclusions = vec![exclusion("p4", 4), exclusion("p9", 9)];
    new.player_foul_counts = vec![("p4".to_string(), 1), ("p9".to_string(), 3)];
    let t = e.on_state_update(Some(&old), &new, None, NOW);
    assert_eq!(t, TimerActions { restart_goal_timer: false, restart_foul_out_timer: true });
    let f = e.display.foul_out;
    assert!(f.visible);
    assert_eq!(f.expires_at, Some(NOW + FOUL_OUT_MS));
    assert_eq!(f.expires_at, Some(NOW + 6000));
    assert_eq!(f.team, None);
    assert_eq!(f.cap_number, Some(9));
    assert_eq!(f.foul_count, Some(3));
    assert!(e.display.exclusions.visible);
}

#[test]
fn already_excluded_player_is_not_announced_again() {
    let mut e = DisplayEngine::new();
    let mut old = game(MatchStatus::InProgress, 1, 1);
    old.players_excluded_for_game = vec!["p9".to_string()];
    let mut new = game(MatchStatus::InProgress, 1, 1);
    new.players_excluded_for_game = vec!["p9".to_string()];
    let t = e.on_state_update(Some(&old), &new, None, NOW);
    assert!(!t.restart_foul_out_timer);
    assert!(!e.display.foul_out.visible);
}

#[test]
fn last_new_foul_out_wins() {
    let mut e = DisplayEngine::new();
    let mut old = game(MatchStatus::InProgress, 1, 1);
    old.players_excluded_for_game = vec!["p1".to_string()];
    let mut new = game(MatchStatus::InProgress, 1, 1);
    new.players_excluded_for_game =
        vec!["p2".to_string(), "p1".to_string(), "p3".to_string()];
    new.player_foul_counts = vec![("p2".to_string(), 3), ("p3".to_string(), 4)];
    e.on_state_update(Some(&old), &new, None, NOW);
    assert_eq!(e.display.foul_out.foul_count, Some(4));
    assert_eq!(e.display.foul_out.cap_number, None);
}

#[test]
fn foul_limit_off_suppresses_foul_out() {
    let mut e = DisplayEngine::new();
    e.match_config = Some(MatchConfig {
        home_team: team("HOM"),
        away_team: team("AWY"),
        rule_set: RuleSetConfig {
            possession_clock_enabled: true,
            foul_limit_enforced: false,
            periods: 4,
        },
    });
    let old = game(MatchStatus::InProgress, 1, 1);
    let mut new = game(MatchStatus::InProgress, 1, 1);
    new.players_excluded_for_game = vec!["p9".to_string()];
    let t = e.on_state_update(Some(&old), &new, None, NOW);
    assert!(!t.restart_foul_out_timer);
    assert!(!e.display.foul_out.visible);
}

#[test]
fn foul_out_during_goal_is_timed_but_hidden() {
    let mut e = DisplayEngine::new();
    let old = game(MatchStatus::InProgress, 1, 1);
    let mut new = game(MatchStatus::InProgress, 2, 1);
    new.players_excluded_for_game = vec!["p9".to_string()];
    let t = e.on_state_update(Some(&old), &new, Some(&goal_event(4)), NOW);
    assert_eq!(t, TimerActions { restart_goal_timer: true, restart_foul_out_timer: true });
    assert!(e.display.goal_animation.visible);
    assert!(!e.display.foul_out.visible);
    assert_eq!(e.display.foul_out.expires_at, Some(NOW + 6000));
    // The goal animation ends while the notice's time still runs: it returns.
    e.expire_goal_animation(NOW + 5000);
    assert!(!e.display.goal_animation.visible);
    assert_eq!(e.display.goal_animation.expires_at, None);
    assert!(e.display.foul_out.visible);
    e.expire_foul_out();
    assert!(!e.display.foul_out.visible);
    assert_eq!(e.display.foul_out.expires_at, None);
}

#[test]
fn entering_break_shows_quarter_summary() {
    let mut e = DisplayEngine::new();
    let old = game(MatchStatus::InProgress, 4, 2);
    let new = game(MatchStatus::PeriodBreak, 4, 2);
    e.on_state_update(Some(&old), &new, None, NOW);
    let q = e.display.quarter_summary;
    assert!(q.visible);
    assert_eq!(q.period_completed, Some(2));
    assert_eq!(q.home_score, Some(4));
    assert_eq!(q.away_score, Some(2));
}

#[test]
fn halftime_after_break_does_not_reshow_summary() {
    let mut e = DisplayEngine::new();
    let old = game(MatchStatus::PeriodBreak, 4, 2);
    let new = game(MatchStatus::Halftime, 4, 2);
    e.on_state_update(Some(&old), &new, None, NOW);
    assert!(!e.display.quarter_summary.visible);
}

#[test]
fn goal_then_break_keeps_summary_hidden_until_goal_ends() {
    let mut e = DisplayEngine::new();
    let old = game(MatchStatus::InProgress, 1, 1);
    let new = game(MatchStatus::Halftime, 2, 1);
    e.on_state_update(Some(&old), &new, None, NOW);
    assert!(e.display.goal_animation.visible);
    assert!(!e.display.quarter_summary.visible);
    e.game_state = Some(new.clone());
    e.expire_goal_animation(NOW + 5000);
    assert!(e.display.quarter_summary.visible);
}

#[test]
fn period_start_clears_summary() {
    let mut e = DisplayEngine::new();
    let old = game(MatchStatus::InProgress, 4, 2);
    let brk = game(MatchStatus::PeriodBreak, 4, 2);
    e.on_state_update(Some(&old), &brk, None, NOW);
    assert!(e.display.quarter_summary.visible);
    let start = game(MatchStatus::InProgress, 4, 2);
    e.on_state_update(Some(&brk), &start, None, NOW + 60_000);
    assert!(!e.display.quarter_summary.visible);
    assert_eq!(e.display.quarter_summary.period_completed, Some(2));
}

#[test]
fn persistent_overlays_follow_state() {
    let mut e = DisplayEngine::new();
    let mut s = game(MatchStatus::InProgress, 0, 0);
    s.possession_clock_secs = Some(28);
    s.active_exclusions = vec![exclusion("p1", 1)];
    e.on_state_update(None, &s, None, NOW);
    assert!(e.display.scorebug.visible);
    assert!(!e.display.shootout.visible);
    assert!(e.display.exclusions.visible);
    assert!(e.display.possession_clock.visible);

    let mut so = game(MatchStatus::Shootout, 10, 10);
    so.possession_clock_secs = Some(28);
    e.on_state_update(Some(&s), &so, None, NOW);
    assert!(!e.display.scorebug.visible);
    assert!(e.display.shootout.visible);
    assert!(!e.display.exclusions.visible);
    assert!(!e.display.possession_clock.visible);
}

#[test]
fn foul_out_expiry_in_break_restores_summary() {
    let mut e = DisplayEngine::new();
    let old = game(MatchStatus::InProgress, 1, 1);
    let mut new = game(MatchStatus::InProgress, 1, 1);
    new.players_excluded_for_game = vec!["p9".to_string()];
    e.on_state_update(Some(&old), &new, None, NOW);
    let mut brk = new.clone();
    brk.status = MatchStatus::PeriodBreak;
    e.on_state_update(Some(&new), &brk, None, NOW + 1000);
    // The foul-out notice holds the centre, so the summary waits.
    assert!(e.display.foul_out.visible);
    assert!(!e.display.quarter_summary.visible);
    e.game_state = Some(brk);
    e.expire_foul_out();
    assert!(!e.display.foul_out.visible);
    assert!(e.display.quarter_summary.visible);
}

#[test]
fn goal_expiry_outside_break_with_expired_foul_out_shows_nothing() {
    let mut e = DisplayEngine::new();
    let old = game(MatchStatus::InProgress, 1, 1);
    let mut new = game(MatchStatus::InProgress, 2, 1);
    new.players_excluded_for_game = vec!["p9".to_string()];
    e.on_state_update(Some(&old), &new, None, NOW);
    e.game_state = Some(new);
    // The notice's own time is already over when the goal animation ends.
    e.expire_goal_animation(NOW + 6000);
    assert!(!e.display.goal_animation.visible);
    assert!(!e.display.foul_out.visible);
    assert!(!e.display.quarter_summary.visible);
}

#[test]
fn repeated_state_is_quiet() {
    let mut e = DisplayEngine::new();
    let mut g = game(MatchStatus::PeriodBreak, 3, 2);
    g.players_excluded_for_game = vec!["p1".to_string(), "p2".to_string()];
    let t = e.on_state_update(Some(&g), &g, Some(&goal_event(1)), NOW);
    assert_eq!(t, TimerActions { restart_goal_timer: false, restart_foul_out_timer: false });
    assert!(!e.display.goal_animation.visible);
    assert!(!e.display.foul_out.visible);
    assert!(!e.display.quarter_summary.visible);
    assert!(e.display.scorebug.visible);
}

#[test]
fn foul_out_expiry_during_goal_in_break_waits_for_goal() {
    let mut e = DisplayEngine::new();
    // A foul-out is announced, then a goal is scored as the period ends.
    let old = game(MatchStatus::InProgress, 1, 1);
    let mut fouled = game(MatchStatus::InProgress, 1, 1);
    fouled.players_excluded_for_game = vec!["p9".to_string()];
    e.on_state_update(Some(&old), &fouled, None, NOW);
    let mut brk = fouled.clone();
    brk.status = MatchStatus::Halftime;
    brk.home_score = 2;
    e.on_state_update(Some(&fouled), &brk, None, NOW + 2000);
    e.game_state = Some(brk);
    assert!(e.display.goal_animation.visible);
    // The foul-out timer fires while the goal animation is still up.
    e.expire_foul_out();
    assert!(!e.display.foul_out.visible);
    assert!(e.display.goal_animation.visible);
    assert!(!e.display.quarter_summary.visible);
    // The summary returns once the goal animation ends.
    e.expire_goal_animation(NOW + 7000);
    assert!(!e.display.goal_animation.visible);
    assert!(e.display.quarter_summary.visible);
}
