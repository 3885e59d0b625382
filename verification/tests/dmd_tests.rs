use neon_blue::dmd::attract_dmd_screen::AttractDmdScreen;
use neon_blue::dmd::attract_dmd_state::AttractDmdState;
use neon_blue::dmd::attract_mode_dmd_system::{rnd_animation, AttractModeDmdSystem, AttractScreen};
use neon_blue::dmd::scoreboard::{draw_competitive, in_game_labels, CompetitiveGame, GamePointsDmdSystem};
use neon_blue::signals::{Action, CueTiming, Signal, SwitchClosed, Timer};

fn switch() -> SwitchClosed {
    SwitchClosed {
        pop: None,
        pop_target: None,
        drop_target: None,
        lower_sling_target: false,
        captive_ball_target: false,
        left_pop_spoon: false,
        left_flipper: false,
        right_flipper: false,
        playfield: false,
        slingshot: false,
        does_not_cancel_skillshot: false,
        right_pass_lane: false,
    }
}

#[test]
fn screen_rotation_order() {
    let ordered = AttractDmdScreen::ordered();
    assert_eq!(ordered.len(), 8);
    assert_eq!(ordered[0], AttractDmdScreen::NeonBluePinball);
    assert_eq!(AttractDmdScreen::NeonBluePinball.next(), AttractDmdScreen::Spore);
    assert_eq!(AttractDmdScreen::LastScores(1).next(), AttractDmdScreen::PressStart);
    assert_eq!(AttractDmdScreen::FastFrontboxLogos.next(), AttractDmdScreen::NeonBluePinball);
    assert_eq!(AttractDmdScreen::NeonBluePinball.prev(), AttractDmdScreen::FastFrontboxLogos);
}

#[test]
fn screen_next_then_prev_returns() {
    for s in AttractDmdScreen::ordered() {
        assert_eq!(s.next().prev(), s);
        assert_eq!(s.prev().next(), s);
        let mut t = s;
        for _ in 0..8 {
            t = t.next();
        }
        assert_eq!(t, s);
    }
}

#[test]
fn state_rotation_order() {
    let ordered = AttractDmdState::ordered();
    assert_eq!(
        ordered,
        vec![
            AttractDmdState::NeonBluePinball,
            AttractDmdState::Spore,
            AttractDmdState::LastScores(0),
            AttractDmdState::LastScores(1),
            AttractDmdState::PressStart,
            AttractDmdState::LastScores(2),
            AttractDmdState::LastScores(3),
        ]
    );
    assert_eq!(AttractDmdState::LastScores(3).next(), AttractDmdState::NeonBluePinball);
    assert_eq!(AttractDmdState::Spore.prev(), AttractDmdState::NeonBluePinball);
    for s in AttractDmdState::ordered() {
        assert_eq!(s.next().prev(), s);
        let mut t = s;
        for _ in 0..7 {
            t = t.next();
        }
        assert_eq!(t, s);
    }
}

#[test]
fn spore_animation_stays_in_range() {
    let mut cycles_seen = [false, false];
    let mut durations = Vec::new();
    for _ in 0..200 {
        let a = rnd_animation(5);
        assert!(a.end_frame >= 1 && a.end_frame < 5);
        assert!(a.duration_ms >= 2000 && a.duration_ms <= 3000);
        assert!(a.cycles >= 1 && a.cycles <= 2);
        cycles_seen[(a.cycles - 1) as usize] = true;
        durations.push(a.duration_ms);
    }
    // the picks are drawn, not fixed
    assert!(cycles_seen[0] && cycles_seen[1]);
    assert!(durations.iter().any(|d| *d != durations[0]));
    for _ in 0..20 {
        assert_eq!(rnd_animation(2).end_frame, 1);
    }
}

#[test]
fn attract_skips_screens_that_cannot_show() {
    let mut sys = AttractModeDmdSystem::new(4);
    assert_eq!(sys.draw(false, false), AttractScreen::NeonBluePinball);
    let mut acts = Vec::new();
    sys.on_event(&Signal::Timer(Timer::NextScreen), &mut acts);
    assert!(acts.is_empty());
    match sys.draw(false, false) {
        AttractScreen::Spore(a) => assert!(a.end_frame >= 1 && a.end_frame < 4),
        other => panic!("expected the spore, got {:?}", other),
    }
    sys.on_event(&Signal::Timer(Timer::NextScreen), &mut acts);
    // no scores and no player to add: every screen up to the title is skipped
    assert_eq!(sys.draw(false, false), AttractScreen::NeonBluePinball);
    sys.on_event(&Signal::Timer(Timer::NextScreen), &mut acts);
    sys.on_event(&Signal::Timer(Timer::NextScreen), &mut acts);
    // with a player addable, press start shows
    assert_eq!(sys.draw(false, true), AttractScreen::PressStart);
}

#[test]
fn attract_shows_last_scores_after_game() {
    let mut sys = AttractModeDmdSystem::new(3);
    sys.on_game_ended(vec![("PLAYER 1".to_string(), 1200), ("PLAYER 2".to_string(), 800)]);
    assert_eq!(sys.draw(false, false), AttractScreen::LastScore("PLAYER 1".to_string(), 1200));
    let mut acts = Vec::new();
    sys.on_event(&Signal::Timer(Timer::NextScreen), &mut acts);
    assert_eq!(sys.draw(false, false), AttractScreen::LastScore("PLAYER 2".to_string(), 800));
    sys.on_event(&Signal::Timer(Timer::NextScreen), &mut acts);
    // press start cannot show, the third and fourth scores do not exist
    assert_eq!(sys.draw(false, false), AttractScreen::NeonBluePinball);
}

#[test]
fn flippers_step_and_restart_timer() {
    let mut sys = AttractModeDmdSystem::new(3);
    let mut acts = Vec::new();
    let mut right = switch();
    right.right_flipper = true;
    sys.on_event(&Signal::Switch(right), &mut acts);
    assert_eq!(acts, vec![Action::Cue(Timer::NextScreen, CueTiming::Loop(7000))]);
    sys.record_cue(Timer::NextScreen, 9);
    assert!(matches!(sys.draw(false, false), AttractScreen::Spore(_)));
    let mut left = switch();
    left.left_flipper = true;
    let mut acts = Vec::new();
    sys.on_event(&Signal::Switch(left), &mut acts);
    assert_eq!(acts, vec![Action::CancelCue(9), Action::Cue(Timer::NextScreen, CueTiming::Loop(7000))]);
    assert_eq!(sys.draw(false, false), AttractScreen::NeonBluePinball);
    let mut acts = Vec::new();
    sys.on_deactivate(&mut acts);
    assert_eq!(acts, vec![Action::CancelCue(9)]);
    assert!(sys.is_active(false, false));
    assert!(!sys.is_active(true, false));
    assert!(!sys.is_active(false, true));
}

#[test]
fn scoreboard_of_competitive_game() {
    let b = draw_competitive(2, &vec![1500, 2500], 1, 2);
    assert_eq!(b.player, 2);
    assert_eq!(b.ball, 3);
    assert_eq!(b.score, 2500);
    assert_eq!(b.player_scores, vec![1500, 2500]);
    assert_eq!(b.player_count, 2);
    let sys = GamePointsDmdSystem::new();
    let game = CompetitiveGame { player_count: 3, current_player: 0, player_turns: vec![0, 0, 0], player_scores: vec![10, 0, 0] };
    let shown = sys.on_tick(true, &Some(game)).unwrap();
    assert_eq!((shown.player, shown.ball, shown.score), (1, 1, 10));
    assert!(sys.on_tick(false, &None).is_none());
    assert!(sys.is_active(true));
    assert_eq!(in_game_labels(0, 2, None), (1, 3, 0));
    assert_eq!(in_game_labels(3, 0, Some(77)), (4, 1, 77));
}
