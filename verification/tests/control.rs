use survival_sim::entities::Character;
use survival_sim::entities::CharacterAction;
use survival_sim::entities::GameWorld;
use survival_sim::session::Session;
use survival_sim::session::SessionOutcome;
use survival_sim::session::UserAction;
use survival_sim::session::parse_command;

#[test]
fn parse_command_recognizes_the_three_letters() {
    assert_eq!(
        parse_command('e'),
        Some(UserAction::PlayerDo(CharacterAction::Eat))
    );
    assert_eq!(
        parse_command('w'),
        Some(UserAction::PlayerDo(CharacterAction::Wait))
    );
    assert_eq!(parse_command('q'), Some(UserAction::QuitGame));
}

#[test]
fn parse_command_is_case_sensitive_and_rejects_the_rest() {
    assert_eq!(parse_command('E'), None);
    assert_eq!(parse_command('W'), None);
    assert_eq!(parse_command('Q'), None);
    assert_eq!(parse_command('x'), None);
    assert_eq!(parse_command(' '), None);
    assert_eq!(parse_command('1'), None);
}

#[test]
fn fresh_session_is_running() {
    let s = Session::new();
    assert_eq!(s.world.player, Character { health: 5, nutrition: 5, oxygen: 5 });
    assert!(s.pending_action.is_none());
    assert!(!s.should_quit());
    assert!(!s.is_over());
    assert_eq!(s.outcome(), None);
}

#[test]
fn scenario_quit_before_any_tick() {
    let mut s = Session::new();
    s.key_input(UserAction::QuitGame);
    s.update();
    assert!(s.should_quit());
    assert!(s.is_over());
    assert_eq!(s.outcome(), Some(SessionOutcome::UserQuit));
    // The quit request never reached the character: stats are untouched.
    assert_eq!(s.world.player, Character { health: 5, nutrition: 5, oxygen: 5 });
}

#[test]
fn update_applies_the_action_and_then_one_tick() {
    let mut s = Session::new();
    s.key_input(UserAction::PlayerDo(CharacterAction::Eat));
    s.update();
    assert_eq!(s.world.player, Character { health: 5, nutrition: 14, oxygen: 5 });
    assert!(s.pending_action.is_none());
    assert!(!s.should_quit());
}

#[test]
fn later_input_overwrites_the_pending_action() {
    let mut s = Session::new();
    s.key_input(UserAction::PlayerDo(CharacterAction::Eat));
    s.key_input(UserAction::QuitGame);
    s.update();
    // The earlier eat was silently dropped, never applied.
    assert!(s.should_quit());
    assert_eq!(s.world.player, Character { health: 5, nutrition: 5, oxygen: 5 });
}

#[test]
fn update_with_nothing_pending_changes_nothing() {
    let mut s = Session::new();
    s.update();
    assert_eq!(s.world.player, Character { health: 5, nutrition: 5, oxygen: 5 });
    assert!(s.pending_action.is_none());
    assert!(!s.should_quit());
}

#[test]
fn session_reports_a_death() {
    let mut s = Session {
        world: GameWorld { player: Character { health: 1, nutrition: -1, oxygen: -1 } },
        pending_action: None,
        should_quit: false,
    };
    s.key_input(UserAction::PlayerDo(CharacterAction::Wait));
    s.update();
    assert_eq!(s.world.player, Character { health: -10, nutrition: -2, oxygen: -1 });
    assert!(s.is_over());
    assert_eq!(s.outcome(), Some(SessionOutcome::PlayerDied));
    assert!(!s.should_quit());
}
