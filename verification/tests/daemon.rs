use rewrite_it::config::Config;
use rewrite_it::daemon::{
    idle_check_secs, idle_checks, idle_exit, idle_exit_at, inactive_exit, ping_interval_micros, read_input, require_input,
    watchdog_at, Input, WatchdogAction,
};
use rewrite_it::llm::engine::{EngineManager, LoadOutcome, ReadyEvent};

#[test]
fn idle_checks_come_every_ten_to_sixty_seconds() {
    for (idle, check) in [(0u64, 10u64), (39, 10), (40, 10), (44, 11), (239, 59), (300, 60), (u64::MAX, 60)] {
        assert_eq!(idle_check_secs(idle), check);
        assert_eq!(idle_checks(Some(idle)), Some(check));
    }
    assert_eq!(idle_checks(None), None);
}

#[test]
fn idle_daemons_exit() {
    let mut m = EngineManager::new(Config::default_in(None));
    assert!(!idle_exit(&m, 0));
    assert!(!idle_exit_at(&m, 0, u64::MAX));
    m.touch_at(1000);
    assert!(!idle_exit_at(&m, 300, 1299));
    assert!(idle_exit_at(&m, 300, 1300));
    assert!(!idle_exit_at(&m, 0, 1000));
    assert!(idle_exit_at(&m, 0, 1001));
    assert!(idle_exit(&m, 300));
    assert!(inactive_exit(&m, 0, 300));
    assert!(!inactive_exit(&m, 1, 300));
}

#[test]
fn hung_inferences_suppress_the_watchdog() {
    let mut m = EngineManager::new(Config::default_in(None));
    assert_eq!(watchdog_at(&m, 5), WatchdogAction::Ping);
    m.ensure_ready(ReadyEvent::Loaded {
        config: Config::default_in(None),
        outcome: LoadOutcome::Loaded,
    });
    m.inference_begins_at(1000);
    assert_eq!(watchdog_at(&m, 1120), WatchdogAction::Ping);
    assert_eq!(watchdog_at(&m, 1121), WatchdogAction::Suppress { timeout_secs: 120 });
    assert_eq!(ping_interval_micros(30_000_001), 15_000_000);
}

#[test]
fn only_standard_input_is_trimmed() {
    assert_eq!(read_input(Input::Argument(" a ".to_string())), " a ");
    assert_eq!(read_input(Input::Stdin("\n a b \n".to_string())), "a b");
    assert_eq!(require_input(Input::Argument(" ".to_string())), Ok(" ".to_string()));
    assert_eq!(
        require_input(Input::Stdin(" \n".to_string())),
        Err("no text provided (pass it as an argument or via stdin)")
    );
    assert!(require_input(Input::Argument(String::new())).is_err());
}
