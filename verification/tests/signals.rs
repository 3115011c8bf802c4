use spawn_wait::{SignalHandler, Wake};

const SIGCHLD: i32 = signal_hook::consts::SIGCHLD;
const SIGINT: i32 = signal_hook::consts::SIGINT;
const SIGTERM: i32 = signal_hook::consts::SIGTERM;
const SIGUSR1: i32 = signal_hook::consts::SIGUSR1;
const SIGHUP: i32 = signal_hook::consts::SIGHUP;

#[test]
fn default_handler_stops_on_terminate_and_interrupt() {
    let handler = SignalHandler::default();
    assert_eq!(handler.termination_signals(), &[15, 2]);
    assert_eq!(handler.termination_signals(), &[SIGTERM, SIGINT]);
}

#[test]
fn child_signal_is_the_platform_one() {
    assert_eq!(SignalHandler::default().child_signal(), SIGCHLD);
    assert_eq!(SignalHandler::with_termination_signals(&[]).child_signal(), SIGCHLD);
}

#[test]
fn default_handler_watches_the_child_signal_last() {
    let handler = SignalHandler::default();
    assert_eq!(handler.watched(), vec![SIGTERM, SIGINT, SIGCHLD]);
}

#[test]
fn with_termination_signals_keeps_the_given_list() {
    let handler = SignalHandler::with_termination_signals(&[SIGUSR1, SIGHUP]);
    assert_eq!(handler.termination_signals(), &[SIGUSR1, SIGHUP]);
    assert_eq!(handler.watched(), vec![SIGUSR1, SIGHUP, SIGCHLD]);
    assert!(!handler.is_termination_signal(SIGINT));
    assert!(!handler.is_termination_signal(SIGTERM));
    assert!(handler.is_termination_signal(SIGUSR1));
}

#[test]
fn with_no_termination_signals_only_the_child_signal_is_watched() {
    let handler = SignalHandler::with_termination_signals(&[]);
    assert!(handler.termination_signals().is_empty());
    assert_eq!(handler.watched(), vec![SIGCHLD]);
    assert_eq!(handler.wake(&[SIGINT, SIGTERM]), Wake::Nothing);
    assert!(!handler.termination_pending(&[SIGINT, SIGTERM]));
}

#[test]
fn add_termination_signal_appends() {
    let mut handler = SignalHandler::default();
    assert!(!handler.is_termination_signal(SIGUSR1));
    handler.add_termination_signal(SIGUSR1);
    assert_eq!(handler.termination_signals(), &[SIGTERM, SIGINT, SIGUSR1]);
    assert_eq!(handler.watched(), vec![SIGTERM, SIGINT, SIGUSR1, SIGCHLD]);
    assert!(handler.is_termination_signal(SIGUSR1));
    assert_eq!(handler.child_signal(), SIGCHLD);
    assert_eq!(handler.wake(&[SIGUSR1]), Wake::Termination(SIGUSR1));
}

#[test]
fn termination_pending_finds_a_listed_signal() {
    let handler = SignalHandler::default();
    assert!(handler.termination_pending(&[SIGINT]));
    assert!(handler.termination_pending(&[SIGCHLD, SIGUSR1, SIGTERM]));
}

#[test]
fn termination_pending_is_false_without_one() {
    let handler = SignalHandler::default();
    assert!(!handler.termination_pending(&[]));
    assert!(!handler.termination_pending(&[SIGCHLD]));
    assert!(!handler.termination_pending(&[SIGUSR1, SIGHUP, SIGCHLD]));
}

#[test]
fn termination_pending_counts_a_listed_child_signal() {
    let handler = SignalHandler::with_termination_signals(&[SIGCHLD]);
    assert!(handler.termination_pending(&[SIGCHLD]));
}

#[test]
fn empty_batch_wakes_nothing() {
    assert_eq!(SignalHandler::default().wake(&[]), Wake::Nothing);
}

#[test]
fn unlisted_signals_wake_nothing() {
    assert_eq!(SignalHandler::default().wake(&[SIGUSR1, SIGHUP]), Wake::Nothing);
}

#[test]
fn child_signal_alone_means_child_changed() {
    let handler = SignalHandler::default();
    assert_eq!(handler.wake(&[SIGCHLD]), Wake::ChildChanged);
    assert_eq!(handler.wake(&[SIGUSR1, SIGCHLD, SIGCHLD]), Wake::ChildChanged);
}

#[test]
fn termination_wins_over_child_signal_in_one_batch() {
    let handler = SignalHandler::default();
    assert_eq!(handler.wake(&[SIGCHLD, SIGTERM]), Wake::Termination(SIGTERM));
    assert_eq!(handler.wake(&[SIGINT, SIGCHLD]), Wake::Termination(SIGINT));
    assert_eq!(handler.wake(&[SIGCHLD, SIGINT, SIGCHLD]), Wake::Termination(SIGINT));
}

#[test]
fn last_termination_signal_of_a_batch_is_reported() {
    let handler = SignalHandler::default();
    assert_eq!(handler.wake(&[SIGTERM, SIGINT]), Wake::Termination(SIGINT));
    assert_eq!(handler.wake(&[SIGINT, SIGTERM]), Wake::Termination(SIGTERM));
    assert_eq!(handler.wake(&[SIGINT, SIGTERM, SIGUSR1, SIGCHLD]), Wake::Termination(SIGTERM));
}

#[test]
fn child_signal_never_stops_even_if_listed() {
    let handler = SignalHandler::with_termination_signals(&[SIGCHLD, SIGTERM]);
    assert_eq!(handler.wake(&[SIGCHLD]), Wake::ChildChanged);
    assert_eq!(handler.wake(&[SIGTERM, SIGCHLD]), Wake::Termination(SIGTERM));
}
