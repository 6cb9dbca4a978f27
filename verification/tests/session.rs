use task_timer::{
    Display, Refresh, Session, SessionClock, SessionError, Task, UrgencyTier, NANOS_PER_SECOND,
};

const SECOND: u64 = NANOS_PER_SECOND;

fn task(seconds: i64) -> Task {
    Task {
        project: String::from("The Big One"),
        description: String::from("Piece of cake"),
        duration_seconds: seconds,
    }
}

fn started(seconds: i64, now: u64) -> Session {
    Session::start(task(seconds), now).unwrap()
}

fn shown(refresh: Refresh) -> Display {
    match refresh {
        Refresh::Show(display) => display,
        Refresh::Expired => panic!("the session has expired"),
    }
}

#[test]
fn clock_starts_running_with_nothing_elapsed() {
    let clock = SessionClock::start(42);
    assert_eq!(clock.started_at(), 42);
    assert_eq!(clock.last_sample_instant(), 42);
    assert_eq!(clock.active_elapsed(), 0);
    assert_eq!(clock.paused_elapsed(), 0);
    assert!(!clock.is_paused());
}

#[test]
fn clock_adds_each_delta_to_one_side() {
    let mut clock = SessionClock::start(1_000);
    clock.advance(1_300);
    assert_eq!(clock.active_elapsed(), 300);
    assert_eq!(clock.paused_elapsed(), 0);
    clock.toggle_pause();
    assert!(clock.is_paused());
    assert_eq!(clock.active_elapsed(), 300);
    assert_eq!(clock.last_sample_instant(), 1_300);
    clock.advance(1_350);
    assert_eq!(clock.active_elapsed(), 300);
    assert_eq!(clock.paused_elapsed(), 50);
    clock.toggle_pause();
    clock.advance(1_350);
    assert_eq!(clock.active_elapsed(), 300);
    assert_eq!(clock.paused_elapsed(), 50);
    clock.advance(2_000);
    assert_eq!(clock.active_elapsed(), 950);
    assert_eq!(clock.paused_elapsed(), 50);
    assert_eq!(clock.started_at(), 1_000);
    assert_eq!(clock.last_sample_instant(), 2_000);
}

#[test]
fn clock_reaches_the_end_of_the_range() {
    let mut clock = SessionClock::start(0);
    clock.advance(u64::MAX);
    assert_eq!(clock.active_elapsed(), u64::MAX);
    clock.toggle_pause();
    clock.advance(u64::MAX);
    assert_eq!(clock.paused_elapsed(), 0);
}

#[test]
fn start_resets_every_counter() {
    let session = started(1500, 7 * SECOND);
    assert_eq!(session.project(), "The Big One");
    assert_eq!(session.description(), "Piece of cake");
    assert_eq!(session.target_seconds(), 1500);
    assert_eq!(session.distraction_count(), 0);
    assert_eq!(session.clock().active_elapsed(), 0);
    assert_eq!(session.clock().paused_elapsed(), 0);
    assert_eq!(session.clock().last_sample_instant(), 7 * SECOND);
    assert!(!session.clock().is_paused());
    assert!(!session.is_expired(true));
    let display = session.display();
    assert_eq!(display.label, "-25:00");
    assert_eq!(display.tier, UrgencyTier::Normal);
    assert_eq!(display.distraction_count, 0);
    assert!(!display.is_paused);
}

#[test]
fn start_refuses_a_zero_duration() {
    assert_eq!(Session::start(task(0), 0).err(), Some(SessionError::ZeroOrNegativeDuration));
}

#[test]
fn start_refuses_a_negative_duration() {
    assert_eq!(Session::start(task(-300), 0).err(), Some(SessionError::ZeroOrNegativeDuration));
    assert_eq!(
        Session::start(task(i64::MIN), 0).err(),
        Some(SessionError::ZeroOrNegativeDuration)
    );
}

#[test]
fn scenario_countdown_to_expiry() {
    let origin = 1_000 * SECOND;
    let mut session = started(100, origin);

    let display = shown(session.tick(origin + 71 * SECOND));
    assert_eq!(display.tier, UrgencyTier::Warning);
    assert_eq!(display.label, "-00:29");

    let display = shown(session.tick(origin + 91 * SECOND));
    assert_eq!(session.clock().active_elapsed(), 91 * SECOND);
    assert_eq!(display.tier, UrgencyTier::Critical);
    assert_eq!(display.label, "-00:09");

    assert_eq!(session.tick(origin + 100 * SECOND), Refresh::Expired);
    assert_eq!(session.clock().active_elapsed(), 100 * SECOND);
    assert!(session.is_expired(true));
}

#[test]
fn scenario_pause_and_resume() {
    let mut session = started(100, 0);
    session.tick(10 * SECOND);
    assert_eq!(session.clock().active_elapsed(), 10 * SECOND);

    let display = shown(session.toggle_pause());
    assert!(display.is_paused);
    assert_eq!(display.label, "Paused: 00:00 / -01:30");
    let display = shown(session.tick(15 * SECOND));
    assert_eq!(session.clock().paused_elapsed(), 5 * SECOND);
    assert_eq!(session.clock().active_elapsed(), 10 * SECOND);
    assert_eq!(display.label, "Paused: 00:05 / -01:30");

    let display = shown(session.toggle_pause());
    assert!(!display.is_paused);
    assert_eq!(display.label, "-01:30");
    session.tick(20 * SECOND);
    assert_eq!(session.clock().active_elapsed(), 15 * SECOND);
    assert_eq!(session.clock().paused_elapsed(), 5 * SECOND);
}

#[test]
fn scenario_distractions_are_counted_and_reset() {
    let mut session = started(100, 0);
    session.record_distraction();
    session.record_distraction();
    session.record_distraction();
    assert_eq!(session.distraction_count(), 3);
    assert_eq!(session.display().distraction_count, 3);

    let session = started(100, 50 * SECOND);
    assert_eq!(session.distraction_count(), 0);
}

#[test]
fn toggle_pause_moves_no_time() {
    let mut session = started(100, 0);
    session.tick(10 * SECOND);
    session.toggle_pause();
    assert_eq!(session.clock().active_elapsed(), 10 * SECOND);
    assert_eq!(session.clock().paused_elapsed(), 0);
    assert_eq!(session.clock().last_sample_instant(), 10 * SECOND);
    session.toggle_pause();
    assert_eq!(session.clock().active_elapsed(), 10 * SECOND);
    assert_eq!(session.clock().paused_elapsed(), 0);
    assert_eq!(session.clock().last_sample_instant(), 10 * SECOND);
    assert!(!session.clock().is_paused());
}

#[test]
fn ticks_lose_no_time_across_pauses() {
    let mut session = started(10_000, 500);
    let deltas: [u64; 9] = [200, 0, 199_999_999, 1, 5 * SECOND, 3, 700_000_000, 12, SECOND];
    let mut now: u64 = 500;
    let mut total: u64 = 0;
    let mut active: u64 = 0;
    let mut paused: u64 = 0;
    for (i, delta) in deltas.iter().enumerate() {
        if i % 2 == 1 {
            session.toggle_pause();
        }
        if i == 4 {
            session.adjust_duration(60);
            session.record_distraction();
        }
        now += delta;
        total += delta;
        if session.clock().is_paused() {
            paused += delta;
        } else {
            active += delta;
        }
        session.tick(now);
        assert_eq!(session.clock().active_elapsed(), active);
        assert_eq!(session.clock().paused_elapsed(), paused);
        assert_eq!(session.clock().active_elapsed() + session.clock().paused_elapsed(), total);
        assert_eq!(session.clock().last_sample_instant(), 500 + total);
        assert_eq!(session.clock().started_at(), 500);
    }
    assert_eq!(total, 6_900_000_215);
    assert_eq!(session.target_seconds(), 10_060);
    assert_eq!(session.distraction_count(), 1);
    assert_eq!(session.clock().active_elapsed(), 6_000_000_213);
    assert_eq!(session.clock().paused_elapsed(), 900_000_002);
}

#[test]
fn expiry_sets_in_exactly_at_the_target() {
    let mut session = started(2, 0);
    assert!(!session.target_reached());
    shown(session.tick(2 * SECOND - 1));
    assert!(!session.target_reached());
    assert!(!session.is_expired(true));
    assert_eq!(session.tick(2 * SECOND), Refresh::Expired);
    assert!(session.target_reached());
    assert!(session.is_expired(true));
}

#[test]
fn expiry_outlasts_ticks_pauses_and_distractions() {
    let mut session = started(10, 0);
    assert_eq!(session.tick(12 * SECOND), Refresh::Expired);
    assert_eq!(session.tick(13 * SECOND), Refresh::Expired);
    assert_eq!(session.clock().active_elapsed(), 13 * SECOND);
    assert_eq!(session.toggle_pause(), Refresh::Expired);
    assert_eq!(session.tick(20 * SECOND), Refresh::Expired);
    session.record_distraction();
    assert!(session.is_expired(true));
    assert_eq!(session.adjust_duration(0), Refresh::Expired);
    assert_eq!(session.adjust_duration(-5), Refresh::Expired);
    assert_eq!(session.target_seconds(), 5);
    assert!(session.is_expired(true));
}

#[test]
fn a_paused_session_does_not_expire() {
    let mut session = started(10, 0);
    session.toggle_pause();
    let display = shown(session.tick(1_000 * SECOND));
    assert_eq!(display.label, "Paused: 16:40 / -00:10");
    assert_eq!(display.tier, UrgencyTier::Normal);
    assert!(!session.is_expired(true));
}

#[test]
fn a_hidden_session_counts_as_expired() {
    let session = started(10, 0);
    assert!(!session.is_expired(true));
    assert!(session.is_expired(false));
    assert!(!session.target_reached());
}

#[test]
fn adjust_duration_changes_the_target_by_the_delta() {
    let mut session = started(100, 0);
    session.tick(10 * SECOND);
    let display = shown(session.adjust_duration(60));
    assert_eq!(session.target_seconds(), 160);
    assert_eq!(display.label, "-02:30");
    let display = shown(session.adjust_duration(-300 + 200));
    assert_eq!(session.target_seconds(), 60);
    assert_eq!(display.label, "-00:50");
    assert_eq!(session.clock().active_elapsed(), 10 * SECOND);
    assert_eq!(session.clock().last_sample_instant(), 10 * SECOND);
}

#[test]
fn adjust_duration_to_zero_or_below_changes_nothing() {
    let mut session = started(100, 0);
    let display = shown(session.adjust_duration(-100));
    assert_eq!(session.target_seconds(), 100);
    assert_eq!(display.label, "-01:40");
    shown(session.adjust_duration(-300));
    assert_eq!(session.target_seconds(), 100);
    shown(session.adjust_duration(i64::MIN));
    assert_eq!(session.target_seconds(), 100);
    shown(session.adjust_duration(-99));
    assert_eq!(session.target_seconds(), 1);
}

#[test]
fn adjust_duration_can_expire_and_revive_a_session() {
    let mut session = started(100, 0);
    session.tick(50 * SECOND);
    assert_eq!(session.adjust_duration(-50), Refresh::Expired);
    assert_eq!(session.target_seconds(), 50);
    assert!(session.is_expired(true));
    let display = shown(session.adjust_duration(300));
    assert_eq!(session.target_seconds(), 350);
    assert_eq!(display.label, "-05:00");
    assert!(!session.is_expired(true));
}

#[test]
fn a_lengthening_short_of_the_active_time_keeps_the_session_expired() {
    let mut session = started(10, 0);
    assert_eq!(session.tick(100 * SECOND), Refresh::Expired);
    assert_eq!(session.adjust_duration(60), Refresh::Expired);
    assert_eq!(session.target_seconds(), 70);
    assert!(session.is_expired(true));
    assert_eq!(session.adjust_duration(30), Refresh::Expired);
    assert_eq!(session.target_seconds(), 100);
    assert!(session.is_expired(true));
    let display = shown(session.adjust_duration(1));
    assert_eq!(session.target_seconds(), 101);
    assert_eq!(display.label, "-00:01");
    assert!(!session.is_expired(true));
}

#[test]
fn adjust_duration_keeps_pause_flag_and_count() {
    let mut session = started(100, 0);
    session.record_distraction();
    session.toggle_pause();
    session.tick(5 * SECOND);
    let display = shown(session.adjust_duration(60));
    assert!(display.is_paused);
    assert_eq!(display.distraction_count, 1);
    assert_eq!(session.target_seconds(), 160);
    assert_eq!(session.clock().paused_elapsed(), 5 * SECOND);
    assert_eq!(session.clock().active_elapsed(), 0);
    shown(session.adjust_duration(-160));
    assert_eq!(session.target_seconds(), 160);
    assert!(session.clock().is_paused());
    assert_eq!(session.distraction_count(), 1);
}

#[test]
fn adjust_duration_reaches_the_largest_target() {
    let mut session = started(1, 0);
    shown(session.adjust_duration(i64::MAX - 1));
    assert_eq!(session.target_seconds(), i64::MAX);
    assert_eq!(session.remaining_seconds(), i64::MAX as u64);
    assert_eq!(session.tier(), UrgencyTier::Normal);
}

#[test]
fn remaining_time_is_cut_to_whole_seconds() {
    let mut session = started(100, 0);
    let display = shown(session.tick(70 * SECOND + SECOND / 2));
    assert_eq!(session.remaining_seconds(), 29);
    assert_eq!(display.label, "-00:29");
    let display = shown(session.tick(71 * SECOND - 1));
    assert_eq!(display.label, "-00:29");
    let display = shown(session.tick(100 * SECOND - 1));
    assert_eq!(display.label, "-00:00");
    assert_eq!(session.remaining_seconds(), 0);
}

#[test]
fn remaining_time_is_zero_once_expired() {
    let mut session = started(100, 0);
    session.tick(250 * SECOND);
    assert_eq!(session.remaining_seconds(), 0);
    let display = session.display();
    assert_eq!(display.label, "-00:00");
    assert_eq!(display.tier, UrgencyTier::Critical);
}

#[test]
fn tier_follows_the_fraction_used_up() {
    let mut session = started(100_000, 0);
    assert_eq!(shown(session.tick(69_999 * SECOND)).tier, UrgencyTier::Normal);
    assert_eq!(shown(session.tick(70_000 * SECOND - 1)).tier, UrgencyTier::Normal);
    assert_eq!(shown(session.tick(70_000 * SECOND)).tier, UrgencyTier::Warning);
    assert_eq!(shown(session.tick(89_999 * SECOND)).tier, UrgencyTier::Warning);
    assert_eq!(shown(session.tick(90_000 * SECOND - 1)).tier, UrgencyTier::Warning);
    assert_eq!(shown(session.tick(90_000 * SECOND)).tier, UrgencyTier::Critical);
}

#[test]
fn label_shows_hours_for_long_sessions() {
    let mut session = started(2 * 3600, 0);
    assert_eq!(session.display().label, "-02:00:00");
    session.toggle_pause();
    session.tick(3_725 * SECOND);
    assert_eq!(session.display().label, "Paused: 01:02:05 / -02:00:00");
}
