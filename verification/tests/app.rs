use time_flo::app::{Preferences, State, TimeFloApp};
use time_flo::timer::Timer;

#[test]
fn test_app() {
    // test an aspect state changing

    let mut app = TimeFloApp {
        state: State::Task,
        short_break_counter: 3,
        preferences: Preferences {
            num_short_breaks: 3,
            ..Default::default()
        },
        ..Default::default()
    };

    let next = app.next_state();
    app.change_state(next, 0);

    assert_eq!(State::LongBreak, app.state);
    assert!(app.timer.has_started(1));
}

#[test]
fn default_session() {
    let app = TimeFloApp::default();
    assert_eq!(State::Idle, app.state);
    assert_eq!(0, app.short_break_counter);
    assert!(!app.auto_start_task);
    assert_eq!(1_500_000, app.preferences.task_duration_ms);
    assert_eq!(300_000, app.preferences.short_break_duration_ms);
    assert_eq!(900_000, app.preferences.long_break_duration_ms);
    assert_eq!(3, app.preferences.num_short_breaks);
}

#[test]
fn state_queries() {
    assert!(!State::Idle.is_break());
    assert!(!State::Task.is_break());
    assert!(State::ShortBreak.is_break());
    assert!(State::LongBreak.is_break());
    assert_eq!(State::Idle, State::default());
    assert_eq!("Idle", State::Idle.display_name());
    assert_eq!("Task period", State::Task.display_name());
    assert_eq!("Short break", State::ShortBreak.display_name());
    assert_eq!("Long break", State::LongBreak.display_name());
}

#[test]
fn preferred_durations() {
    let prefs = Preferences {
        task_duration_ms: 10_000,
        short_break_duration_ms: 2_000,
        long_break_duration_ms: 5_000,
        num_short_breaks: 2,
    };
    assert_eq!(0, prefs.preferred_duration(State::Idle));
    assert_eq!(10_000, prefs.preferred_duration(State::Task));
    assert_eq!(2_000, prefs.preferred_duration(State::ShortBreak));
    assert_eq!(5_000, prefs.preferred_duration(State::LongBreak));
}

#[test]
fn cycle_sequence() {
    // with two short breaks per cycle, repeated advances walk
    // Task, ShortBreak, Task, ShortBreak, Task, LongBreak, Task, ...
    let mut app = TimeFloApp {
        preferences: Preferences {
            num_short_breaks: 2,
            ..Default::default()
        },
        ..Default::default()
    };

    let expected = [
        (State::Task, 0),
        (State::ShortBreak, 1),
        (State::Task, 1),
        (State::ShortBreak, 2),
        (State::Task, 2),
        (State::LongBreak, 0),
        (State::Task, 0),
        (State::ShortBreak, 1),
    ];
    for &(state, counter) in expected.iter() {
        app.advance(0);
        assert_eq!(state, app.state);
        assert_eq!(counter, app.short_break_counter);
        assert!(app.short_break_counter <= app.preferences.num_short_breaks);
    }
}

#[test]
fn breaks_auto_start_tasks_wait() {
    let mut app = TimeFloApp::default();
    app.change_state(State::ShortBreak, 7_000);
    assert!(app.timer.is_running());
    assert_eq!(Some(7_000), app.timer.start_timestamp);

    app.change_state(State::LongBreak, 8_000);
    assert!(app.timer.is_running());

    // under the default policy a task waits for an explicit begin
    app.change_state(State::Task, 9_000);
    assert!(!app.timer.is_running());
    app.resume_active(10_000);
    assert!(app.timer.is_running());
}

#[test]
fn auto_start_task_policy() {
    let mut app = TimeFloApp {
        auto_start_task: true,
        ..Default::default()
    };
    app.change_state(State::Task, 9_000);
    assert!(app.timer.is_running());
    assert_eq!(Some(9_000), app.timer.start_timestamp);
}

#[test]
fn change_state_makes_fresh_timer() {
    let mut app = TimeFloApp::default();
    app.change_state(State::Task, 0);
    app.resume_active(0);
    app.pause_active(60_000);
    assert_eq!(60_000, app.timer.accumulated_time);

    // entering the next state replaces the timer outright
    app.change_state(State::ShortBreak, 70_000);
    assert_eq!(0, app.timer.accumulated_time);
    assert_eq!(300_000, app.timer.duration);
}

#[test]
fn tick_advances_exactly_on_completion() {
    let mut app = TimeFloApp {
        preferences: Preferences {
            task_duration_ms: 10_000,
            ..Default::default()
        },
        ..Default::default()
    };
    app.change_state(State::Task, 0);
    app.resume_active(0);

    // mid-interval: nothing happens
    assert!(!app.tick(9_999));
    assert_eq!(State::Task, app.state);

    // the interval completes exactly once
    assert!(app.tick(10_000));
    assert_eq!(State::ShortBreak, app.state);
    assert_eq!(1, app.short_break_counter);

    // the fresh break timer is not over, so no second completion fires
    assert!(!app.tick(10_000));
    assert_eq!(State::ShortBreak, app.state);
}

#[test]
fn tick_is_inert_in_idle() {
    let mut app = TimeFloApp::default();
    // the idle timer has target zero, but idling never advances
    assert!(!app.tick(1_000_000));
    assert_eq!(State::Idle, app.state);
}

#[test]
fn pause_and_resume_are_inert_in_idle() {
    let mut app = TimeFloApp::default();
    let before = app.timer;
    app.pause_active(5_000);
    app.resume_active(6_000);
    assert_eq!(before, app.timer);
    assert!(!app.timer.is_running());
}

#[test]
fn skip_mid_interval() {
    let mut app = TimeFloApp::default();
    app.advance(0); // Task
    app.resume_active(0);
    // skip long before the task is over
    app.skip(1_000);
    assert_eq!(State::ShortBreak, app.state);
    assert_eq!(1, app.short_break_counter);
}

#[test]
fn new_preferences_retarget_without_losing_progress() {
    let mut app = TimeFloApp {
        state: State::Task,
        timer: Timer {
            duration: 20_000,
            accumulated_time: 12_000,
            start_timestamp: None,
        },
        ..Default::default()
    };
    let prefs = Preferences {
        task_duration_ms: 30_000,
        ..Default::default()
    };
    app.apply_new_preferences(prefs);
    assert_eq!(30_000, app.timer.duration);
    assert_eq!(12_000, app.timer.accumulated_time);
    assert_eq!(18_000, app.timer.remaining_time(0));
    assert_eq!(State::Task, app.state);
}

#[test]
fn update_preferences_follows_current_state() {
    let mut app = TimeFloApp::default();
    app.change_state(State::ShortBreak, 0);
    app.preferences.short_break_duration_ms = 120_000;
    app.update_preferences();
    assert_eq!(120_000, app.timer.duration);
    assert_eq!(State::ShortBreak, app.state);
}
