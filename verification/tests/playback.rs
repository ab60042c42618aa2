use cue_player::player::{AudioError, ThreadSafeAudioPlayer};
use cue_player::worker::SinkAction;

fn player_with(names: &[&str], device_ok: bool) -> ThreadSafeAudioPlayer {
    let available: Vec<String> = names.iter().map(|n| n.to_string()).collect();
    ThreadSafeAudioPlayer::new(available, device_ok)
}

#[test]
fn commands_processed_in_send_order() {
    let mut p = player_with(&["start", "beep", "end"], true);
    assert!(p.play_sound("start").is_ok());
    assert!(p.stop_all().is_ok());
    assert!(p.play_sound("end").is_ok());
    assert_eq!(p.pending_count(), 3);

    assert_eq!(p.process_next(), Some(SinkAction::StartNew));
    assert_eq!(p.active_sound(), Some(&String::from("start")));
    assert_eq!(p.process_next(), Some(SinkAction::Silence));
    assert_eq!(p.active_sound(), None);
    assert_eq!(p.process_next(), Some(SinkAction::StartNew));
    assert_eq!(p.active_sound(), Some(&String::from("end")));
    assert_eq!(p.pending_count(), 0);
}

#[test]
fn new_play_preempts_the_active_sound() {
    let mut p = player_with(&["a", "b"], true);
    assert!(p.play_sound("a").is_ok());
    assert!(p.play_sound("b").is_ok());
    p.drain();
    assert_eq!(p.active_sound(), Some(&String::from("b")));
    assert_eq!(p.pending_count(), 0);
}

#[test]
fn stop_with_nothing_active_is_a_noop() {
    let mut p = player_with(&["a"], true);
    assert!(p.stop_all().is_ok());
    assert_eq!(p.process_next(), Some(SinkAction::Silence));
    assert_eq!(p.active_sound(), None);
    assert!(p.is_running());
}

#[test]
fn unresolved_play_leaves_active_sound_untouched() {
    let mut p = player_with(&["beep"], true);
    assert!(p.play_sound("beep").is_ok());
    p.drain();
    assert_eq!(p.active_sound(), Some(&String::from("beep")));

    assert!(p.play_sound("nonexistent").is_ok());
    assert_eq!(p.process_next(), Some(SinkAction::Ignore));
    assert_eq!(p.active_sound(), Some(&String::from("beep")));
}

#[test]
fn failed_device_makes_every_request_fail() {
    let mut p = player_with(&["beep"], false);
    assert!(!p.is_running());
    assert_eq!(p.play_sound("beep"), Err(AudioError::ChannelClosed));
    assert_eq!(p.stop_all(), Err(AudioError::ChannelClosed));
    assert_eq!(p.play_sound("beep"), Err(AudioError::ChannelClosed));
    assert_eq!(p.pending_count(), 0);
    p.drain();
    assert_eq!(p.active_sound(), None);
    assert!(!p.is_running());
}

#[test]
fn stopping_twice_equals_stopping_once() {
    let mut once = player_with(&["a"], true);
    let mut twice = player_with(&["a"], true);
    assert!(once.play_sound("a").is_ok());
    assert!(twice.play_sound("a").is_ok());

    assert!(once.stop_all().is_ok());
    assert!(twice.stop_all().is_ok());
    assert!(twice.stop_all().is_ok());

    once.drain();
    twice.drain();
    assert_eq!(once.active_sound(), None);
    assert_eq!(twice.active_sound(), None);
    assert_eq!(once.pending_count(), 0);
    assert_eq!(twice.pending_count(), 0);
    assert!(once.is_running() && twice.is_running());
}

#[test]
fn racing_plays_leave_exactly_one_active() {
    let names = ["n1", "n2", "n3", "n4", "n5"];
    let mut p = player_with(&names, true);
    // One play per caller; this is one of the arrival orders the channel
    // could have serialized them into.
    let arrival = ["n3", "n1", "n5", "n2", "n4"];
    for name in arrival.iter() {
        assert!(p.play_sound(name).is_ok());
    }
    p.drain();
    let active = p.active_sound().expect("one sound must be active");
    assert_eq!(active, &String::from("n4"));
    assert!(names.contains(&active.as_str()));
    assert_eq!(p.pending_count(), 0);
    assert!(p.is_running());
}

#[test]
fn empty_queue_has_nothing_to_process() {
    let mut p = player_with(&["a"], true);
    assert_eq!(p.process_next(), None);
    assert_eq!(p.active_sound(), None);
    p.drain();
    assert_eq!(p.pending_count(), 0);
}

#[test]
fn duplicate_names_in_resolver_still_resolve() {
    let mut p = player_with(&["beep", "beep"], true);
    assert!(p.play_sound("beep").is_ok());
    assert_eq!(p.process_next(), Some(SinkAction::StartNew));
    assert_eq!(p.active_sound(), Some(&String::from("beep")));
}

#[test]
fn empty_resolver_contains_every_play() {
    let mut p = player_with(&[], true);
    assert!(p.play_sound("anything").is_ok());
    assert_eq!(p.process_next(), Some(SinkAction::Ignore));
    assert_eq!(p.active_sound(), None);
    assert!(p.is_running());
}
