use dsfsynth::engine::Dsfsynth;
use dsfsynth::midi::{ConfigError, NoteEvent};
use dsfsynth::voice::{EnvelopeStage, Tone};
use std::convert::TryFrom;

fn on(note: u8, velocity: u8) -> NoteEvent {
    NoteEvent::NoteOn { channel: 0, note, velocity }
}

fn off(note: u8) -> NoteEvent {
    NoteEvent::NoteOff { channel: 0, note }
}

fn seven_bits(value: u8) -> wmidi::U7 {
    wmidi::U7::try_from(value).unwrap()
}

#[test]
fn new_engine_is_silent() {
    let engine = Dsfsynth::new();
    assert!(engine.is_silent());
    assert_eq!(engine.current_frame(), 0);
    assert_eq!(engine.input_channel(), 0);
    assert_eq!(engine.active_notes(), Vec::<u8>::new());
    for note in 0..=255u8 {
        assert_eq!(engine.tone(note), None);
    }
}

#[test]
fn note_on_creates_a_held_voice() {
    let mut engine = Dsfsynth::new();
    engine.advance(480);
    engine.handle_event(on(69, 127));
    assert_eq!(
        engine.tone(69),
        Some(Tone { time_pressed: 480, time_released: None, velocity: 127 })
    );
    assert_eq!(engine.active_notes(), vec![69]);
    assert!(!engine.is_silent());
}

#[test]
fn note_on_on_another_channel_is_ignored() {
    let mut engine = Dsfsynth::new();
    engine.handle_event(NoteEvent::NoteOn { channel: 1, note: 60, velocity: 100 });
    assert!(engine.is_silent());
    assert_eq!(engine.select_channel(2), Ok(()));
    engine.handle_event(NoteEvent::NoteOn { channel: 1, note: 60, velocity: 100 });
    engine.handle_event(NoteEvent::NoteOn { channel: 0, note: 61, velocity: 100 });
    assert_eq!(engine.active_notes(), vec![60]);
}

#[test]
fn note_off_on_another_channel_is_ignored() {
    let mut engine = Dsfsynth::new();
    engine.handle_event(on(60, 100));
    engine.handle_event(NoteEvent::NoteOff { channel: 3, note: 60 });
    assert_eq!(engine.tone(60).unwrap().time_released, None);
}

#[test]
fn note_off_sets_the_release_frame() {
    let mut engine = Dsfsynth::new();
    engine.handle_event(on(60, 90));
    engine.advance(256);
    engine.handle_event(off(60));
    assert_eq!(
        engine.tone(60),
        Some(Tone { time_pressed: 0, time_released: Some(256), velocity: 90 })
    );
}

#[test]
fn first_note_off_wins() {
    let mut engine = Dsfsynth::new();
    engine.handle_event(on(60, 90));
    engine.advance(100);
    engine.handle_event(off(60));
    engine.advance(100);
    engine.handle_event(off(60));
    assert_eq!(engine.tone(60).unwrap().time_released, Some(100));
}

#[test]
fn two_note_offs_equal_one() {
    let mut once = Dsfsynth::new();
    let mut twice = Dsfsynth::new();
    for engine in [&mut once, &mut twice] {
        engine.handle_event(on(64, 80));
        engine.handle_event(on(67, 70));
        engine.advance(32);
    }
    once.handle_event(off(64));
    twice.handle_event(off(64));
    twice.handle_event(off(64));
    for note in 0..128u8 {
        assert_eq!(once.tone(note), twice.tone(note));
    }
    assert_eq!(once.current_frame(), twice.current_frame());
}

#[test]
fn note_off_without_voice_is_ignored() {
    let mut engine = Dsfsynth::new();
    engine.handle_event(off(60));
    assert!(engine.is_silent());
    engine.handle_event(on(61, 1));
    engine.handle_event(off(60));
    assert_eq!(engine.active_notes(), vec![61]);
    assert_eq!(engine.tone(61).unwrap().time_released, None);
}

#[test]
fn retrigger_restarts_the_voice() {
    let mut engine = Dsfsynth::new();
    engine.handle_event(on(69, 100));
    engine.advance(7);
    let before = engine.tone(69).unwrap();
    assert_eq!(before.steps(engine.current_frame()), 7);
    engine.handle_event(on(69, 50));
    let after = engine.tone(69).unwrap();
    assert_eq!(after, Tone { time_pressed: 7, time_released: None, velocity: 50 });
    assert_eq!(after.steps(engine.current_frame()), 0);
    assert_eq!(after.stage(engine.current_frame()), EnvelopeStage::Held { elapsed: 0 });
}

#[test]
fn retrigger_discards_the_release_tail() {
    let mut engine = Dsfsynth::new();
    engine.handle_event(on(69, 100));
    engine.advance(10);
    engine.handle_event(off(69));
    engine.advance(10);
    engine.handle_event(on(69, 101));
    assert_eq!(
        engine.tone(69),
        Some(Tone { time_pressed: 20, time_released: None, velocity: 101 })
    );
    assert!(!engine.tone(69).unwrap().is_released());
}

#[test]
fn selector_counts_from_one() {
    let mut engine = Dsfsynth::new();
    assert_eq!(engine.select_channel(1), Ok(()));
    assert_eq!(engine.input_channel(), 0);
    assert_eq!(engine.select_channel(16), Ok(()));
    assert_eq!(engine.input_channel(), 15);
    assert_eq!(engine.select_channel(10), Ok(()));
    assert_eq!(engine.input_channel(), 9);
}

#[test]
fn selector_out_of_range_is_rejected() {
    let mut engine = Dsfsynth::new();
    assert_eq!(engine.select_channel(5), Ok(()));
    engine.handle_event(NoteEvent::NoteOn { channel: 4, note: 12, velocity: 3 });
    for selector in [0u8, 17, 18, 128, 255] {
        assert_eq!(engine.select_channel(selector), Err(ConfigError::ChannelOutOfRange));
        assert_eq!(engine.input_channel(), 4);
        assert_eq!(engine.active_notes(), vec![12]);
    }
}

#[test]
fn every_selector_gives_its_channel() {
    for selector in 1..=16u8 {
        assert_eq!(dsfsynth::midi::channel_from_selector(selector), Ok(selector - 1));
    }
    assert_eq!(
        dsfsynth::midi::channel_from_selector(0),
        Err(ConfigError::ChannelOutOfRange)
    );
    assert_eq!(
        dsfsynth::midi::channel_from_selector(17),
        Err(ConfigError::ChannelOutOfRange)
    );
}

#[test]
fn midi_note_on_and_off_reach_the_pool() {
    let mut engine = Dsfsynth::new();
    let press = wmidi::MidiMessage::NoteOn(wmidi::Channel::Ch1, wmidi::Note::A3, seven_bits(127));
    engine.handle_message(&press);
    assert_eq!(
        engine.tone(69),
        Some(Tone { time_pressed: 0, time_released: None, velocity: 127 })
    );
    engine.advance(3);
    let lift = wmidi::MidiMessage::NoteOff(wmidi::Channel::Ch1, wmidi::Note::A3, seven_bits(0));
    engine.handle_message(&lift);
    assert_eq!(
        engine.tone(69),
        Some(Tone { time_pressed: 0, time_released: Some(3), velocity: 127 })
    );
}

#[test]
fn midi_messages_on_other_channels_are_ignored() {
    let mut engine = Dsfsynth::new();
    assert_eq!(engine.select_channel(16), Ok(()));
    let first = wmidi::MidiMessage::NoteOn(wmidi::Channel::Ch1, wmidi::Note::C3, seven_bits(64));
    engine.handle_message(&first);
    assert!(engine.is_silent());
    let last = wmidi::MidiMessage::NoteOn(wmidi::Channel::Ch16, wmidi::Note::G8, seven_bits(1));
    engine.handle_message(&last);
    assert_eq!(engine.active_notes(), vec![127]);
    assert_eq!(engine.tone(127).unwrap().velocity, 1);
}

#[test]
fn other_midi_messages_are_ignored() {
    let mut engine = Dsfsynth::new();
    engine.handle_event(on(60, 60));
    let before = engine.tone(60);
    let control = wmidi::MidiMessage::ControlChange(
        wmidi::Channel::Ch1,
        wmidi::ControlNumber::try_from(60).unwrap(),
        seven_bits(0),
    );
    engine.handle_message(&control);
    let pressure = wmidi::MidiMessage::PolyphonicKeyPressure(
        wmidi::Channel::Ch1,
        wmidi::Note::C3,
        seven_bits(0),
    );
    engine.handle_message(&pressure);
    engine.handle_message(&wmidi::MidiMessage::Reset);
    engine.handle_event(NoteEvent::Other);
    assert_eq!(engine.tone(60), before);
    assert_eq!(engine.active_notes(), vec![60]);
}

#[test]
fn events_are_applied_in_order() {
    let mut engine = Dsfsynth::new();
    engine.advance(5);
    engine.handle_events(&vec![on(60, 10), off(60), on(62, 20), on(60, 30), off(62), off(64)]);
    assert_eq!(
        engine.tone(60),
        Some(Tone { time_pressed: 5, time_released: None, velocity: 30 })
    );
    assert_eq!(
        engine.tone(62),
        Some(Tone { time_pressed: 5, time_released: Some(5), velocity: 20 })
    );
    assert_eq!(engine.tone(64), None);
    assert_eq!(engine.current_frame(), 5);
}

#[test]
fn empty_event_list_changes_nothing() {
    let mut engine = Dsfsynth::new();
    engine.handle_event(on(1, 1));
    engine.handle_events(&Vec::new());
    assert_eq!(engine.active_notes(), vec![1]);
}

#[test]
fn active_notes_ascend() {
    let mut engine = Dsfsynth::new();
    engine.handle_events(&vec![on(127, 1), on(0, 2), on(64, 3), on(63, 4), on(64, 5)]);
    assert_eq!(engine.active_notes(), vec![0, 63, 64, 127]);
}

#[test]
fn all_notes_fit_in_the_pool() {
    let mut engine = Dsfsynth::new();
    for round in 0..3u8 {
        for note in 0..128u8 {
            engine.handle_event(on(note, round));
        }
    }
    let notes = engine.active_notes();
    assert_eq!(notes.len(), 128);
    assert_eq!(notes, (0..128u8).collect::<Vec<u8>>());
}

#[test]
fn finished_voices_are_removed() {
    let mut engine = Dsfsynth::new();
    engine.handle_events(&vec![on(10, 1), on(20, 2), on(30, 3)]);
    engine.remove_finished(&vec![20, 20, 40, 200]);
    assert_eq!(engine.active_notes(), vec![10, 30]);
    assert_eq!(engine.tone(10).unwrap().velocity, 1);
    engine.remove_finished(&Vec::new());
    assert_eq!(engine.active_notes(), vec![10, 30]);
    engine.remove_finished(&vec![30, 10]);
    assert!(engine.is_silent());
}

#[test]
fn removed_voice_is_not_revived_by_note_off() {
    let mut engine = Dsfsynth::new();
    engine.handle_event(on(10, 1));
    engine.handle_event(off(10));
    engine.remove_finished(&vec![10]);
    engine.handle_event(off(10));
    assert!(engine.is_silent());
}

#[test]
fn clock_advances_by_the_block_length() {
    let mut engine = Dsfsynth::new();
    engine.advance(0);
    assert_eq!(engine.current_frame(), 0);
    engine.advance(512);
    engine.advance(512);
    assert_eq!(engine.current_frame(), 1024);
    engine.advance(u32::MAX - 1024);
    assert_eq!(engine.current_frame(), u32::MAX);
}

#[test]
fn activate_resets_voices_and_clock() {
    let mut engine = Dsfsynth::new();
    assert_eq!(engine.select_channel(3), Ok(()));
    engine.handle_event(NoteEvent::NoteOn { channel: 2, note: 5, velocity: 5 });
    engine.advance(99);
    engine.activate();
    assert!(engine.is_silent());
    assert_eq!(engine.current_frame(), 0);
    assert_eq!(engine.input_channel(), 2);
}

#[test]
fn deactivate_resets_voices_and_clock() {
    let mut engine = Dsfsynth::new();
    engine.handle_events(&vec![on(5, 5), on(6, 6), off(5)]);
    engine.advance(1);
    engine.deactivate();
    assert!(engine.is_silent());
    assert_eq!(engine.current_frame(), 0);
    assert_eq!(engine.active_notes(), Vec::<u8>::new());
}

#[test]
fn stage_counts_frames() {
    let held = Tone::pressed(100, 64);
    assert_eq!(held, Tone { time_pressed: 100, time_released: None, velocity: 64 });
    assert_eq!(held.stage(100), EnvelopeStage::Held { elapsed: 0 });
    assert_eq!(held.stage(148), EnvelopeStage::Held { elapsed: 48 });
    let released = held.release(130);
    assert_eq!(released.time_released, Some(130));
    assert!(released.is_released());
    assert_eq!(released.stage(130), EnvelopeStage::Released { held: 30, elapsed: 0 });
    assert_eq!(released.stage(175), EnvelopeStage::Released { held: 30, elapsed: 45 });
    assert_eq!(released.release(170), released);
    assert_eq!(released.steps(175), 75);
    assert_eq!(
        Tone::pressed(0, 0).release(u32::MAX).stage(u32::MAX),
        EnvelopeStage::Released { held: u32::MAX, elapsed: 0 }
    );
}

#[test]
fn event_ranges_are_checked() {
    assert!(on(127, 127).is_valid());
    assert!(off(0).is_valid());
    assert!(NoteEvent::Other.is_valid());
    assert!(NoteEvent::NoteOn { channel: 15, note: 0, velocity: 0 }.is_valid());
    assert!(!NoteEvent::NoteOn { channel: 16, note: 0, velocity: 0 }.is_valid());
    assert!(!NoteEvent::NoteOn { channel: 0, note: 128, velocity: 0 }.is_valid());
    assert!(!NoteEvent::NoteOn { channel: 0, note: 0, velocity: 128 }.is_valid());
    assert!(!NoteEvent::NoteOff { channel: 16, note: 0 }.is_valid());
    assert!(!NoteEvent::NoteOff { channel: 0, note: 128 }.is_valid());
}
