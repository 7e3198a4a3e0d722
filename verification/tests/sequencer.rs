use melody::Note;
use melody::Octave;
use melody::PlayAction;
use melody::Sequencer;
use melody::Song;
use melody::SongError;
use melody::SongEvent;
use melody::sound_rate;

fn ev(note: Note, octave: Octave, duration: u32) -> SongEvent {
    SongEvent { note, octave, duration }
}

fn three_event_song() -> Song {
    Song::new(vec![
        ev(Note::C, Octave::U2, 24),
        ev(Note::C, Octave::U2, 24),
        ev(Note::D, Octave::U2, 12),
    ])
    .unwrap()
}

#[test]
fn empty_song_is_rejected() {
    assert_eq!(Song::new(vec![]).err(), Some(SongError::Empty));
}

#[test]
fn zero_duration_is_rejected() {
    let events = vec![ev(Note::C, Octave::U2, 5), ev(Note::D, Octave::U2, 0)];
    assert_eq!(Song::new(events).err(), Some(SongError::ZeroDuration));
}

#[test]
fn valid_song_is_kept_as_given() {
    let song = three_event_song();
    assert_eq!(song.len(), 3);
    assert_eq!(song.get(2), ev(Note::D, Octave::U2, 12));
}

#[test]
fn three_event_scenario() {
    // triggers are expected at ticks 0, 24 and 48, and nowhere else in 0..60
    let mut sq = Sequencer::new(three_event_song());
    let c2 = sound_rate(&Note::C, &Octave::U2);
    let d2 = sound_rate(&Note::D, &Octave::U2);
    for t in 0..60u64 {
        assert_eq!(sq.tick(), t);
        let action = sq.advance();
        match t {
            0 => assert_eq!(action, Some(PlayAction { frequency: c2 })),
            24 => assert_eq!(action, Some(PlayAction { frequency: c2 })),
            48 => assert_eq!(action, Some(PlayAction { frequency: d2 })),
            _ => assert_eq!(action, None),
        }
    }
    // one full cycle is over: the cursor is back on the first event and it
    // is due again on this very tick
    assert_eq!(sq.cursor(), 0);
    assert_eq!(sq.next_due_tick(), 60);
    let action = sq.advance();
    assert_eq!(action, Some(PlayAction { frequency: c2 }));
    // the wrapped first event is rescheduled with its own duration
    assert_eq!(sq.next_due_tick(), 60 + 24);
    assert_eq!(sq.cursor(), 1);
}

#[test]
fn cycle_returns_to_start() {
    let durations = [24u32, 24, 24, 12, 12, 36];
    let events: Vec<SongEvent> =
        durations.iter().map(|d| ev(Note::A, Octave::U1, *d)).collect();
    let total: u64 = durations.iter().map(|d| u64::from(*d)).sum();
    let mut sq = Sequencer::new(Song::new(events).unwrap());
    let first = sq.advance();
    for _ in 1..total {
        sq.advance();
    }
    assert_eq!(sq.cursor(), 0);
    assert_eq!(sq.tick(), total);
    assert_eq!(sq.next_due_tick(), total);
    assert_eq!(sq.advance(), first);
}

#[test]
fn single_short_event_triggers_every_tick() {
    let mut sq = Sequencer::new(Song::new(vec![ev(Note::C, Octave::U2, 1)]).unwrap());
    let c2 = sound_rate(&Note::C, &Octave::U2);
    for _ in 0..50 {
        assert_eq!(sq.cursor(), 0);
        assert_eq!(sq.advance(), Some(PlayAction { frequency: c2 }));
    }
    assert_eq!(sq.cursor(), 0);
}

#[test]
fn no_action_between_triggers() {
    let mut sq = Sequencer::new(Song::new(vec![ev(Note::G, Octave::U0, 7)]).unwrap());
    for t in 0..70u64 {
        let action = sq.advance();
        if t % 7 == 0 {
            assert!(action.is_some());
        } else {
            assert_eq!(action, None);
        }
    }
}

fn emissions(song: Song, ticks: u64) -> Vec<(u64, u16)> {
    let mut sq = Sequencer::new(song);
    let mut out: Vec<(u64, u16)> = Vec::new();
    for t in 0..ticks {
        if let Some(action) = sq.advance() {
            out.push((t, action.frequency));
        }
    }
    out
}

#[test]
fn repeated_runs_emit_identical_pairs() {
    let first = emissions(three_event_song(), 200);
    let second = emissions(three_event_song(), 200);
    assert_eq!(first, second);
    let c2 = sound_rate(&Note::C, &Octave::U2);
    let d2 = sound_rate(&Note::D, &Octave::U2);
    assert_eq!(
        first[..6],
        [(0, c2), (24, c2), (48, d2), (60, c2), (84, c2), (108, d2)]
    );
}

#[test]
fn full_melody_trigger_schedule() {
    // the ten-event melody: durations sum to 168, so the cycle restarts there
    let song = Song::new(vec![
        ev(Note::C, Octave::U2, 24),
        ev(Note::C, Octave::U2, 24),
        ev(Note::D, Octave::U2, 12),
        ev(Note::E, Octave::U2, 12),
        ev(Note::F, Octave::U2, 12),
        ev(Note::C, Octave::U1, 24),
        ev(Note::C, Octave::U1, 24),
        ev(Note::F, Octave::U1, 12),
        ev(Note::E, Octave::U1, 12),
        ev(Note::D, Octave::U1, 12),
    ])
    .unwrap();
    let got = emissions(song, 169);
    let ticks: Vec<u64> = got.iter().map(|p| p.0).collect();
    assert_eq!(ticks, vec![0, 24, 48, 60, 72, 84, 108, 132, 144, 156, 168]);
    assert_eq!(got[0].1, 2048 - 125); // C at U2
    assert_eq!(got[5].1, 2048 - 250); // C at U1
    assert_eq!(got[7].1, 2048 - 187); // F at U1
    assert_eq!(got[10].1, got[0].1); // the wrap re-triggers the first event
}
