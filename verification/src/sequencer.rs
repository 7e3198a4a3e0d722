//! The sequencer: a state machine that plays a fixed, cyclic song against an
//! external periodic tick signal.
//!
//! Once per tick the driver calls [`Sequencer::advance`]. When the running
//! tick counter has reached the tick at which the event under the cursor was
//! scheduled, the sequencer emits one [`PlayAction`] carrying the event's
//! rate-register value, schedules the next event one duration later, and
//! moves the cursor forward cyclically; on every other tick it emits nothing
//! and the previously triggered note keeps sounding under hardware control.

use vstd::prelude::*;

use crate::pitch::Note;
use crate::pitch::Octave;
use crate::pitch::rate_of;
use crate::pitch::sound_rate;

verus! {

use vstd::arithmetic::div_mod::lemma_add_mod_noop_right;
use vstd::arithmetic::div_mod::lemma_mod_bound;
use vstd::arithmetic::div_mod::lemma_mod_self_0;
use vstd::arithmetic::div_mod::lemma_small_mod;

/// One event of a song: a pitch and the number of ticks it sounds before the
/// next event is considered.
#[derive(Clone, Copy, PartialEq, Eq, Structural, Debug)]
pub struct SongEvent {
    pub note: Note,
    pub octave: Octave,
    pub duration: u32,
}

/// The one action a sequencer can emit: trigger the voice at this
/// rate-register value. Envelope, sweep and duty parameters are fixed
/// configuration of the platform layer, not chosen here.
#[derive(Clone, Copy, PartialEq, Eq, Structural, Debug)]
pub struct PlayAction {
    pub frequency: u16,
}

/// Why a song is rejected at construction.
#[derive(Clone, Copy, PartialEq, Eq, Structural, Debug)]
pub enum SongError {
    /// A song must hold at least one event: an empty one leaves the cursor
    /// undefined.
    Empty,
    /// Every duration must be at least one tick: a zero duration would make
    /// the same event due forever.
    ZeroDuration,
}

/// A playable song: at least one event, every duration positive.
pub open spec fn song_wf(song: Seq<SongEvent>) -> bool {
    &&& song.len() >= 1
    &&& forall|i: int| 0 <= i < song.len() ==> (#[trigger] song[i]).duration >= 1
}

/// An ordered, fixed, cyclic sequence of events, read-only during playback.
/// Construction rejects configurations the sequencer cannot play.
pub struct Song {
    events: Vec<SongEvent>,
}

impl View for Song {
    type V = Seq<SongEvent>;

    closed spec fn view(&self) -> Seq<SongEvent> {
        self.events@
    }
}

impl Song {
    /// Validates a song once, at construction: it must be non-empty and
    /// every duration must be at least one tick. Both defects are fatal
    /// configuration errors, never recovered mid-playback.
    pub fn new(events: Vec<SongEvent>) -> (r: Result<Song, SongError>)
        ensures
            song_wf(events@) ==> (r matches Ok(s) && s@ == events@),
            events@.len() == 0 ==> r == Err::<Song, SongError>(SongError::Empty),
            (events@.len() >= 1 && !song_wf(events@)) ==> r == Err::<Song, SongError>(
                SongError::ZeroDuration,
            ),
    {
        if events.len() == 0 {
            return Err(SongError::Empty);
        }
        let mut i: usize = 0;
        while i < events.len()
            invariant
                i <= events@.len(),
                forall|j: int| 0 <= j < i ==> (#[trigger] events@[j]).duration >= 1,
            decreases events@.len() - i,
        {
            if events[i].duration == 0 {
                return Err(SongError::ZeroDuration);
            }
            i = i + 1;
        }
        Ok(Song { events })
    }

    /// Number of events in the song.
    pub fn len(&self) -> (r: usize)
        ensures
            r == self@.len(),
    {
        self.events.len()
    }

    /// The event at position `i`.
    pub fn get(&self, i: usize) -> (r: SongEvent)
        requires
            i < self@.len(),
        ensures
            r == self@[i as int],
    {
        self.events[i]
    }
}

/// The mathematical state of a playing sequencer: the song, the tick counter,
/// the cursor into the song, and the tick at which the event under the
/// cursor is due.
#[verifier::ext_equal]
pub ghost struct SequencerState {
    pub song: Seq<SongEvent>,
    pub tick: nat,
    pub cursor: nat,
    pub next_due: nat,
}

/// A state the sequencer can actually be in: a playable song and the cursor
/// inside it.
pub open spec fn state_wf(m: SequencerState) -> bool {
    &&& song_wf(m.song)
    &&& m.cursor < m.song.len()
}

/// Whether the event under the cursor is due on this tick.
pub open spec fn is_due(m: SequencerState) -> bool {
    m.tick >= m.next_due
}

/// What one tick emits: the rate of the event under the cursor when it is
/// due, nothing otherwise.
pub open spec fn action_at(m: SequencerState) -> Option<PlayAction> {
    if is_due(m) {
        Some(
            PlayAction {
                frequency: rate_of(m.song[m.cursor as int].note, m.song[m.cursor as int].octave),
            },
        )
    } else {
        None
    }
}

/// The state after one tick. When the event under the cursor is due, the
/// next event is scheduled one duration later and the cursor advances
/// modulo the song length; otherwise only the tick counter moves.
pub open spec fn step(m: SequencerState) -> SequencerState {
    if is_due(m) {
        SequencerState {
            song: m.song,
            tick: (m.tick + 1) as nat,
            cursor: ((m.cursor + 1) % m.song.len()) as nat,
            next_due: (m.tick + m.song[m.cursor as int].duration) as nat,
        }
    } else {
        SequencerState { tick: (m.tick + 1) as nat, ..m }
    }
}

/// Playback starts at tick 0, cursor 0, with the first event immediately due.
pub open spec fn init_state(song: Seq<SongEvent>) -> SequencerState {
    SequencerState { song, tick: 0, cursor: 0, next_due: 0 }
}

/// The state after `t` ticks of playback from the initial state.
pub open spec fn run(song: Seq<SongEvent>, t: nat) -> SequencerState
    decreases t,
{
    if t == 0 {
        init_state(song)
    } else {
        step(run(song, (t - 1) as nat))
    }
}

/// The tick at which the `k`-th trigger fires: the sum of the durations of
/// the first `k` events in cyclic order. At `k == song.len()` this is the
/// sum of all durations of one full cycle.
pub open spec fn trigger_time(song: Seq<SongEvent>, k: nat) -> nat
    decreases k,
{
    if k == 0 {
        0
    } else {
        (trigger_time(song, (k - 1) as nat) + song[(k - 1) % song.len() as int].duration) as nat
    }
}

/// The sum of all durations of the song: the ticks one full cycle takes.
pub open spec fn total_duration(song: Seq<SongEvent>) -> nat {
    trigger_time(song, song.len())
}

/// Trigger times strictly increase: each event holds for at least one tick.
pub proof fn lemma_trigger_time_increases(song: Seq<SongEvent>, k: nat)
    requires
        song_wf(song),
    ensures
        trigger_time(song, k) < trigger_time(song, (k + 1) as nat),
{
    lemma_mod_bound(k as int, song.len() as int);
}

proof fn lemma_mod_succ(k: nat, n: nat)
    requires
        n >= 1,
    ensures
        ((k % n) + 1) % n == (k + 1) % n,
{
    lemma_add_mod_noop_right(1, k as int, n as int);
}

/// `t` lies in the window of the `k`-th trigger: all earlier triggers are
/// past and the `k`-th one is not.
pub open spec fn in_trigger_window(song: Seq<SongEvent>, k: nat, t: nat) -> bool {
    &&& (k == 0 ==> t == 0)
    &&& (k >= 1 ==> trigger_time(song, (k - 1) as nat) < t)
    &&& t <= trigger_time(song, k)
}

/// Where playback stands after `t` ticks, for the trigger window `t` falls
/// in: `k` events have fired, the cursor stands at `k` modulo the song
/// length, and the `k`-th trigger time is the next due tick.
pub proof fn lemma_run_at(song: Seq<SongEvent>, k: nat, t: nat)
    requires
        song_wf(song),
        in_trigger_window(song, k, t),
    ensures
        run(song, t) == (SequencerState {
            song,
            tick: t,
            cursor: k % song.len(),
            next_due: trigger_time(song, k),
        }),
    decreases t,
{
    let n = song.len();
    if t == 0 {
        assert(k == 0);
        lemma_small_mod(0, n);
        assert(run(song, 0) =~= SequencerState { song, tick: 0, cursor: 0, next_due: 0 });
    } else {
        assert(k >= 1);
        let km1 = (k - 1) as nat;
        let tk1 = trigger_time(song, km1);
        let tp = (t - 1) as nat;
        if tp == tk1 {
            if km1 >= 1 {
                lemma_trigger_time_increases(song, (km1 - 1) as nat);
            }
            lemma_run_at(song, km1, tp);
            let prev = run(song, tp);
            assert(is_due(prev));
            lemma_mod_bound(km1 as int, n as int);
            lemma_mod_succ(km1, n);
            assert(run(song, t) =~= SequencerState {
                song,
                tick: t,
                cursor: k % n,
                next_due: trigger_time(song, k),
            });
        } else {
            lemma_run_at(song, k, tp);
            let prev = run(song, tp);
            assert(!is_due(prev));
            assert(run(song, t) =~= SequencerState {
                song,
                tick: t,
                cursor: k % n,
                next_due: trigger_time(song, k),
            });
        }
    }
}

/// One full cycle returns the sequencer to the first event: after exactly
/// the sum of all durations ticks from the start, the cursor is 0 again, the
/// first event is due on that very tick, and the action it emits is the same
/// as the very first action of the run.
pub proof fn lemma_cycle_returns(song: Seq<SongEvent>)
    requires
        song_wf(song),
    ensures
        run(song, total_duration(song)) == (SequencerState {
            song,
            tick: total_duration(song),
            cursor: 0,
            next_due: total_duration(song),
        }),
        action_at(run(song, total_duration(song))) == action_at(init_state(song)),
{
    let n = song.len();
    lemma_trigger_time_increases(song, (n - 1) as nat);
    lemma_run_at(song, n, total_duration(song));
    lemma_mod_self_0(n as int);
}

/// No double trigger: strictly between two consecutive trigger times the
/// sequencer emits nothing, and the held note is left to the hardware.
pub proof fn lemma_no_double_trigger(song: Seq<SongEvent>, k: nat, t: nat)
    requires
        song_wf(song),
        trigger_time(song, k) < t < trigger_time(song, (k + 1) as nat),
    ensures
        action_at(run(song, t)) is None,
{
    lemma_run_at(song, (k + 1) as nat, t);
}

/// At the `k`-th trigger time the event `k` modulo the song length fires,
/// with exactly its pitch's register value. Together with
/// `lemma_no_double_trigger` and `lemma_triggers_exactly_at_trigger_times`,
/// the (tick, frequency) pairs a run emits are a function of the song alone:
/// every run of the same song emits the same pairs.
pub proof fn lemma_action_at_trigger_time(song: Seq<SongEvent>, k: nat)
    requires
        song_wf(song),
    ensures
        ({
            let m = run(song, trigger_time(song, k));
            let ev = song[(k % song.len()) as int];
            is_due(m) && m.cursor == k % song.len() && action_at(m) == Some(
                PlayAction { frequency: rate_of(ev.note, ev.octave) },
            )
        }),
{
    if k >= 1 {
        lemma_trigger_time_increases(song, (k - 1) as nat);
    }
    lemma_run_at(song, k, trigger_time(song, k));
}

proof fn lemma_window_exists(song: Seq<SongEvent>, t: nat) -> (k: nat)
    requires
        song_wf(song),
    ensures
        in_trigger_window(song, k, t),
    decreases t,
{
    if t == 0 {
        0
    } else {
        let kp = lemma_window_exists(song, (t - 1) as nat);
        if t - 1 == trigger_time(song, kp) {
            lemma_trigger_time_increases(song, kp);
            (kp + 1) as nat
        } else {
            kp
        }
    }
}

/// A run emits an action on tick `t` if and only if `t` is one of the
/// trigger times.
pub proof fn lemma_triggers_exactly_at_trigger_times(song: Seq<SongEvent>, t: nat)
    requires
        song_wf(song),
    ensures
        (action_at(run(song, t)) is Some) <==> exists|k: nat|
            t == #[trigger] trigger_time(song, k),
{
    let k = lemma_window_exists(song, t);
    lemma_run_at(song, k, t);
    if action_at(run(song, t)) is Some {
        assert(t == trigger_time(song, k));
    }
    if exists|k2: nat| t == #[trigger] trigger_time(song, k2) {
        let k2 = choose|k2: nat| t == #[trigger] trigger_time(song, k2);
        lemma_action_at_trigger_time(song, k2);
    }
}

proof fn lemma_trigger_time_single(song: Seq<SongEvent>, k: nat)
    requires
        song.len() == 1,
        song[0].duration == 1,
    ensures
        trigger_time(song, k) == k,
    decreases k,
{
    if k >= 1 {
        lemma_trigger_time_single(song, (k - 1) as nat);
        lemma_mod_bound((k - 1) as int, 1);
    }
}

/// Boundary behaviour: a one-event song whose event lasts a single tick
/// triggers on every tick, and the cursor never leaves 0.
pub proof fn lemma_single_short_event_triggers_every_tick(song: Seq<SongEvent>, t: nat)
    requires
        song.len() == 1,
        song[0].duration == 1,
    ensures
        run(song, t).cursor == 0,
        action_at(run(song, t)) == Some(
            PlayAction { frequency: rate_of(song[0].note, song[0].octave) },
        ),
{
    assert(song_wf(song));
    lemma_trigger_time_single(song, t);
    if t >= 1 {
        lemma_trigger_time_single(song, (t - 1) as nat);
    }
    lemma_run_at(song, t, t);
    lemma_mod_bound(t as int, 1);
}

/// A sequencer driving one playback of a song. Exclusively owned and mutated
/// by a single driver loop, once per tick.
pub struct Sequencer {
    song: Song,
    tick: u64,
    cursor: usize,
    next_due_tick: u64,
}

impl View for Sequencer {
    type V = SequencerState;

    closed spec fn view(&self) -> SequencerState {
        SequencerState {
            song: self.song@,
            tick: self.tick as nat,
            cursor: self.cursor as nat,
            next_due: self.next_due_tick as nat,
        }
    }
}

impl Sequencer {
    /// Starts playback of a song from its first event.
    pub fn new(song: Song) -> (r: Sequencer)
        ensures
            r@ == init_state(song@),
    {
        let r = Sequencer { song, tick: 0, cursor: 0, next_due_tick: 0 };
        proof {
            assert(r@ =~= init_state(r.song@));
        }
        r
    }

    /// One tick of playback: emits the action of the current state and moves
    /// to the next state. The tick bound only keeps the 64-bit counters from
    /// wrapping; at one tick per display refresh it is out of reach.
    pub fn advance(&mut self) -> (r: Option<PlayAction>)
        requires
            state_wf(old(self)@),
            old(self)@.tick < 0xffff_ffff_0000_0000,
        ensures
            final(self)@ == step(old(self)@),
            r == action_at(old(self)@),
            state_wf(final(self)@),
    {
        let mut result: Option<PlayAction> = None;
        if self.tick >= self.next_due_tick {
            let ev = self.song.get(self.cursor);
            let n = self.song.len();
            self.next_due_tick = self.tick + (ev.duration as u64);
            result = Some(PlayAction { frequency: sound_rate(&ev.note, &ev.octave) });
            self.cursor = self.cursor + 1;
            if self.cursor == n {
                self.cursor = 0;
            }
            proof {
                let n = old(self)@.song.len() as int;
                let c = old(self)@.cursor as int;
                if c + 1 == n {
                    lemma_mod_self_0(n);
                } else {
                    lemma_small_mod((c + 1) as nat, n as nat);
                }
            }
        }
        self.tick = self.tick + 1;
        proof {
            assert(self@ =~= step(old(self)@));
        }
        result
    }

    /// The running tick counter: how many times `advance` has been called.
    pub fn tick(&self) -> (r: u64)
        ensures
            r as nat == self@.tick,
    {
        self.tick
    }

    /// The cursor: the index of the event that will fire next.
    pub fn cursor(&self) -> (r: usize)
        ensures
            r as nat == self@.cursor,
    {
        self.cursor
    }

    /// The tick at which the event under the cursor is due.
    pub fn next_due_tick(&self) -> (r: u64)
        ensures
            r as nat == self@.next_due,
    {
        self.next_due_tick
    }
}

} // verus!
