//! The input sequencer: timed key-hold and idle steps as data, their
//! expansion into the primitive commands a driving loop performs, and the
//! fixed load script that navigates the tracker firmware's UI to a playing
//! song.

use vstd::prelude::*;
use crate::clock::{ticks_of_deciseconds, ticks_for_deciseconds};
use crate::keys::Key;
use crate::save::SaveKind;

verus! {

/// One step of a timed input script: hold some keys together for a
/// duration, or let the emulation run idle for a duration.  Durations are
/// tenths of a second, each rounded to whole ticks independently.
pub enum ScriptStep {
    /// Signal key-down for every key, wait out the duration, then signal
    /// key-up for every key.
    Hold { keys: Vec<Key>, deciseconds: u32 },
    /// Wait out the duration with no key held.
    Idle { deciseconds: u32 },
}

/// One primitive command for the loop that drives the emulation core.  The
/// command sequence is the whole decision content of a run: the loop
/// performs commands in order and decides nothing itself.
#[derive(Clone, Copy, PartialEq, Eq, Structural, Debug)]
pub enum Action {
    /// Signal key-down for this key.
    Press(Key),
    /// Signal key-up for this key.
    Release(Key),
    /// Step the emulation core until at least this many ticks have elapsed.
    Run(u64),
}

/// Key-down signals for the keys, in order.
pub open spec fn presses(keys: Seq<Key>) -> Seq<Action> {
    Seq::new(keys.len(), |i: int| Action::Press(keys[i]))
}

/// Key-up signals for the keys, in order.
pub open spec fn releases(keys: Seq<Key>) -> Seq<Action> {
    Seq::new(keys.len(), |i: int| Action::Release(keys[i]))
}

/// The commands one script step expands to.
pub open spec fn step_actions(s: ScriptStep) -> Seq<Action> {
    match s {
        ScriptStep::Hold { keys, deciseconds } => presses(keys@) + seq![
            Action::Run(ticks_of_deciseconds(deciseconds as nat) as u64),
        ] + releases(keys@),
        ScriptStep::Idle { deciseconds } => seq![
            Action::Run(ticks_of_deciseconds(deciseconds as nat) as u64),
        ],
    }
}

/// The commands a whole script expands to, step after step.
pub open spec fn script_actions(s: Seq<ScriptStep>) -> Seq<Action>
    decreases s.len(),
{
    if s.len() == 0 {
        Seq::empty()
    } else {
        step_actions(s[0]) + script_actions(s.skip(1))
    }
}

pub proof fn lemma_script_actions_concat(a: Seq<ScriptStep>, b: Seq<ScriptStep>)
    ensures
        script_actions(a + b) == script_actions(a) + script_actions(b),
    decreases a.len(),
{
    if a.len() == 0 {
        assert(a + b =~= b);
        assert(script_actions(a) + script_actions(b) =~= script_actions(b));
    } else {
        assert((a + b).skip(1) =~= a.skip(1) + b);
        lemma_script_actions_concat(a.skip(1), b);
        assert((a + b)[0] == a[0]);
        assert(step_actions(a[0]) + (script_actions(a.skip(1)) + script_actions(b)) =~= (
        step_actions(a[0]) + script_actions(a.skip(1))) + script_actions(b));
    }
}

pub proof fn lemma_script_actions_push(s: Seq<ScriptStep>, x: ScriptStep)
    ensures
        script_actions(s.push(x)) == script_actions(s) + step_actions(x),
{
    assert(s.push(x) =~= s + seq![x]);
    lemma_script_actions_concat(s, seq![x]);
    assert(seq![x].skip(1) =~= Seq::<ScriptStep>::empty());
    assert(script_actions(Seq::<ScriptStep>::empty()) == Seq::<Action>::empty());
    assert(seq![x][0] == x);
    assert(script_actions(seq![x]) == step_actions(x) + Seq::<Action>::empty());
    assert(step_actions(x) + Seq::<Action>::empty() =~= step_actions(x));
}

/// Expand one script step into driver commands, appended to `out`.
fn push_step_actions(out: &mut Vec<Action>, step: &ScriptStep)
    ensures
        final(out)@ == old(out)@ + step_actions(*step),
{
    match step {
        ScriptStep::Hold { keys, deciseconds } => {
            let ghost t = ticks_of_deciseconds(*deciseconds as nat) as u64;
            let n = keys.len();
            let mut i: usize = 0;
            while i < n
                invariant
                    i <= n,
                    n == keys@.len(),
                    out@ == old(out)@ + presses(keys@).take(i as int),
                decreases n - i,
            {
                out.push(Action::Press(keys[i]));
                proof {
                    assert(out@ =~= old(out)@ + presses(keys@).take(i as int + 1));
                }
                i = i + 1;
            }
            proof {
                assert(presses(keys@).take(n as int) =~= presses(keys@));
            }
            out.push(Action::Run(ticks_for_deciseconds(*deciseconds)));
            let mut j: usize = 0;
            while j < n
                invariant
                    j <= n,
                    n == keys@.len(),
                    t == ticks_of_deciseconds(*deciseconds as nat) as u64,
                    out@ == old(out)@ + presses(keys@) + seq![Action::Run(t)] + releases(
                        keys@,
                    ).take(j as int),
                decreases n - j,
            {
                out.push(Action::Release(keys[j]));
                proof {
                    assert(out@ =~= old(out)@ + presses(keys@) + seq![Action::Run(t)] + releases(
                        keys@,
                    ).take(j as int + 1));
                }
                j = j + 1;
            }
            proof {
                assert(releases(keys@).take(n as int) =~= releases(keys@));
                assert(out@ =~= old(out)@ + step_actions(*step));
            }
        },
        ScriptStep::Idle { deciseconds } => {
            out.push(Action::Run(ticks_for_deciseconds(*deciseconds)));
            proof {
                assert(out@ =~= old(out)@ + step_actions(*step));
            }
        },
    }
}

/// Compile a script into the exact command sequence that performs it.
pub fn actions_for(script: &Vec<ScriptStep>) -> (r: Vec<Action>)
    ensures
        r@ == script_actions(script@),
{
    let mut out: Vec<Action> = Vec::new();
    let mut i: usize = 0;
    while i < script.len()
        invariant
            i <= script@.len(),
            out@ == script_actions(script@.take(i as int)),
        decreases script@.len() - i,
    {
        push_step_actions(&mut out, &script[i]);
        proof {
            assert(script@.take(i as int).push(script@[i as int]) =~= script@.take(i as int + 1));
            lemma_script_actions_push(script@.take(i as int), script@[i as int]);
        }
        i = i + 1;
    }
    proof {
        assert(script@.take(script@.len() as int) =~= script@);
    }
    out
}

/// The commands of a one-key hold.
pub open spec fn hold1_actions(k: Key, ds: nat) -> Seq<Action> {
    seq![
        Action::Press(k),
        Action::Run(ticks_of_deciseconds(ds) as u64),
        Action::Release(k),
    ]
}

/// The commands of an idle wait.
pub open spec fn idle_actions(ds: nat) -> Seq<Action> {
    seq![Action::Run(ticks_of_deciseconds(ds) as u64)]
}

/// The commands the fixed load script expands to: open the project menu,
/// move down to the file screen, confirm it, pick the topmost song, load
/// it, discard the autosaved working memory, and settle while the song
/// list screen gives way to playback.  The timings are hand-tuned to one
/// tracker-firmware build's UI and are not adaptive.
pub open spec fn load_script_actions() -> Seq<Action> {
    seq![
        Action::Press(Key::Select),
        Action::Press(Key::Up),
        Action::Run(ticks_of_deciseconds(1) as u64),
        Action::Release(Key::Select),
        Action::Release(Key::Up),
    ] + idle_actions(10) + hold1_actions(Key::Down, 30) + hold1_actions(Key::A, 1) + idle_actions(
        10,
    ) + hold1_actions(Key::A, 1) + hold1_actions(Key::Up, 50) + idle_actions(10) + hold1_actions(
        Key::A,
        1,
    ) + idle_actions(10) + hold1_actions(Key::Left, 1) + hold1_actions(Key::A, 1) + idle_actions(
        100,
    )
}

fn push_hold1(v: &mut Vec<ScriptStep>, k: Key, ds: u32)
    ensures
        script_actions(final(v)@) == script_actions(old(v)@) + hold1_actions(k, ds as nat),
{
    let mut keys: Vec<Key> = Vec::new();
    keys.push(k);
    let step = ScriptStep::Hold { keys, deciseconds: ds };
    let ghost pre = v@;
    proof {
        assert(step_actions(step) =~= hold1_actions(k, ds as nat));
    }
    v.push(step);
    proof {
        lemma_script_actions_push(pre, step);
    }
}

fn push_hold2(v: &mut Vec<ScriptStep>, k1: Key, k2: Key, ds: u32)
    ensures
        script_actions(final(v)@) == script_actions(old(v)@) + seq![
            Action::Press(k1),
            Action::Press(k2),
            Action::Run(ticks_of_deciseconds(ds as nat) as u64),
            Action::Release(k1),
            Action::Release(k2),
        ],
{
    let mut keys: Vec<Key> = Vec::new();
    keys.push(k1);
    keys.push(k2);
    let step = ScriptStep::Hold { keys, deciseconds: ds };
    let ghost pre = v@;
    proof {
        assert(step_actions(step) =~= seq![
            Action::Press(k1),
            Action::Press(k2),
            Action::Run(ticks_of_deciseconds(ds as nat) as u64),
            Action::Release(k1),
            Action::Release(k2),
        ]);
    }
    v.push(step);
    proof {
        lemma_script_actions_push(pre, step);
    }
}

fn push_idle(v: &mut Vec<ScriptStep>, ds: u32)
    ensures
        script_actions(final(v)@) == script_actions(old(v)@) + idle_actions(ds as nat),
{
    let step = ScriptStep::Idle { deciseconds: ds };
    let ghost pre = v@;
    proof {
        assert(step_actions(step) =~= idle_actions(ds as nat));
    }
    v.push(step);
    proof {
        lemma_script_actions_push(pre, step);
    }
}

/// The fixed load script as data, one timed step per UI transition.
pub fn load_script() -> (r: Vec<ScriptStep>)
    ensures
        script_actions(r@) == load_script_actions(),
{
    let mut v: Vec<ScriptStep> = Vec::new();
    push_hold2(&mut v, Key::Select, Key::Up, 1);
    proof {
        assert(script_actions(Seq::<ScriptStep>::empty()) + seq![
            Action::Press(Key::Select),
            Action::Press(Key::Up),
            Action::Run(ticks_of_deciseconds(1) as u64),
            Action::Release(Key::Select),
            Action::Release(Key::Up),
        ] =~= seq![
            Action::Press(Key::Select),
            Action::Press(Key::Up),
            Action::Run(ticks_of_deciseconds(1) as u64),
            Action::Release(Key::Select),
            Action::Release(Key::Up),
        ]);
    }
    push_idle(&mut v, 10);
    push_hold1(&mut v, Key::Down, 30);
    push_hold1(&mut v, Key::A, 1);
    push_idle(&mut v, 10);
    push_hold1(&mut v, Key::A, 1);
    push_hold1(&mut v, Key::Up, 50);
    push_idle(&mut v, 10);
    push_hold1(&mut v, Key::A, 1);
    push_idle(&mut v, 10);
    push_hold1(&mut v, Key::Left, 1);
    push_hold1(&mut v, Key::A, 1);
    push_idle(&mut v, 100);
    v
}

/// The whole run's command sequence: a boot wait, the load script exactly
/// once when the input was a compressed container — a raw save image
/// already has its song in working memory and bypasses the script entirely
/// — then the press that starts playback, then the recording wait.
pub open spec fn plan_actions(kind: SaveKind, length_seconds: nat) -> Seq<Action> {
    idle_actions(200) + (if kind == SaveKind::CompressedSong {
        load_script_actions()
    } else {
        Seq::<Action>::empty()
    }) + hold1_actions(Key::Start, 1) + idle_actions(10 * length_seconds)
}

/// The set of keys held down once a command sequence has been performed,
/// starting from the keys in `init` held.  Running the emulation changes
/// no key state; only the signals do.
pub open spec fn keys_down(init: Set<Key>, acts: Seq<Action>) -> Set<Key>
    decreases acts.len(),
{
    if acts.len() == 0 {
        init
    } else {
        let prev = keys_down(init, acts.drop_last());
        match acts.last() {
            Action::Press(k) => prev.insert(k),
            Action::Release(k) => prev.remove(k),
            Action::Run(_) => prev,
        }
    }
}

pub proof fn lemma_keys_down_concat(init: Set<Key>, a: Seq<Action>, b: Seq<Action>)
    ensures
        keys_down(init, a + b) == keys_down(keys_down(init, a), b),
    decreases b.len(),
{
    if b.len() == 0 {
        assert(a + b =~= a);
    } else {
        assert((a + b).drop_last() =~= a + b.drop_last());
        assert((a + b).last() == b.last());
        lemma_keys_down_concat(init, a, b.drop_last());
    }
}

proof fn lemma_contains_drop_last(keys: Seq<Key>, k: Key)
    requires
        keys.len() > 0,
    ensures
        keys.contains(k) == (keys.drop_last().contains(k) || keys.last() == k),
{
    if keys.drop_last().contains(k) {
        let i = choose|i: int| 0 <= i < keys.drop_last().len() && keys.drop_last()[i] == k;
        assert(keys[i] == k);
    }
    if keys.last() == k {
        assert(keys[keys.len() - 1] == k);
    }
    if keys.contains(k) {
        let i = choose|i: int| 0 <= i < keys.len() && keys[i] == k;
        if i < keys.len() - 1 {
            assert(keys.drop_last()[i] == k);
        }
    }
}

proof fn lemma_keys_down_presses(init: Set<Key>, keys: Seq<Key>, k: Key)
    ensures
        keys_down(init, presses(keys)).contains(k) == (init.contains(k) || keys.contains(k)),
    decreases keys.len(),
{
    if keys.len() == 0 {
        assert(presses(keys) =~= Seq::<Action>::empty());
        assert(!keys.contains(k));
    } else {
        assert(presses(keys).drop_last() =~= presses(keys.drop_last()));
        assert(presses(keys).last() == Action::Press(keys.last()));
        lemma_keys_down_presses(init, keys.drop_last(), k);
        lemma_contains_drop_last(keys, k);
    }
}

proof fn lemma_keys_down_releases(init: Set<Key>, keys: Seq<Key>, k: Key)
    ensures
        keys_down(init, releases(keys)).contains(k) == (init.contains(k) && !keys.contains(k)),
    decreases keys.len(),
{
    if keys.len() == 0 {
        assert(releases(keys) =~= Seq::<Action>::empty());
        assert(!keys.contains(k));
    } else {
        assert(releases(keys).drop_last() =~= releases(keys.drop_last()));
        assert(releases(keys).last() == Action::Release(keys.last()));
        lemma_keys_down_releases(init, keys.drop_last(), k);
        lemma_contains_drop_last(keys, k);
    }
}

/// While a hold's timed wait runs — after all its key-down signals and
/// before any of its key-up signals — exactly the held keys are down and
/// no other key is, and after its key-up signals no key is down at all,
/// provided no other hold overlaps (nothing else was down to begin with).
pub proof fn lemma_hold_key_state(keys: Seq<Key>, t: u64)
    ensures
        forall|k: Key| #[trigger]
            keys_down(Set::empty(), presses(keys)).contains(k) == keys.contains(k),
        keys_down(Set::empty(), presses(keys) + seq![Action::Run(t)]) == keys_down(
            Set::empty(),
            presses(keys),
        ),
        keys_down(Set::empty(), presses(keys) + seq![Action::Run(t)] + releases(keys))
            == Set::<Key>::empty(),
{
    assert forall|k: Key| #[trigger]
        keys_down(Set::<Key>::empty(), presses(keys)).contains(k) == keys.contains(k) by {
        lemma_keys_down_presses(Set::empty(), keys, k);
    }
    let mid = keys_down(Set::<Key>::empty(), presses(keys));
    lemma_keys_down_concat(Set::empty(), presses(keys), seq![Action::Run(t)]);
    assert(seq![Action::Run(t)].drop_last() =~= Seq::<Action>::empty());
    assert(keys_down(mid, Seq::<Action>::empty()) == mid);
    assert(seq![Action::Run(t)].last() == Action::Run(t));
    assert(keys_down(mid, seq![Action::Run(t)]) == mid);
    lemma_keys_down_concat(Set::empty(), presses(keys) + seq![Action::Run(t)], releases(keys));
    assert forall|k: Key| !(#[trigger] keys_down(mid, releases(keys)).contains(k)) by {
        lemma_keys_down_releases(mid, keys, k);
    }
    assert(keys_down(mid, releases(keys)) =~= Set::<Key>::empty());
}

/// A script's holds are balanced: once a whole script has run, every key
/// it pressed has been released again and none is left down.
pub proof fn lemma_script_leaves_no_key_down(s: Seq<ScriptStep>)
    ensures
        keys_down(Set::empty(), script_actions(s)) == Set::<Key>::empty(),
    decreases s.len(),
{
    if s.len() == 0 {
        assert(script_actions(s) == Seq::<Action>::empty());
    } else {
        lemma_keys_down_concat(Set::empty(), step_actions(s[0]), script_actions(s.skip(1)));
        match s[0] {
            ScriptStep::Hold { keys, deciseconds } => {
                lemma_hold_key_state(
                    keys@,
                    ticks_of_deciseconds(deciseconds as nat) as u64,
                );
            },
            ScriptStep::Idle { deciseconds } => {
                let t = ticks_of_deciseconds(deciseconds as nat) as u64;
                assert(seq![Action::Run(t)].drop_last() =~= Seq::<Action>::empty());
                assert(keys_down(Set::<Key>::empty(), Seq::<Action>::empty())
                    == Set::<Key>::empty());
                assert(keys_down(Set::<Key>::empty(), seq![Action::Run(t)])
                    == Set::<Key>::empty());
            },
        }
        lemma_script_leaves_no_key_down(s.skip(1));
    }
}

/// Build the run's script: boot wait, the load script if and only if the
/// input was a compressed container, the playback start press, and the
/// recording wait for the requested length.
pub fn plan(kind: &SaveKind, length_seconds: u32) -> (r: Vec<ScriptStep>)
    requires
        length_seconds <= 429496729,
    ensures
        script_actions(r@) == plan_actions(*kind, length_seconds as nat),
{
    let mut v: Vec<ScriptStep> = Vec::new();
    push_idle(&mut v, 200);
    proof {
        assert(script_actions(Seq::<ScriptStep>::empty()) + idle_actions(200) =~= idle_actions(
            200,
        ));
    }
    if let SaveKind::CompressedSong = kind {
        let mut script = load_script();
        let ghost pre = v@;
        let ghost scr = script@;
        v.append(&mut script);
        proof {
            lemma_script_actions_concat(pre, scr);
        }
    } else {
        proof {
            assert(idle_actions(200) + Seq::<Action>::empty() =~= idle_actions(200));
        }
    }
    push_hold1(&mut v, Key::Start, 1);
    push_idle(&mut v, length_seconds * 10);
    v
}

/// A raw save image bypasses the load script entirely — its plan issues
/// nothing besides the boot wait, the playback press and the recording
/// wait — while a compressed container's plan performs the full load
/// script exactly once, between the boot wait and the playback press.
pub proof fn lemma_script_iff_compressed(kind: SaveKind, length_seconds: nat)
    ensures
        kind == SaveKind::RawSave ==> plan_actions(kind, length_seconds) == idle_actions(200)
            + hold1_actions(Key::Start, 1) + idle_actions(10 * length_seconds),
        kind == SaveKind::CompressedSong ==> plan_actions(kind, length_seconds) == idle_actions(200)
            + load_script_actions() + hold1_actions(Key::Start, 1) + idle_actions(
            10 * length_seconds,
        ),
{
    if kind == SaveKind::RawSave {
        assert(idle_actions(200) + Seq::<Action>::empty() =~= idle_actions(200));
    }
}

/// A plan ends with the recording wait, and that wait targets exactly the
/// clock rate times the recording length: one second of recording is one
/// full CYCLES_PER_SECOND of emulation advance, overshot — if at all — by
/// less than one step (clock::lemma_bounded_overshoot).
pub proof fn lemma_recording_target(kind: SaveKind, length_seconds: nat)
    ensures
        plan_actions(kind, length_seconds).last() == Action::Run(
            (length_seconds * (crate::clock::CYCLES_PER_SECOND as nat)) as u64,
        ),
{
    crate::clock::lemma_whole_seconds_exact(length_seconds);
    let head = idle_actions(200) + (if kind == SaveKind::CompressedSong {
        load_script_actions()
    } else {
        Seq::<Action>::empty()
    }) + hold1_actions(Key::Start, 1);
    let tail = idle_actions(10 * length_seconds);
    assert(plan_actions(kind, length_seconds) == head + tail);
    assert((head + tail).last() == tail.last());
}

} // verus!
