//! Lamps of the traffic lights, the writes that drive them, and the lamp
//! states a sequence of writes passes through. The lamps are wired
//! active-low: a lamp is lit while its pin is low.
use vstd::prelude::*;
use crate::Level;

verus! {

/// One lamp of a traffic light (blue is the pedestrian lamp).
#[derive(Clone, Copy, Debug, PartialEq, Eq, Structural)]
pub enum Lamp {
    Red,
    Yellow,
    Green,
    Blue,
}

/// One write to a lamp's pin: drive it to a level, or toggle it.
#[derive(Clone, Copy, Debug, PartialEq, Eq, Structural)]
pub enum LampWrite {
    Drive(Lamp, Level),
    Toggle(Lamp),
}

/// The levels of the red, yellow and green lamps.
pub struct LampState {
    pub red: Level,
    pub yellow: Level,
    pub green: Level,
}

/// The other level.
pub open spec fn flip(level: Level) -> Level {
    if level == Level::Low { Level::High } else { Level::Low }
}

/// The level a write leaves a lamp at, given its level before.
pub open spec fn written_level(before: Level, lamp: Lamp, w: LampWrite) -> Level {
    match w {
        LampWrite::Drive(l, level) => if l == lamp { level } else { before },
        LampWrite::Toggle(l) => if l == lamp { flip(before) } else { before },
    }
}

/// The lamp state after one write.
pub open spec fn apply_write(s: LampState, w: LampWrite) -> LampState {
    LampState {
        red: written_level(s.red, Lamp::Red, w),
        yellow: written_level(s.yellow, Lamp::Yellow, w),
        green: written_level(s.green, Lamp::Green, w),
    }
}

/// The lamp state after a sequence of writes, in order.
pub open spec fn run_writes(s: LampState, writes: Seq<LampWrite>) -> LampState
    decreases writes.len(),
{
    if writes.len() == 0 {
        s
    } else {
        apply_write(run_writes(s, writes.drop_last()), writes.last())
    }
}

/// `1` for a lit lamp (its pin low), `0` for a dark one.
pub open spec fn lit(level: Level) -> int {
    if level == Level::Low { 1 } else { 0 }
}

/// How many of the red, yellow and green lamps are lit.
pub open spec fn lit_lamps(s: LampState) -> int {
    lit(s.red) + lit(s.yellow) + lit(s.green)
}

/// At most one lamp is lit in the state `s` and in every state that the
/// writes pass through from `s`.
pub open spec fn one_lit_throughout(s: LampState, writes: Seq<LampWrite>) -> bool
    decreases writes.len(),
{
    if writes.len() == 0 {
        lit_lamps(s) <= 1
    } else {
        one_lit_throughout(s, writes.drop_last()) && lit_lamps(run_writes(s, writes)) <= 1
    }
}

pub broadcast proof fn lemma_run_push(s: LampState, writes: Seq<LampWrite>, w: LampWrite)
    ensures
        #[trigger] run_writes(s, writes.push(w)) == apply_write(run_writes(s, writes), w),
{
    assert(writes.push(w).drop_last() =~= writes);
}

pub broadcast proof fn lemma_one_lit_push(s: LampState, writes: Seq<LampWrite>, w: LampWrite)
    ensures
        #[trigger] one_lit_throughout(s, writes.push(w)) == (one_lit_throughout(s, writes)
            && lit_lamps(apply_write(run_writes(s, writes), w)) <= 1),
{
    assert(writes.push(w).drop_last() =~= writes);
    lemma_run_push(s, writes, w);
}

pub broadcast group group_lamp_runs {
    lemma_run_push,
    lemma_one_lit_push,
}

/// The states that one to four writes pass through.
pub proof fn lemma_short_runs(s: LampState, a: LampWrite, b: LampWrite, c: LampWrite, d: LampWrite)
    ensures
        ({
            let s1 = apply_write(s, a);
            let s2 = apply_write(s1, b);
            let s3 = apply_write(s2, c);
            let s4 = apply_write(s3, d);
            &&& one_lit_throughout(s, Seq::<LampWrite>::empty()) == (lit_lamps(s) <= 1)
            &&& run_writes(s, Seq::<LampWrite>::empty()) == s
            &&& one_lit_throughout(s, seq![a]) == (lit_lamps(s) <= 1 && lit_lamps(s1) <= 1)
            &&& run_writes(s, seq![a]) == s1
            &&& one_lit_throughout(s, seq![a, b]) == (lit_lamps(s) <= 1 && lit_lamps(s1) <= 1
                && lit_lamps(s2) <= 1)
            &&& run_writes(s, seq![a, b]) == s2
            &&& one_lit_throughout(s, seq![a, b, c]) == (lit_lamps(s) <= 1 && lit_lamps(s1) <= 1
                && lit_lamps(s2) <= 1 && lit_lamps(s3) <= 1)
            &&& run_writes(s, seq![a, b, c]) == s3
            &&& one_lit_throughout(s, seq![a, b, c, d]) == (lit_lamps(s) <= 1 && lit_lamps(s1)
                <= 1 && lit_lamps(s2) <= 1 && lit_lamps(s3) <= 1 && lit_lamps(s4) <= 1)
            &&& run_writes(s, seq![a, b, c, d]) == s4
        }),
{
    broadcast use group_lamp_runs;

    let w0 = Seq::<LampWrite>::empty();
    let w1 = w0.push(a);
    let w2 = w1.push(b);
    let w3 = w2.push(c);
    let w4 = w3.push(d);
    assert(seq![a] =~= w1);
    assert(seq![a, b] =~= w2);
    assert(seq![a, b, c] =~= w3);
    assert(seq![a, b, c, d] =~= w4);
    assert(one_lit_throughout(s, w1) == (lit_lamps(s) <= 1 && lit_lamps(apply_write(s, a)) <= 1));
    assert(one_lit_throughout(s, w2) == (one_lit_throughout(s, w1) && lit_lamps(
        apply_write(run_writes(s, w1), b),
    ) <= 1));
    assert(one_lit_throughout(s, w3) == (one_lit_throughout(s, w2) && lit_lamps(
        apply_write(run_writes(s, w2), c),
    ) <= 1));
    assert(one_lit_throughout(s, w4) == (one_lit_throughout(s, w3) && lit_lamps(
        apply_write(run_writes(s, w3), d),
    ) <= 1));
}

pub proof fn lemma_run_concat(s: LampState, a: Seq<LampWrite>, b: Seq<LampWrite>)
    ensures
        run_writes(s, a + b) == run_writes(run_writes(s, a), b),
        one_lit_throughout(s, a + b) == (one_lit_throughout(s, a) && one_lit_throughout(
            run_writes(s, a),
            b,
        )),
    decreases b.len(),
{
    if b.len() == 0 {
        assert(a + b =~= a);
        lemma_one_lit_final(s, a);
    } else {
        assert((a + b).drop_last() =~= a + b.drop_last());
        lemma_run_concat(s, a, b.drop_last());
    }
}

pub proof fn lemma_one_lit_final(s: LampState, writes: Seq<LampWrite>)
    ensures
        one_lit_throughout(s, writes) ==> lit_lamps(run_writes(s, writes)) <= 1,
{
}

} // verus!
