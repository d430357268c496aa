//! The commit sequence: what is driven, on which line, in which order.

use vstd::prelude::*;
use crate::line::{Call, Line, LineOp};

verus! {

/// The commit sequence for a pattern: the latch is opened, then every bit is
/// put on the data line and clocked in, from the last position down to
/// position 0, then the latch is closed. With `inverted` set, the latch and
/// data levels are flipped; the clock always pulses high, then low.
pub open spec fn commit_ops(pattern: Seq<bool>, inverted: bool) -> Seq<LineOp> {
    Seq::new(
        3 * pattern.len() + 2,
        |k: int|
            if k == 0 {
                LineOp { line: Line::Latch, high: inverted }
            } else if k == 3 * pattern.len() + 1 {
                LineOp { line: Line::Latch, high: !inverted }
            } else if (k - 1) % 3 == 0 {
                LineOp { line: Line::Data, high: pattern[pattern.len() - 1 - (k - 1) / 3] != inverted }
            } else {
                LineOp { line: Line::Clock, high: (k - 1) % 3 == 1 }
            },
    )
}

/// The calls of a commit that got as far as its first `made` steps: each
/// step of `ops` in order, every one a success but the last, which ended as
/// `last_ok` says.
pub open spec fn calls_made(ops: Seq<LineOp>, made: nat, last_ok: bool) -> Seq<Call> {
    Seq::new(
        made,
        |k: int| Call { line: ops[k].line, high: ops[k].high, ok: k + 1 < made || last_ok },
    )
}

/// The levels that the first `steps` steps of `ops` ask of `line`, in order.
pub open spec fn levels_on(ops: Seq<LineOp>, line: Line, steps: nat) -> Seq<bool>
    decreases steps,
{
    if steps == 0 {
        Seq::empty()
    } else {
        let earlier = levels_on(ops, line, (steps - 1) as nat);
        if ops[steps - 1].line == line {
            earlier.push(ops[steps - 1].high)
        } else {
            earlier
        }
    }
}

/// The step of the commit sequence at which the level of the output at
/// `position` is put on the data line, in a register of `width` outputs.
pub open spec fn data_step(width: nat, position: int) -> int {
    1 + 3 * (width - 1 - position)
}

/// Every output has its step: there its level goes onto the data line,
/// flipped if the register is inverted, and the two steps after it pulse the
/// clock high and then low.
pub proof fn lemma_data_then_pulse(pattern: Seq<bool>, inverted: bool, position: int)
    requires
        0 <= position < pattern.len(),
    ensures
        ({
            let ops = commit_ops(pattern, inverted);
            let step = data_step(pattern.len(), position);
            &&& 1 <= step
            &&& step + 2 < ops.len() - 1
            &&& ops[step] == (LineOp { line: Line::Data, high: pattern[position] != inverted })
            &&& ops[step + 1] == (LineOp { line: Line::Clock, high: true })
            &&& ops[step + 2] == (LineOp { line: Line::Clock, high: false })
        }),
{
}

/// Setting an output that is low to high and then to low again leaves the
/// pattern as it was, and with it the commit sequence.
pub proof fn lemma_round_trip(pattern: Seq<bool>, index: int, inverted: bool)
    requires
        0 <= index < pattern.len(),
        !pattern[index],
    ensures
        pattern.update(index, true).update(index, false) == pattern,
        commit_ops(pattern.update(index, true).update(index, false), inverted) == commit_ops(
            pattern,
            inverted,
        ),
{
    assert(pattern.update(index, true).update(index, false) =~= pattern);
}

/// Setting one output twice changes no other output: the commit sequence of
/// the second setting puts every other output's level on the data line as
/// the pattern had it before both.
pub proof fn lemma_other_outputs_kept(
    pattern: Seq<bool>,
    index: int,
    first: bool,
    second: bool,
    inverted: bool,
    other: int,
)
    requires
        0 <= index < pattern.len(),
        0 <= other < pattern.len(),
        other != index,
    ensures
        ({
            let twice = pattern.update(index, first).update(index, second);
            let step = data_step(pattern.len(), other);
            &&& twice == pattern.update(index, second)
            &&& twice[other] == pattern[other]
            &&& commit_ops(twice, inverted)[step] == commit_ops(pattern, inverted)[step]
            &&& commit_ops(twice, inverted)[step] == (LineOp {
                line: Line::Data,
                high: pattern[other] != inverted,
            })
        }),
{
    let twice = pattern.update(index, first).update(index, second);
    assert(twice =~= pattern.update(index, second));
    lemma_data_then_pulse(twice, inverted, other);
    lemma_data_then_pulse(pattern, inverted, other);
}

/// What has been asked of the lines once the latch is open and the `shifted`
/// highest outputs are clocked in: one pulse for each of them, and their
/// levels on the data line from the last position down.
pub proof fn lemma_shifted(pattern: Seq<bool>, inverted: bool, shifted: nat)
    requires
        shifted <= pattern.len(),
    ensures
        ({
            let ops = commit_ops(pattern, inverted);
            let steps = 1 + 3 * shifted;
            &&& levels_on(ops, Line::Latch, steps) == seq![inverted]
            &&& levels_on(ops, Line::Clock, steps) == Seq::new(2 * shifted, |k: int| k % 2 == 0)
            &&& levels_on(ops, Line::Data, steps) == Seq::new(
                shifted,
                |k: int| pattern[pattern.len() - 1 - k] != inverted,
            )
        }),
    decreases shifted,
{
    let ops = commit_ops(pattern, inverted);
    let steps = 1 + 3 * shifted;
    if shifted == 0 {
        reveal_with_fuel(levels_on, 2);
    } else {
        lemma_shifted(pattern, inverted, (shifted - 1) as nat);
        lemma_data_then_pulse(pattern, inverted, pattern.len() - shifted);
        reveal_with_fuel(levels_on, 4);
    }
    assert(levels_on(ops, Line::Latch, steps) =~= seq![inverted]);
    assert(levels_on(ops, Line::Clock, steps) =~= Seq::new(2 * shifted, |k: int| k % 2 == 0));
    assert(levels_on(ops, Line::Data, steps) =~= Seq::new(
        shifted,
        |k: int| pattern[pattern.len() - 1 - k] != inverted,
    ));
}

/// A commit sequence has three steps for each output and two for the latch.
/// Made to its end, it pulses the clock once for each output, high and then
/// low, opens the latch once and closes it once, and puts the levels of all
/// outputs on the data line, the last position first.
pub proof fn lemma_complete_commit(pattern: Seq<bool>, inverted: bool)
    ensures
        ({
            let ops = commit_ops(pattern, inverted);
            &&& ops.len() == 3 * pattern.len() + 2
            &&& levels_on(ops, Line::Latch, ops.len()) == seq![inverted, !inverted]
            &&& levels_on(ops, Line::Clock, ops.len()) == Seq::new(
                2 * pattern.len(),
                |k: int| k % 2 == 0,
            )
            &&& levels_on(ops, Line::Data, ops.len()) == Seq::new(
                pattern.len(),
                |k: int| pattern[pattern.len() - 1 - k] != inverted,
            )
        }),
{
    let ops = commit_ops(pattern, inverted);
    lemma_shifted(pattern, inverted, pattern.len());
    assert(levels_on(ops, Line::Latch, ops.len()) =~= seq![inverted, !inverted]);
}

/// With only output 0 high, on a register that is not inverted, the data
/// line is driven low for every pulse but the last and high for the last.
pub proof fn lemma_first_output_is_shifted_last(pattern: Seq<bool>)
    requires
        pattern.len() >= 1,
        pattern[0],
        forall|j: int| 1 <= j < pattern.len() ==> !pattern[j],
    ensures
        ({
            let ops = commit_ops(pattern, false);
            levels_on(ops, Line::Data, ops.len()) == Seq::new(
                pattern.len(),
                |k: int| k == pattern.len() - 1,
            )
        }),
{
    let ops = commit_ops(pattern, false);
    lemma_complete_commit(pattern, false);
    assert(levels_on(ops, Line::Data, ops.len()) =~= Seq::new(
        pattern.len(),
        |k: int| k == pattern.len() - 1,
    ));
}

/// Inverting a register flips the level of every step on the latch and on
/// the data line, and leaves each step on its line.
pub proof fn lemma_inverted_flips_levels(pattern: Seq<bool>, step: int)
    requires
        0 <= step < commit_ops(pattern, false).len(),
        commit_ops(pattern, false)[step].line != Line::Clock,
    ensures
        commit_ops(pattern, true).len() == commit_ops(pattern, false).len(),
        commit_ops(pattern, true)[step].line == commit_ops(pattern, false)[step].line,
        commit_ops(pattern, true)[step].high == !commit_ops(pattern, false)[step].high,
{
}

/// Inverting a register changes nothing on the clock: it pulses high, then
/// low, at the same steps.
pub proof fn lemma_inverted_keeps_clock(pattern: Seq<bool>, step: int)
    requires
        0 <= step < commit_ops(pattern, false).len(),
        commit_ops(pattern, false)[step].line == Line::Clock,
    ensures
        commit_ops(pattern, true)[step] == commit_ops(pattern, false)[step],
{
}

/// A call that failed is the last call made: where a commit holds a failed
/// call, the commit ended in failure and no call follows the failed one.
pub proof fn lemma_failure_is_last_call(ops: Seq<LineOp>, made: nat, last_ok: bool, entry: int)
    requires
        0 <= entry < made,
        !calls_made(ops, made, last_ok)[entry].ok,
    ensures
        !last_ok,
        calls_made(ops, made, last_ok).len() == made,
        entry == made - 1,
{
}

} // verus!
