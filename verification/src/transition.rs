//! The counter: it starts at zero and advances by one, from the last position
//! back to zero.

use vstd::prelude::*;
use crate::error::Error;
use crate::record::{Record, TIME_INDEX_CELL_DATA_N};

verus! {

/// The position that follows `index` in the cycle.
pub open spec fn successor(index: int) -> int {
    (index + 1) % (TIME_INDEX_CELL_DATA_N as int)
}

/// A record may be created only at position zero.
pub open spec fn creation_rule(output: Record) -> Result<(), Error> {
    if output.index == 0 {
        Ok(())
    } else {
        Err(Error::InvalidTransition)
    }
}

/// A record may be updated only to the position that follows its own.
pub open spec fn update_rule(input: Record, output: Record) -> Result<(), Error> {
    if output.index == successor(input.index as int) {
        Ok(())
    } else {
        Err(Error::InvalidTransition)
    }
}

/// The position that follows `index` in the cycle.
pub fn next_index(index: u8) -> (next: u8)
    requires
        index < TIME_INDEX_CELL_DATA_N,
    ensures
        next == successor(index as int),
        next < TIME_INDEX_CELL_DATA_N,
{
    if index == TIME_INDEX_CELL_DATA_N - 1 {
        0
    } else {
        index + 1
    }
}

/// Decides whether a record may be created in the state `output`.
pub fn check_create(output: &Record) -> (verdict: Result<(), Error>)
    ensures
        verdict == creation_rule(*output),
{
    if output.index != 0 {
        return Err(Error::InvalidTransition);
    }
    Ok(())
}

/// Decides whether a record in the state `input` may go over to `output`.
pub fn check_update(input: &Record, output: &Record) -> (verdict: Result<(), Error>)
    requires
        input.wf(),
    ensures
        verdict == update_rule(*input, *output),
{
    if output.index != next_index(input.index) {
        return Err(Error::InvalidTransition);
    }
    Ok(())
}

/// Away from the last position the counter goes up by one; at the last
/// position it goes back to zero.
pub proof fn lemma_successor_cases(index: int)
    requires
        0 <= index < TIME_INDEX_CELL_DATA_N,
    ensures
        index != TIME_INDEX_CELL_DATA_N - 1 ==> successor(index) == index + 1,
        index == TIME_INDEX_CELL_DATA_N - 1 ==> successor(index) == 0,
        0 <= successor(index) < TIME_INDEX_CELL_DATA_N,
{
}

/// From the last position the only way on is to zero: a step to any other
/// position, the one after zero among them, is an invalid transition.
pub proof fn lemma_wrap_around(input: Record, output: Record)
    requires
        input.wf(),
        input.index == TIME_INDEX_CELL_DATA_N - 1,
    ensures
        update_rule(input, output) is Ok <==> output.index == 0,
        output.index != 0 ==> update_rule(input, output) == Err::<(), Error>(
            Error::InvalidTransition,
        ),
{
}

/// No state is the last: from every well-formed record the update rule
/// accepts a well-formed next one.
pub proof fn lemma_no_terminal_state(input: Record)
    requires
        input.wf(),
    ensures
        exists|output: Record| output.wf() && #[trigger] update_rule(input, output) is Ok,
{
    let output = Record {
        index: successor(input.index as int) as u8,
        modulus: TIME_INDEX_CELL_DATA_N,
    };
    assert(output.wf() && update_rule(input, output) is Ok);
}

/// The position reached from `index` after `n` updates.
pub open spec fn steps(index: int, n: nat) -> int
    decreases n,
{
    if n == 0 {
        index
    } else {
        successor(steps(index, (n - 1) as nat))
    }
}

/// After `n` updates the counter stands `n` positions further on in the
/// cycle.
pub proof fn lemma_steps(index: int, n: nat)
    requires
        0 <= index < TIME_INDEX_CELL_DATA_N,
    ensures
        steps(index, n) == (index + n) % (TIME_INDEX_CELL_DATA_N as int),
    decreases n,
{
    if n > 0 {
        lemma_steps(index, (n - 1) as nat);
    }
}

/// The update rule never takes a well-formed record to itself, and it takes
/// it back to where it began after as many steps as the cycle has positions
/// and not before.
pub proof fn lemma_cycle(start: Record)
    requires
        start.wf(),
    ensures
        update_rule(start, start) is Err,
        steps(start.index as int, TIME_INDEX_CELL_DATA_N as nat) == start.index,
        forall|n: nat|
            0 < n < TIME_INDEX_CELL_DATA_N ==> #[trigger] steps(start.index as int, n)
                != start.index,
{
    assert forall|n: nat| n <= TIME_INDEX_CELL_DATA_N implies #[trigger] steps(
        start.index as int,
        n,
    ) == (start.index + n) % (TIME_INDEX_CELL_DATA_N as int) by {
        lemma_steps(start.index as int, n);
    }
}

} // verus!
