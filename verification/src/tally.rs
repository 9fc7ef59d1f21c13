//! The vote tally record and the opcode-selected mutations on it.

use vstd::prelude::*;

verus! {

/// A three-way vote tally: the record that a vote account's data encodes.
#[derive(Clone, Copy, Debug, PartialEq, Eq, Structural)]
pub struct VoteAccount {
    pub yes: u32,
    pub abstained: u32,
    pub no: u32,
}

/// The mutation that an instruction's opcode byte selects.
#[derive(Clone, Copy, Debug, PartialEq, Eq, Structural)]
pub enum MutationAction {
    IncrementYes,
    IncrementAbstained,
    IncrementNo,
    Unrecognized,
}

/// Which mutation an opcode byte selects: 0, 1 and 2 pick the three
/// counters in declared order; every other byte is unrecognized.
pub open spec fn dispatch_spec(opcode: u8) -> MutationAction {
    if opcode == 0 {
        MutationAction::IncrementYes
    } else if opcode == 1 {
        MutationAction::IncrementAbstained
    } else if opcode == 2 {
        MutationAction::IncrementNo
    } else {
        MutationAction::Unrecognized
    }
}

/// One counter step. The counters saturate at `u32::MAX`: an increment at
/// the maximum leaves the counter there rather than wrapping or failing.
pub open spec fn saturating_inc(v: u32) -> u32 {
    if v < u32::MAX {
        (v + 1) as u32
    } else {
        u32::MAX
    }
}

/// The tally after one mutation: exactly one counter stepped, or, for an
/// unrecognized opcode, the tally unchanged.
pub open spec fn apply_spec(t: VoteAccount, action: MutationAction) -> VoteAccount {
    match action {
        MutationAction::IncrementYes => VoteAccount {
            yes: saturating_inc(t.yes),
            abstained: t.abstained,
            no: t.no,
        },
        MutationAction::IncrementAbstained => VoteAccount {
            yes: t.yes,
            abstained: saturating_inc(t.abstained),
            no: t.no,
        },
        MutationAction::IncrementNo => VoteAccount {
            yes: t.yes,
            abstained: t.abstained,
            no: saturating_inc(t.no),
        },
        MutationAction::Unrecognized => t,
    }
}

/// Maps an opcode byte to its mutation by exact match on 0, 1 and 2, with
/// an explicit arm for everything else.
pub fn dispatch(opcode: u8) -> (action: MutationAction)
    ensures
        action == dispatch_spec(opcode),
{
    match opcode {
        0 => MutationAction::IncrementYes,
        1 => MutationAction::IncrementAbstained,
        2 => MutationAction::IncrementNo,
        _ => MutationAction::Unrecognized,
    }
}

/// Applies one mutation to the tally in place.
pub fn apply(tally: &mut VoteAccount, action: MutationAction)
    ensures
        *final(tally) == apply_spec(*old(tally), action),
{
    match action {
        MutationAction::IncrementYes => {
            tally.yes = tally.yes.saturating_add(1);
        },
        MutationAction::IncrementAbstained => {
            tally.abstained = tally.abstained.saturating_add(1);
        },
        MutationAction::IncrementNo => {
            tally.no = tally.no.saturating_add(1);
        },
        MutationAction::Unrecognized => {},
    }
}

/// Applying two mutations in either order yields the same tally: each
/// mutation touches at most one counter, so distinct counters never
/// interfere, and two steps of one counter agree whichever goes first.
pub proof fn lemma_apply_order_independent(t: VoteAccount, a: MutationAction, b: MutationAction)
    ensures
        apply_spec(apply_spec(t, a), b) == apply_spec(apply_spec(t, b), a),
{
}

/// An unrecognized opcode is a no-op: applying its action returns the
/// tally unchanged.
pub proof fn lemma_unknown_opcode_noop(t: VoteAccount, opcode: u8)
    requires
        opcode != 0,
        opcode != 1,
        opcode != 2,
    ensures
        apply_spec(t, dispatch_spec(opcode)) == t,
{
}

} // verus!
