//! The state transition that one invocation performs: validate the
//! caller, decode the stored tally, apply the opcode's mutation, and
//! encode the result back into the same buffer.

use vstd::prelude::*;
use crate::codec::{decode, decoded, encode, encoding, lemma_encoding_of_decoded, DecodeError,
    EncodeError, TALLY_LEN};
use crate::identity::{owns, validate, Identity, OwnershipError};
use crate::tally::{apply, apply_spec, dispatch, dispatch_spec, MutationAction, VoteAccount};

verus! {

/// One ledger account as the host hands it over: the durable data buffer
/// and the account's declared owner identity.
pub struct Account {
    pub owner: Identity,
    pub data: Vec<u8>,
}

/// Why an invocation failed. Every failure is fatal and leaves the
/// account's data byte for byte as it was; an unrecognized opcode is not
/// a failure at all.
#[derive(Clone, Copy, Debug, PartialEq, Eq, Structural)]
pub enum TransitionError {
    /// The payload holds no opcode byte.
    EmptyInstruction,
    /// The account's declared owner is not the caller.
    Unauthorized,
    /// The account's data could not be read as a tally.
    Decode(DecodeError),
    /// The mutated tally could not be written back.
    Encode(EncodeError),
}

/// The tally an invocation leaves behind: the stored tally with the
/// payload's opcode applied.
pub open spec fn next_tally(data: Seq<u8>, payload: Seq<u8>) -> VoteAccount
    recommends
        data.len() == TALLY_LEN,
        payload.len() > 0,
{
    apply_spec(decoded(data), dispatch_spec(payload[0]))
}

/// Runs one invocation against one account: ownership gate first, then
/// decode, one mutation, and encode into the same buffer. Returns the
/// post-mutation tally; on any failure the buffer is left unchanged, and
/// the owner identity is never touched.
pub fn process_instruction(
    account: &mut Account,
    caller_identity: &Identity,
    instruction_data: &[u8],
) -> (r: Result<VoteAccount, TransitionError>)
    ensures
        final(account).owner == old(account).owner,
        instruction_data@.len() == 0 ==> {
            &&& r == Err::<VoteAccount, TransitionError>(TransitionError::EmptyInstruction)
            &&& final(account).data@ == old(account).data@
        },
        instruction_data@.len() > 0 && !owns(old(account).owner, *caller_identity) ==> {
            &&& r == Err::<VoteAccount, TransitionError>(TransitionError::Unauthorized)
            &&& final(account).data@ == old(account).data@
        },
        instruction_data@.len() > 0 && owns(old(account).owner, *caller_identity) && old(
            account,
        ).data@.len() != TALLY_LEN ==> {
            &&& r == Err::<VoteAccount, TransitionError>(
                TransitionError::Decode(DecodeError::BadLength),
            )
            &&& final(account).data@ == old(account).data@
        },
        instruction_data@.len() > 0 && owns(old(account).owner, *caller_identity) && old(
            account,
        ).data@.len() == TALLY_LEN ==> {
            &&& r == Ok::<VoteAccount, TransitionError>(
                next_tally(old(account).data@, instruction_data@),
            )
            &&& final(account).data@ == encoding(
                next_tally(old(account).data@, instruction_data@),
            )
        },
        instruction_data@.len() > 0 && owns(old(account).owner, *caller_identity) && old(
            account,
        ).data@.len() == TALLY_LEN && dispatch_spec(instruction_data@[0])
            == MutationAction::Unrecognized ==> final(account).data@ == old(account).data@,
{
    if instruction_data.len() == 0 {
        return Err(TransitionError::EmptyInstruction);
    }
    match validate(&account.owner, caller_identity) {
        Ok(()) => (),
        Err(OwnershipError::NotOwner) => {
            return Err(TransitionError::Unauthorized);
        },
    }
    let mut tally = match decode(account.data.as_slice()) {
        Ok(t) => t,
        Err(e) => {
            return Err(TransitionError::Decode(e));
        },
    };
    let opcode = instruction_data[0];
    let action = dispatch(opcode);
    apply(&mut tally, action);
    match encode(&tally, &mut account.data) {
        Ok(()) => (),
        Err(e) => {
            return Err(TransitionError::Encode(e));
        },
    }
    proof {
        assert(account.data@ =~= encoding(tally));
        if dispatch_spec(opcode) == MutationAction::Unrecognized {
            lemma_encoding_of_decoded(old(account).data@);
        }
    }
    Ok(tally)
}

} // verus!
