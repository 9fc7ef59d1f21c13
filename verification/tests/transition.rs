use vote_tally::codec::{decode, DecodeError};
use vote_tally::identity::{validate, Identity, OwnershipError};
use vote_tally::tally::{apply, dispatch, MutationAction, VoteAccount};
use vote_tally::transition::{process_instruction, Account, TransitionError};

fn zero_tally_account() -> Account {
    Account {
        owner: Identity::default(),
        data: vec![0u8; 12],
    }
}

#[test]
fn test_sanity() {
    let caller_identity = Identity::default();
    let mut account = zero_tally_account();

    assert_eq!(decode(&account.data).unwrap().yes, 0);

    process_instruction(&mut account, &caller_identity, &[0]).unwrap();
    assert_eq!(decode(&account.data).unwrap().yes, 1);

    process_instruction(&mut account, &caller_identity, &[1]).unwrap();
    assert_eq!(decode(&account.data).unwrap().abstained, 1);

    process_instruction(&mut account, &caller_identity, &[2]).unwrap();
    assert_eq!(decode(&account.data).unwrap().no, 1);
}

#[test]
fn end_to_end_scenario() {
    let caller = Identity::default();
    let mut account = zero_tally_account();

    let t = process_instruction(&mut account, &caller, &[0]).unwrap();
    assert_eq!(
        t,
        VoteAccount {
            yes: 1,
            abstained: 0,
            no: 0
        }
    );
    assert_eq!(decode(&account.data).unwrap(), t);

    let t = process_instruction(&mut account, &caller, &[1]).unwrap();
    assert_eq!(
        t,
        VoteAccount {
            yes: 1,
            abstained: 1,
            no: 0
        }
    );
    assert_eq!(decode(&account.data).unwrap(), t);

    let t = process_instruction(&mut account, &caller, &[2]).unwrap();
    assert_eq!(
        t,
        VoteAccount {
            yes: 1,
            abstained: 1,
            no: 1
        }
    );
    assert_eq!(decode(&account.data).unwrap(), t);
}

#[test]
fn single_increment_from_zero() {
    for (opcode, expected) in [
        (0u8, (1u32, 0u32, 0u32)),
        (1u8, (0, 1, 0)),
        (2u8, (0, 0, 1)),
    ] {
        let caller = Identity::default();
        let mut account = zero_tally_account();
        let t = process_instruction(&mut account, &caller, &[opcode]).unwrap();
        assert_eq!((t.yes, t.abstained, t.no), expected);
    }
}

#[test]
fn opcode_order_does_not_matter() {
    let caller = Identity::default();

    let mut forward = zero_tally_account();
    for opcode in [0u8, 1, 2] {
        process_instruction(&mut forward, &caller, &[opcode]).unwrap();
    }

    let mut backward = zero_tally_account();
    for opcode in [2u8, 1, 0] {
        process_instruction(&mut backward, &caller, &[opcode]).unwrap();
    }

    assert_eq!(forward.data, backward.data);
    let t = decode(&forward.data).unwrap();
    assert_eq!((t.yes, t.abstained, t.no), (1, 1, 1));
}

#[test]
fn unknown_opcode_is_a_noop() {
    let caller = Identity::default();
    for opcode in [3u8, 4, 9, 200, 255] {
        let mut account = Account {
            owner: Identity::default(),
            data: vec![1u8, 0, 0, 0, 2, 0, 0, 0, 3, 0, 0, 0],
        };
        let before = account.data.clone();
        let t = process_instruction(&mut account, &caller, &[opcode]).unwrap();
        assert_eq!(account.data, before);
        assert_eq!((t.yes, t.abstained, t.no), (1, 2, 3));
    }
}

#[test]
fn dispatch_maps_opcodes_exactly() {
    assert_eq!(dispatch(0), MutationAction::IncrementYes);
    assert_eq!(dispatch(1), MutationAction::IncrementAbstained);
    assert_eq!(dispatch(2), MutationAction::IncrementNo);
    assert_eq!(dispatch(3), MutationAction::Unrecognized);
    assert_eq!(dispatch(255), MutationAction::Unrecognized);
}

// The declared overflow policy: counters saturate at the maximum instead
// of wrapping or failing.
#[test]
fn increment_saturates_at_max() {
    let mut t = VoteAccount {
        yes: u32::MAX,
        abstained: 5,
        no: 0,
    };
    apply(&mut t, MutationAction::IncrementYes);
    assert_eq!(t.yes, u32::MAX);
    apply(&mut t, MutationAction::IncrementAbstained);
    assert_eq!(t.abstained, 6);
}

#[test]
fn empty_payload_is_rejected() {
    let caller = Identity::default();
    let mut account = zero_tally_account();
    let r = process_instruction(&mut account, &caller, &[]);
    assert_eq!(r, Err(TransitionError::EmptyInstruction));
    assert_eq!(account.data, vec![0u8; 12]);
}

#[test]
fn wrong_owner_is_rejected() {
    let caller = Identity::default();
    let mut account = Account {
        owner: Identity {
            bytes: vec![7u8; 32],
        },
        data: vec![0u8; 12],
    };
    let r = process_instruction(&mut account, &caller, &[0]);
    assert_eq!(r, Err(TransitionError::Unauthorized));
    assert_eq!(account.data, vec![0u8; 12]);
}

#[test]
fn wrong_owner_is_rejected_even_for_unknown_opcode() {
    let caller = Identity::default();
    let mut account = Account {
        owner: Identity {
            bytes: vec![7u8; 32],
        },
        data: vec![0u8; 12],
    };
    let r = process_instruction(&mut account, &caller, &[99]);
    assert_eq!(r, Err(TransitionError::Unauthorized));
}

#[test]
fn bad_buffer_length_is_rejected() {
    let caller = Identity::default();
    for len in [0usize, 11, 13] {
        let mut account = Account {
            owner: Identity::default(),
            data: vec![0u8; len],
        };
        let before = account.data.clone();
        let r = process_instruction(&mut account, &caller, &[0]);
        assert_eq!(r, Err(TransitionError::Decode(DecodeError::BadLength)));
        assert_eq!(account.data, before);
    }
}

#[test]
fn validate_compares_identities() {
    let a = Identity {
        bytes: vec![1u8, 2, 3],
    };
    let b = Identity {
        bytes: vec![1u8, 2, 3],
    };
    let c = Identity {
        bytes: vec![1u8, 2, 4],
    };
    assert_eq!(validate(&a, &b), Ok(()));
    assert_eq!(validate(&a, &c), Err(OwnershipError::NotOwner));
}
