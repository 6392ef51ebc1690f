use escrow_contract::bridge;
use escrow_contract::distribution::{settle_authority_change, settle_token_transfer, transfer_lamports};
use escrow_contract::scoped;
use escrow_contract::{AuthorityChange, CustomError, Identity, TokenTransfer};

fn key(seed: u8) -> Identity {
    let mut bytes = [0u8; 32];
    for (i, b) in bytes.iter_mut().enumerate() {
        *b = seed.wrapping_add(i as u8);
    }
    Identity::new(bytes)
}

#[test]
fn identity_round_trips_its_bytes() {
    let bytes = [7u8; 32];
    assert_eq!(Identity::new(bytes).to_bytes(), bytes);
}

#[test]
fn identities_differ_in_last_byte() {
    let mut bytes = [1u8; 32];
    let a = Identity::new(bytes);
    bytes[31] = 2;
    let b = Identity::new(bytes);
    assert!(!a.same_as(&b));
    assert!(a.same_as(&a));
    assert_ne!(a, b);
    assert_eq!(a, Identity::new([1u8; 32]));
}

#[test]
fn initialize_reads_back_operator() {
    let op = key(3);
    assert_eq!(bridge::initialize(op).operator(), op);
    let record = scoped::initialize(op, key(9));
    assert_eq!(record.operator(), op);
    assert_eq!(record.allowed_program_id(), key(9));
}

#[test]
fn operator_survives_operations() {
    let op = key(3);
    let record = bridge::initialize(op);
    let (mut s, mut d) = (100u64, 0u64);
    let _ = bridge::distribute_sol(&record, &op, &mut s, &mut d, 10, 5);
    let _ = bridge::distribute_sol(&record, &key(4), &mut s, &mut d, 10, 5);
    let _ = bridge::distribute_token(&record, &op, &key(5), &key(6), 1);
    assert_eq!(record.operator(), op);
}

#[test]
fn top_up_for_empty_destination() {
    let op = key(3);
    let record = bridge::initialize(op);
    let (mut s, mut d) = (100u64, 0u64);
    assert_eq!(bridge::distribute_sol(&record, &op, &mut s, &mut d, 10, 5), Ok(()));
    assert_eq!((s, d), (85, 15));
    let (mut s, mut d) = (100u64, 1u64);
    assert_eq!(bridge::distribute_sol(&record, &op, &mut s, &mut d, 10, 5), Ok(()));
    assert_eq!((s, d), (90, 11));
}

#[test]
fn top_up_for_empty_destination_scoped() {
    let op = key(3);
    let program = key(40);
    let record = scoped::initialize(op, program);
    let (mut s, mut d) = (100u64, 0u64);
    assert_eq!(scoped::distribute_sol(&record, &op, &program, &mut s, &mut d, 10, 5), Ok(()));
    assert_eq!((s, d), (85, 15));
    let (mut s, mut d) = (100u64, 20u64);
    assert_eq!(scoped::distribute_sol(&record, &op, &program, &mut s, &mut d, 10, 5), Ok(()));
    assert_eq!((s, d), (90, 30));
}

#[test]
fn zero_amount_is_invalid() {
    let op = key(3);
    let record = bridge::initialize(op);
    let (mut s, mut d) = (100u64, 0u64);
    assert_eq!(
        bridge::distribute_sol(&record, &op, &mut s, &mut d, 0, 5),
        Err(CustomError::InvalidAmount)
    );
    assert_eq!((s, d), (100, 0));
    // The amount is checked before the signer.
    assert_eq!(
        bridge::distribute_sol(&record, &key(4), &mut s, &mut d, 0, 5),
        Err(CustomError::InvalidAmount)
    );
    let scoped_record = scoped::initialize(op, key(40));
    assert_eq!(
        scoped::distribute_sol(&scoped_record, &op, &key(40), &mut s, &mut d, 0, 5),
        Err(CustomError::InvalidAmount)
    );
    assert_eq!((s, d), (100, 0));
}

#[test]
fn stranger_cannot_distribute_sol() {
    let record = bridge::initialize(key(3));
    let (mut s, mut d) = (100u64, 7u64);
    assert_eq!(
        bridge::distribute_sol(&record, &key(4), &mut s, &mut d, 10, 5),
        Err(CustomError::UnauthorizedOperator)
    );
    assert_eq!((s, d), (100, 7));
    let scoped_record = scoped::initialize(key(3), key(40));
    assert_eq!(
        scoped::distribute_sol(&scoped_record, &key(4), &key(40), &mut s, &mut d, 10, 5),
        Err(CustomError::UnauthorizedOperator)
    );
    assert_eq!((s, d), (100, 7));
}

#[test]
fn foreign_program_cannot_distribute_sol() {
    let op = key(3);
    let record = scoped::initialize(op, key(40));
    let (mut s, mut d) = (100u64, 7u64);
    assert_eq!(
        scoped::distribute_sol(&record, &op, &key(41), &mut s, &mut d, 10, 5),
        Err(CustomError::UnauthorizedProgram)
    );
    assert_eq!((s, d), (100, 7));
}

#[test]
fn short_source_is_insufficient() {
    let op = key(3);
    let record = bridge::initialize(op);
    let (mut s, mut d) = (9u64, 1u64);
    assert_eq!(
        bridge::distribute_sol(&record, &op, &mut s, &mut d, 10, 5),
        Err(CustomError::InsufficientFunds)
    );
    assert_eq!((s, d), (9, 1));
    // With the top-up, the source must cover amount and floor together.
    let (mut s, mut d) = (14u64, 0u64);
    assert_eq!(
        bridge::distribute_sol(&record, &op, &mut s, &mut d, 10, 5),
        Err(CustomError::InsufficientFunds)
    );
    assert_eq!((s, d), (14, 0));
}

#[test]
fn exact_source_is_sufficient() {
    let op = key(3);
    let record = bridge::initialize(op);
    let (mut s, mut d) = (15u64, 0u64);
    assert_eq!(bridge::distribute_sol(&record, &op, &mut s, &mut d, 10, 5), Ok(()));
    assert_eq!((s, d), (0, 15));
}

#[test]
fn top_up_past_largest_amount_is_insufficient() {
    let (mut s, mut d) = (u64::MAX, 0u64);
    assert_eq!(
        transfer_lamports(&mut s, &mut d, u64::MAX, 1),
        Err(CustomError::InsufficientFunds)
    );
    assert_eq!((s, d), (u64::MAX, 0));
}

#[test]
fn full_destination_overflows() {
    let op = key(3);
    let record = bridge::initialize(op);
    let (mut s, mut d) = (100u64, u64::MAX - 5);
    assert_eq!(
        bridge::distribute_sol(&record, &op, &mut s, &mut d, 10, 5),
        Err(CustomError::Overflow)
    );
    assert_eq!((s, d), (100, u64::MAX - 5));
    let scoped_record = scoped::initialize(op, key(40));
    assert_eq!(
        scoped::distribute_sol(&scoped_record, &op, &key(40), &mut s, &mut d, 10, 5),
        Err(CustomError::Overflow)
    );
    assert_eq!((s, d), (100, u64::MAX - 5));
    let (mut s, mut d) = (100u64, u64::MAX - 10);
    assert_eq!(bridge::distribute_sol(&record, &op, &mut s, &mut d, 10, 5), Ok(()));
    assert_eq!((s, d), (90, u64::MAX));
}

#[test]
fn token_distribution_is_signed_by_operator() {
    let op = key(3);
    let record = bridge::initialize(op);
    let t = bridge::distribute_token(&record, &op, &key(5), &key(6), 250).unwrap();
    assert_eq!(
        t,
        TokenTransfer { from: key(5), to: key(6), authority: op, amount: 250 }
    );
    assert_eq!(
        bridge::distribute_token(&record, &key(4), &key(5), &key(6), 250),
        Err(CustomError::UnauthorizedOperator)
    );
}

#[test]
fn scoped_token_distribution_checks_program_first() {
    let op = key(3);
    let program = key(40);
    let record = scoped::initialize(op, program);
    let t = scoped::distribute_token(&record, &op, &program, &key(5), &key(6), 1).unwrap();
    assert_eq!(t.authority, op);
    assert_eq!((t.from, t.to, t.amount), (key(5), key(6), 1));
    assert_eq!(
        scoped::distribute_token(&record, &key(4), &key(41), &key(5), &key(6), 1),
        Err(CustomError::UnauthorizedProgram)
    );
    assert_eq!(
        scoped::distribute_token(&record, &key(4), &program, &key(5), &key(6), 1),
        Err(CustomError::UnauthorizedOperator)
    );
}

#[test]
fn ledger_errors_are_wrapped() {
    assert_eq!(settle_token_transfer(Ok(())), Ok(()));
    assert_eq!(settle_token_transfer(Err(17)), Err(CustomError::TokenTransferFailed(17)));
    assert_eq!(settle_authority_change(Ok(())), Ok(()));
    assert_eq!(
        settle_authority_change(Err(4)),
        Err(CustomError::AuthorityTransferFailed(4))
    );
}

#[test]
fn unscoped_authority_goes_to_given_operator() {
    let change = bridge::authorize_operator_once(&key(5), &key(7), &key(9));
    assert_eq!(
        change,
        AuthorityChange { account: key(5), current_authority: key(7), new_authority: key(9) }
    );
}

#[test]
fn scoped_authority_goes_only_to_operator() {
    let op = key(3);
    let record = scoped::initialize(op, key(40));
    assert_eq!(
        scoped::authorize_operator_once(&record, &key(5), &key(7), &op),
        Ok(AuthorityChange { account: key(5), current_authority: key(7), new_authority: op })
    );
    assert_eq!(
        scoped::authorize_operator_once(&record, &key(5), &key(7), &key(9)),
        Err(CustomError::UnauthorizedOperator)
    );
}
