use multisig::group::create_multisig;
use multisig::group::set_owners;
use multisig::proposal::approve;
use multisig::proposal::create_transaction;
use multisig::proposal::execute_transaction;
use multisig::state::ErrorCode;
use multisig::state::Multisig;
use multisig::state::Pubkey;
use multisig::state::TransactionInstruction;

fn key(n: u128) -> Pubkey {
    Pubkey { hi: 0, lo: n }
}

fn group(owners: Vec<Pubkey>, threshold: u64, delay: i64) -> Multisig {
    create_multisig(key(1000), 255, owners, threshold, delay).unwrap()
}

fn payload() -> Vec<TransactionInstruction> {
    vec![TransactionInstruction {
        program_id: key(600),
        keys: vec![],
        data: vec![42],
    }]
}

#[test]
fn two_of_three_approve_then_third_executes() {
    let a = key(1);
    let b = key(2);
    let c = key(3);
    let mut ms = group(vec![a, b, c], 2, 0);

    let mut tx = create_transaction(&mut ms, 500, a, payload(), 254).unwrap();
    assert_eq!(tx.signers, vec![true, false, false]);

    assert_eq!(approve(&ms, &mut tx, b), Ok(()));
    assert_eq!(tx.signers, vec![true, true, false]);

    assert_eq!(execute_transaction(&ms, &mut tx, 500, c), Ok(()));
    assert_eq!(tx.executed_at, 500);
    assert_eq!(tx.executor, c);
    assert_eq!(tx.instructions, payload());
}

#[test]
fn rotation_before_approval_strands_the_transaction() {
    let a = key(1);
    let b = key(2);
    let c = key(3);
    let mut ms = group(vec![a, b, c], 2, 0);

    let mut tx = create_transaction(&mut ms, 500, a, payload(), 254).unwrap();
    assert_eq!(set_owners(&mut ms, vec![a, b]), Ok(()));

    assert_eq!(approve(&ms, &mut tx, b), Err(ErrorCode::OwnersChanged));
    assert_eq!(
        execute_transaction(&ms, &mut tx, 500, a),
        Err(ErrorCode::OwnersChanged)
    );
    assert_eq!(tx.executed_at, 0);
}

#[test]
fn day_long_timelock_is_enforced_to_the_second() {
    let a = key(1);
    let b = key(2);
    let mut ms = group(vec![a, b], 2, 86400);

    let mut tx = create_transaction(&mut ms, 1000, a, payload(), 254).unwrap();
    assert_eq!(tx.eta, 87400);
    assert_eq!(approve(&ms, &mut tx, b), Ok(()));

    assert_eq!(
        execute_transaction(&ms, &mut tx, 87399, a),
        Err(ErrorCode::BeforeETA)
    );
    assert_eq!(tx.executed_at, 0);
    assert_eq!(execute_transaction(&ms, &mut tx, 87400, a), Ok(()));
    assert_eq!(tx.executed_at, 87400);
}

#[test]
fn full_quorum_of_three_is_needed_when_threshold_is_three() {
    let a = key(1);
    let b = key(2);
    let c = key(3);
    let mut ms = group(vec![a, b, c], 3, 0);

    let mut tx = create_transaction(&mut ms, 500, a, payload(), 254).unwrap();
    assert_eq!(approve(&ms, &mut tx, b), Ok(()));
    assert_eq!(
        execute_transaction(&ms, &mut tx, 500, a),
        Err(ErrorCode::NotEnoughSigners)
    );
    assert_eq!(tx.executed_at, 0);

    assert_eq!(approve(&ms, &mut tx, c), Ok(()));
    assert_eq!(execute_transaction(&ms, &mut tx, 500, a), Ok(()));
    assert_eq!(tx.executed_at, 500);
}
