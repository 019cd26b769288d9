use multisig::group::create_multisig;
use multisig::group::set_owners;
use multisig::proposal::approve;
use multisig::proposal::count_approvals;
use multisig::proposal::create_transaction;
use multisig::proposal::execute_transaction;
use multisig::state::ErrorCode;
use multisig::state::Multisig;
use multisig::state::Pubkey;
use multisig::state::Transaction;
use multisig::state::TransactionInstruction;
use multisig::state::TransactionInstructionMeta;

fn key(n: u128) -> Pubkey {
    Pubkey { hi: 0, lo: n }
}

fn group(owners: Vec<Pubkey>, threshold: u64, delay: i64) -> Multisig {
    create_multisig(key(1000), 255, owners, threshold, delay).unwrap()
}

fn ping() -> Vec<TransactionInstruction> {
    vec![TransactionInstruction {
        program_id: key(500),
        keys: vec![TransactionInstructionMeta {
            pubkey: key(501),
            is_signer: false,
            is_writable: true,
        }],
        data: vec![1, 2, 3],
    }]
}

#[test]
fn create_transaction_rejects_non_owner() {
    let mut ms = group(vec![key(1), key(2)], 2, 0);
    let r = create_transaction(&mut ms, 100, key(9), ping(), 254);
    assert_eq!(r.unwrap_err(), ErrorCode::InvalidOwner);
    assert_eq!(ms.num_transactions, 0);
}

#[test]
fn create_transaction_snapshots_the_group() {
    let mut ms = group(vec![key(1), key(2), key(3)], 2, 60);
    assert_eq!(set_owners(&mut ms, vec![key(1), key(2), key(3)]), Ok(()));
    let tx = create_transaction(&mut ms, 100, key(2), ping(), 254).unwrap();
    assert_eq!(tx.multisig, key(1000));
    assert_eq!(tx.index, 0);
    assert_eq!(tx.bump, 254);
    assert_eq!(tx.eta, 160);
    assert_eq!(tx.owners_seq_no, 1);
    assert_eq!(tx.proposer, key(2));
    assert_eq!(tx.instructions, ping());
    assert_eq!(tx.signers, vec![false, true, false]);
    assert_eq!(tx.executor, Pubkey { hi: 0, lo: 0 });
    assert_eq!(tx.executed_at, 0);
    assert_eq!(ms.num_transactions, 1);

    let tx2 = create_transaction(&mut ms, 100, key(1), vec![], 253).unwrap();
    assert_eq!(tx2.index, 1);
    assert_eq!(ms.num_transactions, 2);
}

#[test]
fn create_transaction_refuses_to_wrap_the_counter() {
    let mut ms = group(vec![key(1)], 1, 0);
    ms.num_transactions = u64::MAX;
    let r = create_transaction(&mut ms, 100, key(1), vec![], 254);
    assert_eq!(r.unwrap_err(), ErrorCode::Overflow);
    assert_eq!(ms.num_transactions, u64::MAX);
}

#[test]
fn approve_rejects_non_owner() {
    let mut ms = group(vec![key(1), key(2)], 2, 0);
    let mut tx = create_transaction(&mut ms, 100, key(1), ping(), 254).unwrap();
    assert_eq!(approve(&ms, &mut tx, key(9)), Err(ErrorCode::InvalidOwner));
    assert_eq!(tx.signers, vec![true, false]);
}

#[test]
fn approve_rejects_stale_transaction() {
    let mut ms = group(vec![key(1), key(2)], 2, 0);
    let mut tx = create_transaction(&mut ms, 100, key(1), ping(), 254).unwrap();
    assert_eq!(set_owners(&mut ms, vec![key(1), key(2)]), Ok(()));
    assert_eq!(approve(&ms, &mut tx, key(2)), Err(ErrorCode::OwnersChanged));
    assert_eq!(tx.signers, vec![true, false]);
}

#[test]
fn approve_sets_the_owner_bit() {
    let mut ms = group(vec![key(1), key(2), key(3)], 2, 0);
    let mut tx = create_transaction(&mut ms, 100, key(1), ping(), 254).unwrap();
    assert_eq!(approve(&ms, &mut tx, key(3)), Ok(()));
    assert_eq!(tx.signers, vec![true, false, true]);
    assert_eq!(count_approvals(&tx.signers), 2);
}

#[test]
fn approve_twice_changes_nothing() {
    let mut ms = group(vec![key(1), key(2), key(3)], 2, 0);
    let mut tx = create_transaction(&mut ms, 100, key(1), ping(), 254).unwrap();
    assert_eq!(approve(&ms, &mut tx, key(2)), Ok(()));
    let bitmap_once = tx.signers.clone();
    assert_eq!(approve(&ms, &mut tx, key(2)), Ok(()));
    assert_eq!(tx.signers, bitmap_once);
    assert!(count_approvals(&tx.signers) as usize <= ms.owners.len());
}

#[test]
fn execute_rejects_non_owner_before_anything_else() {
    let mut ms = group(vec![key(1), key(2)], 2, 0);
    let mut tx = create_transaction(&mut ms, 100, key(1), ping(), 254).unwrap();
    // The executor check comes first: this attempt is also before the eta
    // and short of quorum, yet the membership failure wins.
    let r = execute_transaction(&ms, &mut tx, 50, key(9));
    assert_eq!(r, Err(ErrorCode::InvalidOwner));
    assert_eq!(tx.executed_at, 0);
}

#[test]
fn execute_rejects_before_eta_and_accepts_at_eta() {
    let mut ms = group(vec![key(1), key(2)], 1, 60);
    let mut tx = create_transaction(&mut ms, 100, key(1), ping(), 254).unwrap();
    assert_eq!(tx.eta, 160);
    assert_eq!(
        execute_transaction(&ms, &mut tx, 159, key(2)),
        Err(ErrorCode::BeforeETA)
    );
    assert_eq!(tx.executed_at, 0);
    assert_eq!(execute_transaction(&ms, &mut tx, 160, key(2)), Ok(()));
    assert_eq!(tx.executed_at, 160);
    assert_eq!(tx.executor, key(2));
}

#[test]
fn execute_rejects_executed_transaction_again_and_again() {
    let mut ms = group(vec![key(1)], 1, 0);
    let mut tx = create_transaction(&mut ms, 100, key(1), ping(), 254).unwrap();
    assert_eq!(execute_transaction(&ms, &mut tx, 100, key(1)), Ok(()));
    assert_eq!(tx.executed_at, 100);
    assert_eq!(
        execute_transaction(&ms, &mut tx, 200, key(1)),
        Err(ErrorCode::AlreadyExecuted)
    );
    assert_eq!(tx.executed_at, 100);
    assert_eq!(tx.executor, key(1));
    assert_eq!(
        execute_transaction(&ms, &mut tx, 300, key(1)),
        Err(ErrorCode::AlreadyExecuted)
    );
    assert_eq!(tx.executed_at, 100);
}

#[test]
fn execute_rejects_stale_transaction() {
    let mut ms = group(vec![key(1), key(2)], 1, 0);
    let mut tx = create_transaction(&mut ms, 100, key(1), ping(), 254).unwrap();
    assert_eq!(set_owners(&mut ms, vec![key(1), key(2)]), Ok(()));
    assert_eq!(
        execute_transaction(&ms, &mut tx, 100, key(1)),
        Err(ErrorCode::OwnersChanged)
    );
    assert_eq!(tx.executed_at, 0);
}

#[test]
fn execute_rejects_short_quorum() {
    let mut ms = group(vec![key(1), key(2), key(3)], 2, 0);
    let mut tx = create_transaction(&mut ms, 100, key(1), ping(), 254).unwrap();
    assert_eq!(
        execute_transaction(&ms, &mut tx, 100, key(3)),
        Err(ErrorCode::NotEnoughSigners)
    );
    assert_eq!(tx.executed_at, 0);
}

#[test]
fn transaction_record_stays_intact_through_refusals() {
    let mut ms = group(vec![key(1), key(2)], 2, 0);
    let mut tx = create_transaction(&mut ms, 100, key(1), ping(), 254).unwrap();
    let _ = execute_transaction(&ms, &mut tx, 100, key(2));
    assert_eq!(tx.instructions, ping());
    assert_eq!(tx.proposer, key(1));
    assert_eq!(tx.eta, 100);
    assert_eq!(tx.index, 0);
}

#[test]
fn stale_transaction_stays_stale() {
    let mut ms = group(vec![key(1), key(2)], 1, 0);
    let mut tx: Transaction = create_transaction(&mut ms, 100, key(1), ping(), 254).unwrap();
    assert_eq!(set_owners(&mut ms, vec![key(1), key(2)]), Ok(()));
    for now in [100, 1000, 100000] {
        assert_eq!(
            approve(&ms, &mut tx, key(2)),
            Err(ErrorCode::OwnersChanged)
        );
        assert_eq!(
            execute_transaction(&ms, &mut tx, now, key(1)),
            Err(ErrorCode::OwnersChanged)
        );
    }
    assert_eq!(tx.signers, vec![true, false]);
    assert_eq!(tx.executed_at, 0);
}
