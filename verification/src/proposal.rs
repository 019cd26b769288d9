//! The proposal state machine: creating a transaction against a group,
//! collecting owner approvals, and marking an eligible, quorate transaction
//! executed.

use vstd::prelude::*;
use vstd::pervasive::VecAdditionalExecFns;

use crate::state::ErrorCode;
use crate::state::Multisig;
use crate::state::Pubkey;
use crate::state::Transaction;
use crate::state::TransactionInstruction;

verus! {

/// Position of the first occurrence of `k` in `s`, or -1 where `k` is
/// absent. Owner lists are unique in every group this engine creates, but
/// the definition does not depend on that.
pub open spec fn first_index_of(s: Seq<Pubkey>, k: Pubkey) -> int
    decreases s.len(),
{
    if s.len() == 0 {
        -1
    } else if s[0] == k {
        0
    } else if first_index_of(s.skip(1), k) == -1 {
        -1
    } else {
        first_index_of(s.skip(1), k) + 1
    }
}

/// A witness at position `i`, with nothing equal to `k` before it, pins the
/// first occurrence down.
pub proof fn lemma_first_index_of_found(s: Seq<Pubkey>, k: Pubkey, i: int)
    requires
        0 <= i < s.len(),
        s[i] == k,
        forall|j: int| 0 <= j < i ==> s[j] != k,
    ensures
        first_index_of(s, k) == i,
    decreases s.len(),
{
    if i > 0 {
        lemma_first_index_of_found(s.skip(1), k, i - 1);
    }
}

/// Where nothing in `s` equals `k`, the first occurrence is -1.
pub proof fn lemma_first_index_of_absent(s: Seq<Pubkey>, k: Pubkey)
    requires
        forall|j: int| 0 <= j < s.len() ==> s[j] != k,
    ensures
        first_index_of(s, k) == -1,
    decreases s.len(),
{
    if s.len() > 0 {
        lemma_first_index_of_absent(s.skip(1), k);
    }
}

/// A key the list contains has its first occurrence inside the list, and
/// that position holds the key.
pub proof fn lemma_first_index_of_in_range(s: Seq<Pubkey>, k: Pubkey)
    requires
        s.contains(k),
    ensures
        0 <= first_index_of(s, k) < s.len(),
        s[first_index_of(s, k)] == k,
    decreases s.len(),
{
    if s[0] != k {
        let w = choose|i: int| 0 <= i < s.len() && s[i] == k;
        assert(s.skip(1)[w - 1] == k);
        lemma_first_index_of_in_range(s.skip(1), k);
    }
}

/// How many entries of the approval bitmap are set.
pub open spec fn count_true(s: Seq<bool>) -> int
    decreases s.len(),
{
    if s.len() == 0 {
        0
    } else {
        count_true(s.drop_last()) + (if s.last() {
            1int
        } else {
            0int
        })
    }
}

/// The approval count never exceeds the bitmap length: at most one approval
/// per owner position.
pub proof fn lemma_count_true_le_len(s: Seq<bool>)
    ensures
        0 <= count_true(s) <= s.len(),
    decreases s.len(),
{
    if s.len() > 0 {
        lemma_count_true_le_len(s.drop_last());
    }
}

/// Why an approval would be refused, or `None` where it goes through:
/// the approver must be a current owner, and the owner set must not have
/// rotated since the transaction was created.
pub open spec fn approve_error(
    multisig: Multisig,
    transaction: Transaction,
    signer: Pubkey,
) -> Option<ErrorCode> {
    if !multisig.owners@.contains(signer) {
        Some(ErrorCode::InvalidOwner)
    } else if multisig.owners_seq_no != transaction.owners_seq_no {
        Some(ErrorCode::OwnersChanged)
    } else {
        None
    }
}

/// Why an execution would be refused, or `None` where it goes through.
/// The checks run in this order, first failure winning: the executor must
/// be a current owner, the timelock must have elapsed (`now == eta` is
/// already eligible), the transaction must not have been executed, the
/// owner set must not have rotated since creation, and the approvals must
/// reach the quorum threshold.
pub open spec fn execute_error(
    multisig: Multisig,
    transaction: Transaction,
    now: i64,
    executor: Pubkey,
) -> Option<ErrorCode> {
    if !multisig.owners@.contains(executor) {
        Some(ErrorCode::InvalidOwner)
    } else if now < transaction.eta {
        Some(ErrorCode::BeforeETA)
    } else if transaction.executed_at != 0 {
        Some(ErrorCode::AlreadyExecuted)
    } else if multisig.owners_seq_no != transaction.owners_seq_no {
        Some(ErrorCode::OwnersChanged)
    } else if count_true(transaction.signers@) < multisig.threshold {
        Some(ErrorCode::NotEnoughSigners)
    } else {
        None
    }
}

/// Position of `key` in the owner list, or `None` where it is not an owner.
pub(crate) fn owner_position(owners: &Vec<Pubkey>, key: Pubkey) -> (r: Option<usize>)
    ensures
        r is Some <==> owners@.contains(key),
        r matches Some(i) ==> i < owners@.len() && owners@[i as int] == key && first_index_of(
            owners@,
            key,
        ) == i,
        r is None ==> first_index_of(owners@, key) == -1,
{
    let n = owners.len();
    let mut i: usize = 0;
    while i < n
        invariant
            n == owners@.len(),
            i <= n,
            forall|j: int| 0 <= j < i ==> owners@[j] != key,
        decreases n - i,
    {
        if owners[i] == key {
            proof {
                lemma_first_index_of_found(owners@, key, i as int);
            }
            return Some(i);
        }
        i += 1;
    }
    proof {
        lemma_first_index_of_absent(owners@, key);
        assert(!owners@.contains(key));
    }
    None
}

/// How many owners have approved so far.
pub fn count_approvals(signers: &Vec<bool>) -> (r: usize)
    ensures
        r == count_true(signers@),
{
    let n = signers.len();
    let mut cnt: usize = 0;
    let mut j: usize = 0;
    while j < n
        invariant
            n == signers@.len(),
            j <= n,
            cnt <= j,
            cnt == count_true(signers@.take(j as int)),
        decreases n - j,
    {
        proof {
            assert(signers@.take(j + 1).drop_last() =~= signers@.take(j as int));
            assert(signers@.take(j + 1).last() == signers@[j as int]);
        }
        if signers[j] {
            cnt += 1;
        }
        j += 1;
    }
    proof {
        assert(signers@.take(n as int) =~= signers@);
    }
    cnt
}

/// Creates a transaction against the group. Succeeds exactly when the
/// proposer is a current owner and the group's transaction counter would
/// not wrap. The new transaction snapshots the group's owner-set version,
/// becomes eligible at `now + delay`, takes the group's current transaction
/// count as its index, and starts with every approval false except the
/// proposer's own — the act of proposing counts as approval. The group's
/// transaction counter rises by one; on any refusal the group is unchanged.
/// The caller supplies `now`, the host clock's reading.
pub fn create_transaction(
    multisig: &mut Multisig,
    now: i64,
    proposer: Pubkey,
    instructions: Vec<TransactionInstruction>,
    bump: u8,
) -> (r: Result<Transaction, ErrorCode>)
    requires
        i64::MIN <= now + old(multisig).delay <= i64::MAX,
    ensures
        r is Ok <==> (old(multisig).owners@.contains(proposer) && old(multisig).num_transactions
            < u64::MAX),
        !old(multisig).owners@.contains(proposer) ==> r == Err::<Transaction, ErrorCode>(
            ErrorCode::InvalidOwner,
        ),
        old(multisig).owners@.contains(proposer) && old(multisig).num_transactions == u64::MAX
            ==> r == Err::<Transaction, ErrorCode>(ErrorCode::Overflow),
        r is Err ==> *final(multisig) == *old(multisig),
        r matches Ok(tx) ==> {
            &&& *final(multisig) == (Multisig {
                num_transactions: (old(multisig).num_transactions + 1) as u64,
                ..*old(multisig)
            })
            &&& tx.multisig == old(multisig).base
            &&& tx.index == old(multisig).num_transactions
            &&& tx.bump == bump
            &&& tx.eta == now + old(multisig).delay
            &&& tx.owners_seq_no == old(multisig).owners_seq_no
            &&& tx.proposer == proposer
            &&& tx.instructions == instructions
            &&& tx.signers@ == Seq::new(
                old(multisig).owners@.len(),
                |j: int| j == first_index_of(old(multisig).owners@, proposer),
            )
            &&& tx.executor == (Pubkey { hi: 0, lo: 0 })
            &&& tx.executed_at == 0
        },
{
    let owner_index = match owner_position(&multisig.owners, proposer) {
        Some(i) => i,
        None => {
            return Err(ErrorCode::InvalidOwner);
        },
    };
    if multisig.num_transactions == u64::MAX {
        return Err(ErrorCode::Overflow);
    }

    let n = multisig.owners.len();
    let mut signers: Vec<bool> = Vec::new();
    let mut j: usize = 0;
    while j < n
        invariant
            j <= n,
            owner_index < n,
            n == old(multisig).owners@.len(),
            first_index_of(old(multisig).owners@, proposer) == owner_index,
            signers@ =~= Seq::new(j as nat, |k: int| k == owner_index),
        decreases n - j,
    {
        signers.push(j == owner_index);
        proof {
            assert(signers@ =~= Seq::new((j + 1) as nat, |k: int| k == owner_index));
        }
        j += 1;
    }

    let tx = Transaction {
        multisig: multisig.base,
        index: multisig.num_transactions,
        bump,
        eta: now + multisig.delay,
        owners_seq_no: multisig.owners_seq_no,
        proposer,
        instructions,
        signers,
        executor: Pubkey { hi: 0, lo: 0 },
        executed_at: 0,
    };
    multisig.num_transactions = multisig.num_transactions + 1;
    proof {
        assert(tx.signers@ =~= Seq::new(
            old(multisig).owners@.len(),
            |k: int| k == first_index_of(old(multisig).owners@, proposer),
        ));
    }
    Ok(tx)
}

/// Records an owner's approval on a transaction. Succeeds exactly when
/// `approve_error` is `None`: the approver must be a current owner and the
/// owner set must not have rotated since the transaction was created. On
/// success the approver's bit — at the approver's position in the owner
/// list — is set; setting an already-set bit changes nothing, so approval
/// is idempotent. On any refusal the transaction is unchanged; nothing
/// else of it is ever touched here.
///
/// The transaction must belong to the group in the sense that, while the
/// versions match, its bitmap has one bit per owner — the shape every
/// transaction is created with and every operation preserves.
pub fn approve(multisig: &Multisig, transaction: &mut Transaction, signer: Pubkey) -> (r: Result<
    (),
    ErrorCode,
>)
    requires
        old(transaction).owners_seq_no == multisig.owners_seq_no ==> old(
            transaction,
        ).signers@.len() == multisig.owners@.len(),
    ensures
        r is Ok <==> approve_error(*multisig, *old(transaction), signer) is None,
        r matches Err(e) ==> Some(e) == approve_error(*multisig, *old(transaction), signer)
            && *final(transaction) == *old(transaction),
        r is Ok ==> *final(transaction) == (Transaction {
            signers: final(transaction).signers,
            ..*old(transaction)
        }) && final(transaction).signers@ == old(transaction).signers@.update(
            first_index_of(multisig.owners@, signer),
            true,
        ),
{
    let owner_index = match owner_position(&multisig.owners, signer) {
        Some(i) => i,
        None => {
            return Err(ErrorCode::InvalidOwner);
        },
    };
    if multisig.owners_seq_no != transaction.owners_seq_no {
        return Err(ErrorCode::OwnersChanged);
    }
    transaction.signers.set(owner_index, true);
    Ok(())
}

/// Marks a transaction executed. Succeeds exactly when `execute_error` is
/// `None`; on success the execution fields are stamped — `executed_at`
/// takes `now`, the executor is recorded — and nothing else changes, so
/// the instruction batch the host must now dispatch is exactly the one the
/// transaction has carried since creation. On any refusal the transaction
/// is unchanged, so a refused attempt can be retried verbatim. The caller
/// supplies `now`, the host clock's reading; the host dispatches the
/// instructions only after this call succeeds, under the group's derived
/// authority, and rolls the stamp back if a dispatch fails.
pub fn execute_transaction(
    multisig: &Multisig,
    transaction: &mut Transaction,
    now: i64,
    executor: Pubkey,
) -> (r: Result<(), ErrorCode>)
    ensures
        r is Ok <==> execute_error(*multisig, *old(transaction), now, executor) is None,
        r matches Err(e) ==> Some(e) == execute_error(*multisig, *old(transaction), now, executor)
            && *final(transaction) == *old(transaction),
        r is Ok ==> *final(transaction) == (Transaction {
            executed_at: now,
            executor,
            ..*old(transaction)
        }),
{
    if owner_position(&multisig.owners, executor).is_none() {
        return Err(ErrorCode::InvalidOwner);
    }
    if now < transaction.eta {
        return Err(ErrorCode::BeforeETA);
    }
    if transaction.executed_at != 0 {
        return Err(ErrorCode::AlreadyExecuted);
    }
    if multisig.owners_seq_no != transaction.owners_seq_no {
        return Err(ErrorCode::OwnersChanged);
    }
    let sig_count = count_approvals(&transaction.signers);
    if (sig_count as u64) < multisig.threshold {
        return Err(ErrorCode::NotEnoughSigners);
    }
    transaction.executed_at = now;
    transaction.executor = executor;
    Ok(())
}

} // verus!
