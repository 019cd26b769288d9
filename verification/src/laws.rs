//! Laws that tie the operations together, proved once and for all states.
//! Each one is stated over the same spec functions the operations'
//! postconditions use, so it applies to every value the operations can
//! produce.

use vstd::prelude::*;

use crate::proposal::approve_error;
use crate::proposal::count_true;
use crate::proposal::execute_error;
use crate::proposal::first_index_of;
use crate::proposal::lemma_count_true_le_len;
use crate::proposal::lemma_first_index_of_in_range;
use crate::state::ErrorCode;
use crate::state::Multisig;
use crate::state::Pubkey;
use crate::state::Transaction;

verus! {

/// A transaction whose owner-set version no longer matches its group's is
/// refused with `OwnersChanged` by approval and by execution alike — for
/// every current owner, at every time past its eligibility, however many
/// approvals it carries. Since a successful owner rotation raises the
/// group's version by exactly one and no operation ever lowers it, a
/// transaction created before a rotation stays refused forever.
pub proof fn lemma_stale_transaction_refused(
    multisig: Multisig,
    transaction: Transaction,
    signer: Pubkey,
    now: i64,
)
    requires
        multisig.owners_seq_no != transaction.owners_seq_no,
        multisig.owners@.contains(signer),
        now >= transaction.eta,
        transaction.executed_at == 0,
    ensures
        approve_error(multisig, transaction, signer) == Some(ErrorCode::OwnersChanged),
        execute_error(multisig, transaction, now, signer) == Some(ErrorCode::OwnersChanged),
{
}

/// Execution is terminal: a transaction bearing a nonzero execution stamp
/// is refused with `AlreadyExecuted` by every further execution attempt
/// that gets past the membership and timelock checks — and a refusal
/// changes nothing, so repeated attempts keep failing the same way.
pub proof fn lemma_executed_transaction_refused(
    multisig: Multisig,
    transaction: Transaction,
    now: i64,
    executor: Pubkey,
)
    requires
        transaction.executed_at != 0,
        multisig.owners@.contains(executor),
        now >= transaction.eta,
    ensures
        execute_error(multisig, transaction, now, executor) == Some(ErrorCode::AlreadyExecuted),
{
}

/// A successful execution at a nonzero time bars every later execution of
/// the same transaction: the success stamps `executed_at` with that time,
/// and the stamped record is refused with `AlreadyExecuted` by any owner
/// at any time past eligibility.
pub proof fn lemma_execution_is_exclusive(
    multisig: Multisig,
    transaction: Transaction,
    now1: i64,
    executor1: Pubkey,
    now2: i64,
    executor2: Pubkey,
)
    requires
        execute_error(multisig, transaction, now1, executor1) is None,
        now1 != 0,
        multisig.owners@.contains(executor2),
        now2 >= transaction.eta,
    ensures
        execute_error(
            multisig,
            (Transaction { executed_at: now1, executor: executor1, ..transaction }),
            now2,
            executor2,
        ) == Some(ErrorCode::AlreadyExecuted),
{
}

/// Approval is idempotent: recording the same owner's approval twice gives
/// the very bitmap that recording it once gives.
pub proof fn lemma_approve_idempotent(multisig: Multisig, transaction: Transaction, signer: Pubkey)
    requires
        approve_error(multisig, transaction, signer) is None,
        transaction.signers@.len() == multisig.owners@.len(),
    ensures
        ({
            let i = first_index_of(multisig.owners@, signer);
            let once = transaction.signers@.update(i, true);
            once.update(i, true) == once
        }),
{
    lemma_first_index_of_in_range(multisig.owners@, signer);
    let i = first_index_of(multisig.owners@, signer);
    let once = transaction.signers@.update(i, true);
    assert(once.update(i, true) =~= once);
}

/// The approval count of a bitmap never exceeds the number of owner
/// positions it covers: one bit per owner, at most one approval each.
pub proof fn lemma_approval_count_bounded(transaction: Transaction)
    ensures
        count_true(transaction.signers@) <= transaction.signers@.len(),
{
    lemma_count_true_le_len(transaction.signers@);
}

} // verus!
