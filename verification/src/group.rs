//! Group management: creating a multisig and rotating its owner set,
//! quorum threshold and timelock delay.

use vstd::prelude::*;

use crate::state::ErrorCode;
use crate::state::Multisig;
use crate::state::Pubkey;
use crate::state::DEFAULT_GRACE_PERIOD_SECONDS;
use crate::state::MAX_DELAY_SECONDS;

verus! {

/// No key occurs twice in the list.
pub open spec fn seq_unique(s: Seq<Pubkey>) -> bool {
    forall|i: int, j: int| 0 <= i < j < s.len() ==> s[i] != s[j]
}

/// Accepts exactly the duplicate-free owner lists; every list with a repeat
/// is refused with `UniqueOwners`.
pub fn require_unique_owners(owners: &Vec<Pubkey>) -> (r: Result<(), ErrorCode>)
    ensures
        r is Ok <==> seq_unique(owners@),
        r is Err ==> r == Err::<(), ErrorCode>(ErrorCode::UniqueOwners),
{
    let n = owners.len();
    let mut i: usize = 0;
    while i < n
        invariant
            n == owners@.len(),
            i <= n,
            forall|a: int, b: int| 0 <= a < i && a < b < n ==> owners@[a] != owners@[b],
        decreases n - i,
    {
        let mut j: usize = i + 1;
        while j < n
            invariant
                n == owners@.len(),
                i < j <= n,
                forall|b: int| i < b < j ==> owners@[i as int] != owners@[b],
            decreases n - j,
        {
            if owners[i] == owners[j] {
                return Err(ErrorCode::UniqueOwners);
            }
            j += 1;
        }
        i += 1;
    }
    Ok(())
}

/// Creates a multisig group with the given owners, quorum threshold and
/// timelock delay. Succeeds on exactly the duplicate-free owner lists; the
/// new group starts at version zero with no transactions, and carries the
/// fixed default grace period. Neither the threshold nor the delay is
/// validated here; the mutating operations are the ones that enforce their
/// bounds.
pub fn create_multisig(
    base: Pubkey,
    bump: u8,
    owners: Vec<Pubkey>,
    threshold: u64,
    delay: i64,
) -> (r: Result<Multisig, ErrorCode>)
    ensures
        r is Ok <==> seq_unique(owners@),
        r is Err ==> r == Err::<Multisig, ErrorCode>(ErrorCode::UniqueOwners),
        r matches Ok(ms) ==> {
            &&& ms.base == base
            &&& ms.bump == bump
            &&& ms.threshold == threshold
            &&& ms.delay == delay
            &&& ms.grace_period == DEFAULT_GRACE_PERIOD_SECONDS
            &&& ms.num_transactions == 0
            &&& ms.owners_seq_no == 0
            &&& ms.owners@ == owners@
        },
{
    match require_unique_owners(&owners) {
        Err(e) => Err(e),
        Ok(()) => Ok(Multisig {
            base,
            bump,
            threshold,
            delay,
            grace_period: DEFAULT_GRACE_PERIOD_SECONDS,
            num_transactions: 0,
            owners_seq_no: 0,
            owners,
        }),
    }
}

/// Replaces the owner list. Succeeds on exactly the duplicate-free lists
/// whose installation does not wrap the version counter. On success the
/// quorum threshold is clamped down to the new owner count where it would
/// otherwise exceed it — the bound `threshold <= |owners|` holds outright —
/// and the owner-set version rises by exactly one, which permanently
/// invalidates every transaction created against the old owner set. On any
/// refusal the record is unchanged.
pub fn set_owners(multisig: &mut Multisig, owners: Vec<Pubkey>) -> (r: Result<(), ErrorCode>)
    ensures
        r is Ok <==> (seq_unique(owners@) && old(multisig).owners_seq_no < u64::MAX),
        !seq_unique(owners@) ==> r == Err::<(), ErrorCode>(ErrorCode::UniqueOwners),
        seq_unique(owners@) && old(multisig).owners_seq_no == u64::MAX ==> r == Err::<(),
            ErrorCode,
        >(ErrorCode::Overflow),
        r is Err ==> *final(multisig) == *old(multisig),
        r is Ok ==> {
            &&& final(multisig).owners@ == owners@
            &&& final(multisig).owners_seq_no == old(multisig).owners_seq_no + 1
            &&& final(multisig).threshold as int == (if owners@.len()
                < old(multisig).threshold as int {
                owners@.len() as int
            } else {
                old(multisig).threshold as int
            })
            &&& final(multisig).threshold <= final(multisig).owners@.len()
            &&& final(multisig).base == old(multisig).base
            &&& final(multisig).bump == old(multisig).bump
            &&& final(multisig).delay == old(multisig).delay
            &&& final(multisig).grace_period == old(multisig).grace_period
            &&& final(multisig).num_transactions == old(multisig).num_transactions
        },
{
    match require_unique_owners(&owners) {
        Err(e) => {
            return Err(e);
        },
        Ok(()) => {},
    }
    if multisig.owners_seq_no == u64::MAX {
        return Err(ErrorCode::Overflow);
    }
    if (owners.len() as u64) < multisig.threshold {
        multisig.threshold = owners.len() as u64;
    }
    multisig.owners = owners;
    multisig.owners_seq_no = multisig.owners_seq_no + 1;
    Ok(())
}

/// Changes the quorum threshold. Succeeds exactly when the new threshold
/// does not exceed the owner count; a larger request is refused with
/// `InvalidThreshold` and changes nothing. The owner-set version is not
/// touched: owner positions are unchanged, so in-flight approval bitmaps
/// stay meaningful.
pub fn change_threshold(multisig: &mut Multisig, threshold: u64) -> (r: Result<(), ErrorCode>)
    ensures
        r is Ok <==> threshold <= old(multisig).owners@.len(),
        r is Err ==> r == Err::<(), ErrorCode>(ErrorCode::InvalidThreshold) && *final(multisig)
            == *old(multisig),
        r is Ok ==> *final(multisig) == (Multisig { threshold, ..*old(multisig) }),
        r is Ok ==> final(multisig).threshold <= final(multisig).owners@.len(),
{
    if threshold > multisig.owners.len() as u64 {
        return Err(ErrorCode::InvalidThreshold);
    }
    multisig.threshold = threshold;
    Ok(())
}

/// Changes the timelock delay applied to future transactions. Succeeds
/// exactly when the new delay does not exceed thirty days; a larger request
/// is refused with `InvalidDelay` and changes nothing. The owner-set
/// version is not touched.
pub fn change_delay(multisig: &mut Multisig, delay: i64) -> (r: Result<(), ErrorCode>)
    ensures
        r is Ok <==> delay <= MAX_DELAY_SECONDS,
        r is Err ==> r == Err::<(), ErrorCode>(ErrorCode::InvalidDelay) && *final(multisig)
            == *old(multisig),
        r is Ok ==> *final(multisig) == (Multisig { delay, ..*old(multisig) }),
{
    if delay > MAX_DELAY_SECONDS {
        return Err(ErrorCode::InvalidDelay);
    }
    multisig.delay = delay;
    Ok(())
}

} // verus!
