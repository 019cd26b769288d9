//! Record sizing. The host allocates persistent records at a caller-declared
//! size, so a transaction's variable-length content must be measured exactly
//! before creation; undersizing is rejected by the host at allocation time,
//! not discovered later. The sizes mirror the persisted byte layout:
//! length-prefixed sequences, fixed-width scalars, 32-byte keys.

use vstd::prelude::*;

use crate::state::TransactionInstruction;

verus! {

/// Bytes of one persisted account reference: key, signer flag, writable
/// flag.
pub const INSTRUCTION_META_SPACE: usize = 32 + 1 + 1;

/// Fixed bytes of a persisted transaction record: group reference, index,
/// derivation nonce, eligibility time, owner-set version snapshot,
/// proposer key, the length prefixes of the instruction list and of the
/// approval bitmap, the bitmap itself sized for the most owners a group
/// record holds, executor key, execution time, and reserved padding.
pub const TRANSACTION_BASE_SPACE: usize = 32 + 8 + 1 + 8 + 8 + 32 + 4 + 4 + 15 + 32 + 8 + 128;

/// Fixed bytes of a persisted group record: anchoring key, derivation
/// nonce, threshold, delay, grace period, transaction counter, owner-set
/// version, the owner list's length prefix, the owner list sized for the
/// most owners a group record holds, and reserved padding.
pub const MULTISIG_SPACE: usize = 32 + 1 + 8 + 8 + 8 + 8 + 8 + 4 + 15 * 32 + 128;

/// Bytes of one persisted instruction: target key, the account list's
/// length prefix and entries, the payload's length prefix and bytes.
pub open spec fn instruction_space(ix: TransactionInstruction) -> int {
    32 + 4 + INSTRUCTION_META_SPACE * ix.keys@.len() + 4 + ix.data@.len()
}

/// Bytes of a persisted instruction list, summed in order.
pub open spec fn instructions_space(s: Seq<TransactionInstruction>) -> int
    decreases s.len(),
{
    if s.len() == 0 {
        0
    } else {
        instructions_space(s.drop_last()) + instruction_space(s.last())
    }
}

/// Bytes a transaction record with these instructions needs.
pub open spec fn transaction_space_of(s: Seq<TransactionInstruction>) -> int {
    TRANSACTION_BASE_SPACE + instructions_space(s)
}

/// A prefix of an instruction list never measures more than the whole.
pub proof fn lemma_instructions_space_take_le(s: Seq<TransactionInstruction>, j: int)
    requires
        0 <= j <= s.len(),
    ensures
        instructions_space(s.take(j)) <= instructions_space(s),
    decreases s.len() - j,
{
    if j == s.len() {
        assert(s.take(j) =~= s);
    } else {
        lemma_instructions_space_take_le(s, j + 1);
        assert(s.take(j + 1).drop_last() =~= s.take(j));
        assert(s.take(j + 1).last() == s[j]);
    }
}

/// Measures the record a transaction with these instructions needs, byte
/// for byte as the host will persist it. The bound in the precondition is
/// the machine's: the total must fit an allocation size.
pub fn transaction_space(instructions: &Vec<TransactionInstruction>) -> (r: usize)
    requires
        transaction_space_of(instructions@) <= usize::MAX,
    ensures
        r == transaction_space_of(instructions@),
{
    let mut space: usize = TRANSACTION_BASE_SPACE;
    let n = instructions.len();
    let mut j: usize = 0;
    while j < n
        invariant
            n == instructions@.len(),
            j <= n,
            space == TRANSACTION_BASE_SPACE + instructions_space(instructions@.take(j as int)),
            transaction_space_of(instructions@) <= usize::MAX,
        decreases n - j,
    {
        proof {
            lemma_instructions_space_take_le(instructions@, j + 1);
            assert(instructions@.take(j + 1).drop_last() =~= instructions@.take(j as int));
            assert(instructions@.take(j + 1).last() == instructions@[j as int]);
        }
        let ix = &instructions[j];
        space = space + 32 + 4 + INSTRUCTION_META_SPACE * ix.keys.len() + 4 + ix.data.len();
        j += 1;
    }
    proof {
        assert(instructions@.take(n as int) =~= instructions@);
    }
    space
}

} // verus!
