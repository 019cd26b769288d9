//! The two persistent records of the engine and the error taxonomy.

use vstd::prelude::*;

verus! {

/// Upper bound on the timelock delay: thirty days of seconds.
pub const MAX_DELAY_SECONDS: i64 = 30 * 24 * 3600;

/// Grace period recorded on every new group: fourteen days of seconds.
/// The field is carried by the record but no operation of this engine
/// enforces it yet.
pub const DEFAULT_GRACE_PERIOD_SECONDS: i64 = 14 * 24 * 3600;

/// Most owners a persisted group record is sized for.
pub const MAX_OWNERS: usize = 15;

/// A 32-byte identity key, held as two 128-bit halves so that equality is
/// plain field equality. The host is the only party that ever interprets a
/// key cryptographically; the engine only compares keys.
#[derive(Clone, Copy, PartialEq, Eq, Structural, Debug)]
pub struct Pubkey {
    pub hi: u128,
    pub lo: u128,
}

impl Default for Pubkey {
    /// The all-zero key, standing wherever a key field is not yet set.
    fn default() -> (r: Pubkey)
        ensures
            r == (Pubkey { hi: 0, lo: 0 }),
    {
        Pubkey { hi: 0, lo: 0 }
    }
}

/// Why an operation was refused. Every failure is a synchronous,
/// precondition-style rejection; nothing is partially committed.
#[derive(Clone, Copy, PartialEq, Eq, Structural, Debug)]
pub enum ErrorCode {
    /// The given owner is not part of this multisig.
    InvalidOwner,
    /// Not enough owners signed this transaction.
    NotEnoughSigners,
    /// Cannot delete a transaction that has been signed by an owner.
    TransactionAlreadySigned,
    /// Overflow when adding.
    Overflow,
    /// Cannot delete a transaction the owner did not create.
    UnableToDelete,
    /// The given transaction has already been executed.
    AlreadyExecuted,
    /// Threshold must be less than or equal to the number of owners.
    InvalidThreshold,
    /// Delay must be less than 30 days.
    InvalidDelay,
    /// Owners changed.
    OwnersChanged,
    /// Before transaction ETA.
    BeforeETA,
    /// Unique owners.
    UniqueOwners,
}

/// The multisig configuration: owner set, quorum threshold, timelock delay,
/// and the monotonically increasing counters that order proposals and
/// invalidate stale ones.
#[derive(Clone, Debug)]
pub struct Multisig {
    /// Derivation seed anchoring this group's derived authority.
    pub base: Pubkey,
    /// Derivation nonce the host uses alongside `base`.
    pub bump: u8,
    /// Quorum requirement: how many distinct owner approvals execution needs.
    pub threshold: u64,
    /// Timelock applied to every new transaction, in seconds.
    pub delay: i64,
    /// Window after eligibility during which execution stays valid; carried
    /// but not enforced by the operations here.
    pub grace_period: i64,
    /// How many transactions were ever created against this group.
    pub num_transactions: u64,
    /// Owner-set version: bumped on every owner rotation, never decreased.
    pub owners_seq_no: u64,
    /// The owner keys; order defines the approval-bitmap index mapping.
    pub owners: Vec<Pubkey>,
}

/// One pending or executed action batch.
#[derive(Clone, Debug)]
pub struct Transaction {
    /// Back-reference to the group (its anchoring key); lookup only.
    pub multisig: Pubkey,
    /// This transaction's position: the group's `num_transactions` at
    /// creation time.
    pub index: u64,
    /// Derivation nonce the host uses for this record's address.
    pub bump: u8,
    /// Earliest timestamp at which execution may happen.
    pub eta: i64,
    /// The group's `owners_seq_no` at creation time.
    pub owners_seq_no: u64,
    /// Who created the transaction.
    pub proposer: Pubkey,
    /// The batched sub-actions to dispatch on execution.
    pub instructions: Vec<TransactionInstruction>,
    /// Per-owner approval bitmap, indexed like the group's owner list at
    /// creation time.
    pub signers: Vec<bool>,
    /// Who triggered execution; all-zero until executed.
    pub executor: Pubkey,
    /// When execution happened; zero means not yet executed.
    pub executed_at: i64,
}

/// One sub-action of a transaction: a target program, the accounts it
/// touches, and an opaque payload.
#[derive(Clone, Debug, PartialEq)]
pub struct TransactionInstruction {
    pub program_id: Pubkey,
    pub keys: Vec<TransactionInstructionMeta>,
    pub data: Vec<u8>,
}

/// One account reference of a sub-action.
#[derive(Clone, Copy, PartialEq, Eq, Structural, Debug)]
pub struct TransactionInstructionMeta {
    pub pubkey: Pubkey,
    pub is_signer: bool,
    pub is_writable: bool,
}

} // verus!
