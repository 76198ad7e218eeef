//! The vocabulary of the escrow engine: identifiers, the escrow record, the
//! errors a dispatch can end in and the events it publishes.

use vstd::prelude::*;

verus! {

/// An account on the hosting ledger.
pub type AccountId = u64;

/// A block height.
pub type BlockNumber = u64;

/// The identifier of an escrow record; assigned from 1 upwards.
pub type EscrowId = u32;

/// Longest metadata, in bytes, that a record may carry.
pub const MAX_METADATA_LEN: usize = 256;

/// What an escrow holds.
#[derive(Clone, Copy, Debug, PartialEq, Eq, Structural)]
pub enum AssetType {
    /// The ledger's native currency.
    Native,
    /// A fungible asset, by its identifier.
    Asset(u32),
    /// A non-fungible item (collection, item); it can be recorded but not moved.
    Nft(u32, u32),
}

/// Where a record stands in its lifecycle.
#[derive(Clone, Copy, Debug, PartialEq, Eq, Structural)]
pub enum EscrowState {
    /// Recorded, nothing in custody yet.
    Created,
    /// Funded: the amount sits with the custodian.
    Active,
    /// Settled to the taker; terminal.
    Completed,
    /// Refunded or withdrawn; terminal.
    Cancelled,
}

/// How far a transfer may drain the account it takes from.
#[derive(Clone, Copy, Debug, PartialEq, Eq, Structural)]
pub enum Preservation {
    /// The paying account must keep at least the existential deposit.
    Preserve,
    /// The paying account may go down to zero.
    Expendable,
}

/// Who asks for a dispatch.
#[derive(Clone, Copy, Debug, PartialEq, Eq, Structural)]
pub enum Origin {
    /// The privileged origin.
    Root,
    /// An authenticated account.
    Signed(AccountId),
    /// Nobody: neither signed nor privileged.
    Unsigned,
}

/// Every way a dispatch can fail.
#[derive(Clone, Copy, Debug, PartialEq, Eq, Structural)]
pub enum Error {
    /// The origin is not the one the operation demands.
    BadOrigin,
    /// No record has the given identifier.
    EscrowNotFound,
    /// The record is not in the state the transition starts from.
    InvalidEscrowState,
    /// The preimage does not hash to the committed digest.
    InvalidSecret,
    /// A refund was asked for before the timelock.
    TimelockNotExpired,
    /// The operation needs the window before the timelock, and it is over.
    TimelockExpired,
    /// The ledger refused the transfer for want of funds.
    InsufficientBalance,
    /// The caller is signed but is not the account the operation is reserved for.
    NotAuthorized,
    /// The timelock is outside the bounds allowed at creation.
    InvalidTimelock,
    /// An account's list of escrows is full.
    TooManyEscrows,
    /// The amount is zero or the asset cannot be moved.
    InvalidAsset,
    /// Reserved for cross-chain routing; no operation returns it.
    XcmExecutionFailed,
    /// A counter or a balance would exceed its range.
    Overflow,
    /// The circuit breaker is on.
    PalletPaused,
    /// Maker and taker are the same account.
    InvalidTaker,
    /// A record already holds this digest.
    DuplicateSecretHash,
    /// The metadata is longer than `MAX_METADATA_LEN`.
    InvalidMetadata,
}

/// The custodial move that a transition is chartered to perform.
#[derive(Clone, Copy, Debug, PartialEq, Eq, Structural)]
pub struct Transfer {
    pub asset: AssetType,
    pub from: AccountId,
    pub to: AccountId,
    pub amount: u128,
    pub preservation: Preservation,
}

/// An escrow record as it is stored and handed out.
#[derive(Debug, PartialEq, Eq)]
pub struct EscrowDetails {
    /// The commitment: the digest of the secret.
    pub secret_hash: [u8; 32],
    /// Creator and refund recipient.
    pub maker: AccountId,
    /// Recipient on completion.
    pub taker: AccountId,
    /// Absolute block at which the refund opens and settlement closes.
    pub timelock: BlockNumber,
    /// What is escrowed.
    pub asset_type: AssetType,
    /// How much of it.
    pub amount: u128,
    /// Lifecycle state.
    pub state: EscrowState,
    /// Routing hint; stored, never interpreted.
    pub xcm_destination: Option<u32>,
    /// Block at which the record was created.
    pub created_block: BlockNumber,
    /// Caller's opaque bytes.
    pub metadata: Vec<u8>,
}

/// The mathematical value of an [`EscrowDetails`].
pub struct Record {
    pub secret_hash: Seq<u8>,
    pub maker: AccountId,
    pub taker: AccountId,
    pub timelock: BlockNumber,
    pub asset_type: AssetType,
    pub amount: u128,
    pub state: EscrowState,
    pub xcm_destination: Option<u32>,
    pub created_block: BlockNumber,
    pub metadata: Seq<u8>,
}

impl View for EscrowDetails {
    type V = Record;

    open spec fn view(&self) -> Record {
        Record {
            secret_hash: self.secret_hash@,
            maker: self.maker,
            taker: self.taker,
            timelock: self.timelock,
            asset_type: self.asset_type,
            amount: self.amount,
            state: self.state,
            xcm_destination: self.xcm_destination,
            created_block: self.created_block,
            metadata: self.metadata@,
        }
    }
}

/// What the engine publishes; the sink is append-only.
#[derive(Debug, PartialEq, Eq)]
pub enum Event {
    /// A record was created.
    EscrowCreated {
        escrow_id: EscrowId,
        maker: AccountId,
        taker: AccountId,
        secret_hash: [u8; 32],
        timelock: BlockNumber,
        asset_type: AssetType,
        amount: u128,
    },
    /// A record was funded.
    EscrowFunded { escrow_id: EscrowId, asset_type: AssetType, amount: u128 },
    /// A record was settled; the preimage is published on purpose.
    EscrowCompleted { escrow_id: EscrowId, taker: AccountId, secret: Vec<u8> },
    /// A record was cancelled, with the reason as bytes.
    EscrowCancelled { escrow_id: EscrowId, maker: AccountId, reason: Vec<u8> },
    /// Reserved for cross-chain routing; never emitted.
    XcmTransferInitiated {
        escrow_id: EscrowId,
        destination: u32,
        asset_type: AssetType,
        amount: u128,
    },
    /// The circuit breaker was flipped to `paused`.
    EmergencyPauseToggled { paused: bool },
}

/// The mathematical value of an [`Event`].
pub enum Notice {
    EscrowCreated {
        escrow_id: EscrowId,
        maker: AccountId,
        taker: AccountId,
        secret_hash: Seq<u8>,
        timelock: BlockNumber,
        asset_type: AssetType,
        amount: u128,
    },
    EscrowFunded { escrow_id: EscrowId, asset_type: AssetType, amount: u128 },
    EscrowCompleted { escrow_id: EscrowId, taker: AccountId, secret: Seq<u8> },
    EscrowCancelled { escrow_id: EscrowId, maker: AccountId, reason: Seq<u8> },
    XcmTransferInitiated {
        escrow_id: EscrowId,
        destination: u32,
        asset_type: AssetType,
        amount: u128,
    },
    EmergencyPauseToggled { paused: bool },
}

impl View for Event {
    type V = Notice;

    open spec fn view(&self) -> Notice {
        match *self {
            Event::EscrowCreated {
                escrow_id,
                maker,
                taker,
                secret_hash,
                timelock,
                asset_type,
                amount,
            } => Notice::EscrowCreated {
                escrow_id,
                maker,
                taker,
                secret_hash: secret_hash@,
                timelock,
                asset_type,
                amount,
            },
            Event::EscrowFunded { escrow_id, asset_type, amount } => Notice::EscrowFunded {
                escrow_id,
                asset_type,
                amount,
            },
            Event::EscrowCompleted { escrow_id, taker, secret } => Notice::EscrowCompleted {
                escrow_id,
                taker,
                secret: secret@,
            },
            Event::EscrowCancelled { escrow_id, maker, reason } => Notice::EscrowCancelled {
                escrow_id,
                maker,
                reason: reason@,
            },
            Event::XcmTransferInitiated {
                escrow_id,
                destination,
                asset_type,
                amount,
            } => Notice::XcmTransferInitiated { escrow_id, destination, asset_type, amount },
            Event::EmergencyPauseToggled { paused } => Notice::EmergencyPauseToggled { paused },
        }
    }
}

/// The mathematical values of stored records, position by position.
pub open spec fn records(stored: Seq<EscrowDetails>) -> Seq<Record> {
    Seq::new(stored.len(), |i: int| stored[i]@)
}

/// The mathematical values of published events, position by position.
pub open spec fn notices(published: Seq<Event>) -> Seq<Notice> {
    Seq::new(published.len(), |i: int| published[i]@)
}

/// Whether two digests hold the same bytes.
pub fn same_digest(a: &[u8; 32], b: &[u8; 32]) -> (same: bool)
    ensures
        same == (a@ == b@),
{
    let mut i: usize = 0;
    while i < 32
        invariant
            i <= 32,
            forall|k: int| 0 <= k < i ==> a@[k] == b@[k],
        decreases 32 - i,
    {
        if a[i] != b[i] {
            return false;
        }
        i += 1;
    }
    assert(a@ =~= b@);
    true
}

/// A copy of `bytes`.
pub fn copy_bytes(bytes: &Vec<u8>) -> (copy: Vec<u8>)
    ensures
        copy@ == bytes@,
{
    let mut copy: Vec<u8> = Vec::new();
    let mut i: usize = 0;
    while i < bytes.len()
        invariant
            i <= bytes.len(),
            copy@ == bytes@.take(i as int),
        decreases bytes.len() - i,
    {
        copy.push(bytes[i]);
        i += 1;
    }
    copy
}

impl Clone for EscrowDetails {
    fn clone(&self) -> (copy: EscrowDetails)
        ensures
            copy@ == self@,
    {
        EscrowDetails {
            secret_hash: self.secret_hash,
            maker: self.maker,
            taker: self.taker,
            timelock: self.timelock,
            asset_type: self.asset_type,
            amount: self.amount,
            state: self.state,
            xcm_destination: self.xcm_destination,
            created_block: self.created_block,
            metadata: copy_bytes(&self.metadata),
        }
    }
}

impl Clone for Event {
    fn clone(&self) -> (copy: Event)
        ensures
            copy@ == self@,
    {
        match self {
            Event::EscrowCreated {
                escrow_id,
                maker,
                taker,
                secret_hash,
                timelock,
                asset_type,
                amount,
            } => Event::EscrowCreated {
                escrow_id: *escrow_id,
                maker: *maker,
                taker: *taker,
                secret_hash: *secret_hash,
                timelock: *timelock,
                asset_type: *asset_type,
                amount: *amount,
            },
            Event::EscrowFunded { escrow_id, asset_type, amount } => Event::EscrowFunded {
                escrow_id: *escrow_id,
                asset_type: *asset_type,
                amount: *amount,
            },
            Event::EscrowCompleted { escrow_id, taker, secret } => Event::EscrowCompleted {
                escrow_id: *escrow_id,
                taker: *taker,
                secret: copy_bytes(secret),
            },
            Event::EscrowCancelled { escrow_id, maker, reason } => Event::EscrowCancelled {
                escrow_id: *escrow_id,
                maker: *maker,
                reason: copy_bytes(reason),
            },
            Event::XcmTransferInitiated {
                escrow_id,
                destination,
                asset_type,
                amount,
            } => Event::XcmTransferInitiated {
                escrow_id: *escrow_id,
                destination: *destination,
                asset_type: *asset_type,
                amount: *amount,
            },
            Event::EmergencyPauseToggled { paused } => Event::EmergencyPauseToggled {
                paused: *paused,
            },
        }
    }
}

} // verus!
