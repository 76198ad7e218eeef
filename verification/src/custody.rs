//! Custody: the fungible balance book that the engine moves assets on.
//!
//! A [`Ledger`] keeps one balance per fungible asset and account, in memory.
//! Its single moving operation is [`Ledger::transfer`], which routes by the
//! kind of asset: the native currency and indexed assets each have their
//! balances, non-fungible items have none and cannot be moved. What a
//! transfer does is stated once, as [`transfer_outcome`], and the engine's
//! own operations are specified over it.
//!
//! A host that keeps its balances elsewhere does not need this ledger: the
//! record's state machine names the move an edge asks for, and the host makes
//! it on its own books.

use vstd::prelude::*;
use std::collections::HashMap;
use crate::types::{AccountId, AssetType, Error, Preservation, Transfer};

verus! {

broadcast use vstd::std_specs::hash::group_hash_axioms;

/// Balances by asset and account. A well-formed book has an entry for every
/// pair, and zero for every non-fungible item.
pub type Balances = Map<(AssetType, AccountId), u128>;

/// Why the ledger refused.
#[derive(Clone, Copy, Debug, PartialEq, Eq, Structural)]
pub enum CustodyError {
    /// The asset is not one the ledger can move.
    UnsupportedAsset,
    /// The paying account holds too little, or would fall below the floor it must keep.
    InsufficientFunds,
    /// The receiving balance would exceed its range.
    Overflow,
}

/// The error a dispatch reports for a refusal of the ledger.
pub open spec fn surfaced(e: CustodyError) -> Error {
    match e {
        CustodyError::UnsupportedAsset => Error::InvalidAsset,
        CustodyError::InsufficientFunds => Error::InsufficientBalance,
        CustodyError::Overflow => Error::Overflow,
    }
}

impl CustodyError {
    /// The error a dispatch reports for this refusal; see [`surfaced`].
    pub fn surface(self) -> (e: Error)
        ensures
            e == surfaced(self),
    {
        match self {
            CustodyError::UnsupportedAsset => Error::InvalidAsset,
            CustodyError::InsufficientFunds => Error::InsufficientBalance,
            CustodyError::Overflow => Error::Overflow,
        }
    }
}

/// A book in which every pair has a balance and non-fungible items have none.
pub open spec fn book_complete(balances: Balances) -> bool {
    &&& forall|k: (AssetType, AccountId)| balances.contains_key(k)
    &&& forall|k: (AssetType, AccountId)| k.0 is Nft ==> #[trigger] balances[k] == 0
}

/// The book in which nobody holds anything.
pub open spec fn empty_book() -> Balances {
    Map::new(|k: (AssetType, AccountId)| true, |k: (AssetType, AccountId)| 0u128)
}

/// What a transfer does to a book: the book after it, or the refusal.
///
/// It is refused for a non-fungible asset, when the payer holds less than the
/// amount, when the payer must be preserved and would be left below `floor`,
/// and when the amount on top of the receiver's balance would overflow. A
/// transfer from an account to itself that passes these checks changes
/// nothing.
pub open spec fn transfer_outcome(balances: Balances, floor: u128, t: Transfer) -> Result<
    Balances,
    CustodyError,
> {
    let src = balances[(t.asset, t.from)];
    let dst = balances[(t.asset, t.to)];
    if t.asset is Nft {
        Err(CustodyError::UnsupportedAsset)
    } else if src < t.amount {
        Err(CustodyError::InsufficientFunds)
    } else if t.preservation is Preserve && src - t.amount < floor {
        Err(CustodyError::InsufficientFunds)
    } else if dst + t.amount > u128::MAX {
        Err(CustodyError::Overflow)
    } else if t.from == t.to {
        Ok(balances)
    } else {
        Ok(
            balances.insert((t.asset, t.from), (src - t.amount) as u128).insert(
                (t.asset, t.to),
                (dst + t.amount) as u128,
            ),
        )
    }
}

/// What crediting `amount` of `asset` to `who` does to a book.
pub open spec fn credit_outcome(
    balances: Balances,
    asset: AssetType,
    who: AccountId,
    amount: u128,
) -> Result<Balances, CustodyError> {
    let held = balances[(asset, who)];
    if asset is Nft {
        Err(CustodyError::UnsupportedAsset)
    } else if held + amount > u128::MAX {
        Err(CustodyError::Overflow)
    } else {
        Ok(balances.insert((asset, who), (held + amount) as u128))
    }
}

/// The slot of a fungible asset in the book: 0 for the native currency, the
/// identifier plus one for an indexed asset.
spec fn slot(asset: AssetType) -> u128 {
    match asset {
        AssetType::Native => 0,
        AssetType::Asset(id) => (id + 1) as u128,
        AssetType::Nft(_, _) => 0,
    }
}

/// The key under which the book keeps the balance of `who` in `asset`.
spec fn book_key(asset: AssetType, who: AccountId) -> u128 {
    (slot(asset) * 0x1_0000_0000_0000_0000 + who) as u128
}

proof fn lemma_book_key_injective(a1: AssetType, w1: AccountId, a2: AssetType, w2: AccountId)
    requires
        !(a1 is Nft),
        !(a2 is Nft),
        book_key(a1, w1) == book_key(a2, w2),
    ensures
        a1 == a2,
        w1 == w2,
{
    assert(slot(a1) <= 0x1_0000_0000);
    assert(slot(a2) <= 0x1_0000_0000);
    assert(slot(a1) == slot(a2));
}

/// An in-memory balance book.
pub struct Ledger {
    existential_deposit: u128,
    book: HashMap<u128, u128>,
}

impl Ledger {
    /// The balances the ledger holds.
    pub closed spec fn balances(&self) -> Balances {
        Map::new(
            |k: (AssetType, AccountId)| true,
            |k: (AssetType, AccountId)|
                if !(k.0 is Nft) && self.book@.contains_key(book_key(k.0, k.1)) {
                    self.book@[book_key(k.0, k.1)]
                } else {
                    0u128
                },
        )
    }

    /// The floor under preserved accounts.
    pub closed spec fn floor(&self) -> u128 {
        self.existential_deposit
    }

    /// A ledger on which nobody holds anything.
    pub fn new(existential_deposit: u128) -> (ledger: Ledger)
        ensures
            ledger.floor() == existential_deposit,
            ledger.balances() == empty_book(),
    {
        let ledger = Ledger { existential_deposit, book: HashMap::new() };
        assert(ledger.balances() =~= empty_book());
        ledger
    }

    /// The existential deposit the ledger was built with.
    pub fn existential_deposit(&self) -> (floor: u128)
        ensures
            floor == self.floor(),
    {
        self.existential_deposit
    }

    fn key_of(asset: &AssetType, who: AccountId) -> (key: u128)
        requires
            !(*asset is Nft),
        ensures
            key == book_key(*asset, who),
    {
        let slot: u128 = match asset {
            AssetType::Native => 0,
            AssetType::Asset(id) => *id as u128 + 1,
            AssetType::Nft(_, _) => 0,
        };
        slot * 0x1_0000_0000_0000_0000 + who as u128
    }

    /// What `who` holds of `asset`; nothing of a non-fungible item.
    pub fn balance(&self, asset: &AssetType, who: AccountId) -> (held: u128)
        ensures
            held == self.balances()[(*asset, who)],
    {
        match asset {
            AssetType::Nft(_, _) => 0,
            _ => {
                let key = Self::key_of(asset, who);
                match self.book.get(&key) {
                    Some(held) => *held,
                    None => 0,
                }
            },
        }
    }

    fn set_balance(&mut self, asset: &AssetType, who: AccountId, value: u128)
        requires
            !(*asset is Nft),
        ensures
            final(self).balances() == old(self).balances().insert((*asset, who), value),
            final(self).floor() == old(self).floor(),
    {
        let key = Self::key_of(asset, who);
        self.book.insert(key, value);
        let ghost expected = old(self).balances().insert((*asset, who), value);
        assert forall|k: (AssetType, AccountId)| self.balances()[k] == #[trigger] expected[k] by {
            if !(k.0 is Nft) && book_key(k.0, k.1) == key {
                lemma_book_key_injective(k.0, k.1, *asset, who);
            }
        }
        assert(self.balances() =~= expected);
    }

    /// Credits `amount` of `asset` to `who`, out of nothing.
    pub fn credit(&mut self, asset: &AssetType, who: AccountId, amount: u128) -> (r: Result<
        (),
        CustodyError,
    >)
        ensures
            final(self).floor() == old(self).floor(),
            match credit_outcome(old(self).balances(), *asset, who, amount) {
                Ok(after) => r is Ok && final(self).balances() == after,
                Err(e) => r == Err::<(), CustodyError>(e) && final(self).balances() == old(
                    self,
                ).balances(),
            },
    {
        match asset {
            AssetType::Nft(_, _) => Err(CustodyError::UnsupportedAsset),
            _ => {
                let held = self.balance(asset, who);
                if amount > u128::MAX - held {
                    Err(CustodyError::Overflow)
                } else {
                    self.set_balance(asset, who, held + amount);
                    Ok(())
                }
            },
        }
    }

    /// Moves `t.amount` of `t.asset` from `t.from` to `t.to`, or refuses and
    /// leaves the book as it was.
    pub fn transfer(&mut self, t: &Transfer) -> (r: Result<(), CustodyError>)
        ensures
            final(self).floor() == old(self).floor(),
            match transfer_outcome(old(self).balances(), old(self).floor(), *t) {
                Ok(after) => r is Ok && final(self).balances() == after,
                Err(e) => r == Err::<(), CustodyError>(e) && final(self).balances() == old(
                    self,
                ).balances(),
            },
    {
        match t.asset {
            AssetType::Nft(_, _) => {
                return Err(CustodyError::UnsupportedAsset);
            },
            _ => {},
        }
        let src = self.balance(&t.asset, t.from);
        if src < t.amount {
            return Err(CustodyError::InsufficientFunds);
        }
        let left = src - t.amount;
        match t.preservation {
            Preservation::Preserve => {
                if left < self.existential_deposit {
                    return Err(CustodyError::InsufficientFunds);
                }
            },
            Preservation::Expendable => {},
        }
        let dst = self.balance(&t.asset, t.to);
        if t.amount > u128::MAX - dst {
            return Err(CustodyError::Overflow);
        }
        if t.from == t.to {
            return Ok(());
        }
        self.set_balance(&t.asset, t.from, left);
        self.set_balance(&t.asset, t.to, dst + t.amount);
        Ok(())
    }
}

/// The tag under which a kind of asset is persisted.
pub open spec fn tag_of(asset: AssetType) -> u8 {
    match asset {
        AssetType::Native => 0,
        AssetType::Asset(_) => 1,
        AssetType::Nft(_, _) => 2,
    }
}

/// The asset that a persisted tag and its two fields stand for: a tag from a
/// later revision is an asset this one does not support, not a fault.
pub open spec fn asset_of_tag(tag: u8, first: u32, second: u32) -> Result<
    AssetType,
    CustodyError,
> {
    if tag == 0 {
        Ok(AssetType::Native)
    } else if tag == 1 {
        Ok(AssetType::Asset(first))
    } else if tag == 2 {
        Ok(AssetType::Nft(first, second))
    } else {
        Err(CustodyError::UnsupportedAsset)
    }
}

/// The two fields persisted after the tag of an asset; a kind that carries
/// fewer leaves the rest zero.
pub open spec fn fields_of(asset: AssetType) -> (u32, u32) {
    match asset {
        AssetType::Native => (0, 0),
        AssetType::Asset(id) => (id, 0),
        AssetType::Nft(collection, item) => (collection, item),
    }
}

/// Reading back the tag and fields of an asset gives the asset.
pub proof fn lemma_tag_round_trip(asset: AssetType)
    ensures
        asset_of_tag(tag_of(asset), fields_of(asset).0, fields_of(asset).1) == Ok::<
            AssetType,
            CustodyError,
        >(asset),
{
}

/// The tag under which `asset` is persisted; see [`tag_of`].
pub fn asset_tag(asset: &AssetType) -> (tag: u8)
    ensures
        tag == tag_of(*asset),
{
    match asset {
        AssetType::Native => 0,
        AssetType::Asset(_) => 1,
        AssetType::Nft(_, _) => 2,
    }
}

/// The fields persisted after the tag of `asset`; see [`fields_of`].
pub fn asset_fields(asset: &AssetType) -> (fields: (u32, u32))
    ensures
        fields == fields_of(*asset),
{
    match asset {
        AssetType::Native => (0, 0),
        AssetType::Asset(id) => (*id, 0),
        AssetType::Nft(collection, item) => (*collection, *item),
    }
}

/// The asset a persisted tag stands for; see [`asset_of_tag`].
pub fn asset_from_tag(tag: u8, first: u32, second: u32) -> (r: Result<AssetType, CustodyError>)
    ensures
        r == asset_of_tag(tag, first, second),
{
    if tag == 0 {
        Ok(AssetType::Native)
    } else if tag == 1 {
        Ok(AssetType::Asset(first))
    } else if tag == 2 {
        Ok(AssetType::Nft(first, second))
    } else {
        Err(CustodyError::UnsupportedAsset)
    }
}

} // verus!
