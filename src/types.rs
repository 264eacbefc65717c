use vstd::prelude::*;

verus! {

/// An authenticated account.
pub type AccountId = u64;

/// The identifier of a kitty.
pub type KittyId = u32;

/// An amount of currency.
pub type Balance = u128;

/// A kitty's fixed-size label.
pub type KittyName = [u8; 8];

/// A kitty's genetic code.
pub type Dna = [u8; 16];

/// The immutable record of a kitty.
#[derive(Clone, Copy, Debug, PartialEq, Eq)]
pub struct Kitty {
    pub dna: [u8; 16],
    pub name: [u8; 8],
}

/// Why a balance transfer was refused; a refused transfer changes nothing.
#[derive(Clone, Copy, Debug, PartialEq, Eq)]
pub enum PaymentError {
    /// The payer holds less than the amount.
    InsufficientBalance,
    /// The payer would be left below the minimum balance.
    KeepAlive,
    /// The payee's balance would overflow.
    Overflow,
}

/// Why a handler call failed; a failed call changes nothing.
#[derive(Clone, Copy, Debug, PartialEq, Eq)]
pub enum Error {
    InvalidKittyId,
    SameKittyId,
    NotOwner,
    NoOwner,
    AlreadyOnSale,
    AlreadyOwned,
    NotOnSale,
    IdSpaceExhausted,
    Payment(PaymentError),
}

/// What a successful handler call reports.
#[derive(Clone, Copy, Debug, PartialEq, Eq)]
pub enum Event {
    KittyCreated { who: AccountId, kitty_id: KittyId, kitty: Kitty },
    KittyBred { who: AccountId, kitty_id: KittyId, kitty: Kitty },
    KittyTransferred { who: AccountId, recipient: AccountId, kitty_id: KittyId },
    KittyOnSale { who: AccountId, kitty_id: KittyId },
    KittyBought { who: AccountId, kitty_id: KittyId },
}

} // verus!
