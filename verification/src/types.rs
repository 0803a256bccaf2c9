//! Plain values shared by the ledgers: account addresses and payments.
use vstd::prelude::*;
use crate::bytes::{copy_bytes, same_bytes};
use crate::store::StoreKey;

verus! {

/// A 32-byte account address.
#[derive(Clone, Copy, Debug, PartialEq, Eq, Hash)]
pub struct Address {
    pub bytes: [u8; 32],
}

impl Address {
    pub fn new(bytes: [u8; 32]) -> (a: Address)
        ensures
            a.bytes == bytes,
    {
        Address { bytes }
    }

    /// The address made of zero bytes.
    pub fn zero() -> (a: Address)
        ensures
            a.bytes@ == Seq::new(32, |i: int| 0u8),
    {
        let a = Address { bytes: [0u8;32] };
        assert(a.bytes@ =~= Seq::new(32, |i: int| 0u8));
        a
    }

    /// Whether two addresses are the same account.
    pub fn is(&self, other: &Address) -> (r: bool)
        ensures
            r == (*self == *other),
    {
        let mut i: usize = 0;
        while i < 32
            invariant
                i <= 32,
                forall|j: int| 0 <= j < i ==> self.bytes[j] == other.bytes[j],
            decreases 32 - i,
        {
            if self.bytes[i] != other.bytes[i] {
                return false;
            }
            i += 1;
        }
        proof {
            vstd::array::axiom_array_ext_equal(self.bytes, other.bytes);
            assert(self.bytes =~= other.bytes);
        }
        true
    }
}

impl StoreKey for Address {
    type Id = Address;

    open spec fn id(&self) -> Address {
        *self
    }

    fn same_key(&self, other: &Self) -> (r: bool) {
        self.is(other)
    }
}

impl StoreKey for u64 {
    type Id = u64;

    open spec fn id(&self) -> u64 {
        *self
    }

    fn same_key(&self, other: &Self) -> (r: bool) {
        *self == *other
    }
}

impl StoreKey for Vec<u8> {
    type Id = Seq<u8>;

    open spec fn id(&self) -> Seq<u8> {
        self@
    }

    fn same_key(&self, other: &Self) -> (r: bool) {
        same_bytes(self.as_slice(), other.as_slice())
    }
}

/// The short name `EGLD`, an older way of naming the native token.
pub open spec fn legacy_native_token() -> Seq<u8> {
    seq![69u8, 71u8, 76u8, 68u8]
}

/// The identifier of the native token, `EGLD-000000`.
pub open spec fn native_token() -> Seq<u8> {
    seq![69u8, 71u8, 76u8, 68u8, 45u8, 48u8, 48u8, 48u8, 48u8, 48u8, 48u8]
}

/// The identifier of the native token, `EGLD-000000`.
pub fn native_token_id() -> (t: Vec<u8>)
    ensures
        t@ == native_token(),
{
    let id: [u8; 11] = [69u8, 71u8, 76u8, 68u8, 45u8, 48u8, 48u8, 48u8, 48u8, 48u8, 48u8];
    let t = copy_bytes(id.as_slice());
    assert(t@ =~= native_token());
    t
}

/// The token that an identifier names: the empty identifier and the short
/// name `EGLD` both name the native token, any other identifier names itself.
pub open spec fn token_named(id: Seq<u8>) -> Seq<u8> {
    if id.len() == 0 || id == legacy_native_token() {
        native_token()
    } else {
        id
    }
}

/// Reads a token identifier, see [`token_named`].
pub fn parse_token(id: &[u8]) -> (t: Vec<u8>)
    ensures
        t@ == token_named(id@),
{
    let legacy: [u8; 4] = [69u8, 71u8, 76u8, 68u8];
    assert(legacy@ =~= legacy_native_token());
    if id.len() == 0 || same_bytes(id, legacy.as_slice()) {
        native_token_id()
    } else {
        copy_bytes(id)
    }
}

/// What a payment is: a token, the nonce within that token, and an amount.
pub struct PaymentView {
    pub token: Seq<u8>,
    pub nonce: u64,
    pub amount: u128,
}

/// A payment of a positive amount of one token.
#[derive(Debug, PartialEq, Eq)]
pub struct Payment {
    token: Vec<u8>,
    nonce: u64,
    amount: u128,
}

impl View for Payment {
    type V = PaymentView;

    closed spec fn view(&self) -> PaymentView {
        PaymentView { token: self.token@, nonce: self.nonce, amount: self.amount }
    }
}

impl Clone for Payment {
    fn clone(&self) -> (p: Payment)
        ensures
            p@ == self@,
    {
        proof {
            use_type_invariant(self);
        }
        Payment { token: copy_bytes(self.token.as_slice()), nonce: self.nonce, amount: self.amount }
    }
}

impl Payment {
    #[verifier::type_invariant]
    spec fn positive(&self) -> bool {
        self.amount > 0
    }

    /// A payment of `amount` units; none when the amount is zero.
    pub fn new(token: Vec<u8>, nonce: u64, amount: u128) -> (p: Option<Payment>)
        ensures
            (amount > 0) == p.is_some(),
            p.is_some() ==> p.unwrap()@ == (PaymentView { token: token@, nonce, amount }),
    {
        if amount == 0 {
            None
        } else {
            Some(Payment { token, nonce, amount })
        }
    }

    pub fn token(&self) -> (t: &Vec<u8>)
        ensures
            t@ == self@.token,
    {
        &self.token
    }

    pub fn nonce(&self) -> (n: u64)
        ensures
            n == self@.nonce,
    {
        self.nonce
    }

    pub fn amount(&self) -> (a: u128)
        ensures
            a == self@.amount,
            a > 0,
    {
        proof {
            use_type_invariant(self);
        }
        self.amount
    }
}

/// An order to move a payment to an account. A ledger hands it out after it
/// has recorded the change that the payment settles.
#[derive(Debug, PartialEq, Eq)]
pub struct Transfer {
    pub to: Address,
    pub payment: Payment,
}

} // verus!
