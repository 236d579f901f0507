//! The message that a voucher's signature covers.
//!
//! A voucher is signed over the host's serialization of the account, the
//! badge type where the voucher names one, the nonce and the expiry, in this
//! order.

use crate::address::Address;
use soroban_sdk::xdr::{AccountId, Limits, PublicKey, ScAddress, ScVal, Uint256, WriteXdr};
use vstd::prelude::*;

verus! {

/// Byte `i` of `x`, counted from the most significant.
pub open spec fn spec_byte(x: u128, i: int) -> u8 {
    ((x >> ((8 * (15 - i)) as u128)) & 0xff) as u8
}

/// The sixteen bytes of `x`, most significant first.
pub open spec fn spec_be_bytes(x: u128) -> Seq<u8> {
    Seq::new(16, |i: int| spec_byte(x, i))
}

/// The 32 bytes of an address's identifier.
pub open spec fn spec_key(address: Address) -> Seq<u8> {
    spec_be_bytes(address.hi) + spec_be_bytes(address.lo)
}

/// A value that goes into a voucher's message.
#[derive(Clone, Copy, Debug)]
pub enum Field {
    /// An unsigned 64-bit number.
    U64(u64),
    /// The address of an account, by its 32 bytes.
    Account([u8; 32]),
    /// The address of a contract, by its 32 bytes.
    Contract([u8; 32]),
}

/// The host's serialization of a value: its type tag in four bytes, then the
/// value. A number follows its tag most significant byte first. An address
/// follows its tag with its kind in four bytes, for an account with the kind
/// of its key in four more, and then its 32 bytes.
pub open spec fn spec_xdr(field: Field) -> Seq<u8> {
    match field {
        Field::U64(n) => seq![0u8, 0u8, 0u8, 5u8] + spec_be_bytes(n as u128).subrange(8, 16),
        Field::Account(key) => seq![
            0u8,
            0u8,
            0u8,
            18u8,
            0u8,
            0u8,
            0u8,
            0u8,
            0u8,
            0u8,
            0u8,
            0u8,
        ] + key@,
        Field::Contract(key) => seq![0u8, 0u8, 0u8, 18u8, 0u8, 0u8, 0u8, 1u8] + key@,
    }
}

/// `WriteXdr::to_xdr` of `soroban_sdk::xdr`, on the `ScVal` that stands for
/// the field, without limits. The claim is the byte layout that XDR gives
/// such a value: a four-byte discriminant (5 for `U64`, 18 for `Address`),
/// then a `u64` in eight bytes, most significant first, or an `ScAddress`
/// as its own discriminant (0 account, 1 contract), for an account the
/// discriminant 0 of its ed25519 key, and the 32 bytes.
#[verifier::external_body]
fn to_xdr(field: &Field) -> (r: Vec<u8>)
    ensures
        r@ == spec_xdr(*field),
{
    let val = match *field {
        Field::U64(n) => ScVal::U64(n),
        Field::Account(key) => ScVal::Address(
            ScAddress::Account(AccountId(PublicKey::PublicKeyTypeEd25519(Uint256(key)))),
        ),
        Field::Contract(key) => ScVal::Address(ScAddress::Contract(soroban_sdk::xdr::Hash(key))),
    };
    val.to_xdr(Limits::none()).unwrap_or_default()
}

/// Byte `i` of `x`, counted from the most significant.
fn byte_of(x: u128, i: usize) -> (r: u8)
    requires
        i < 16,
    ensures
        r == spec_byte(x, i as int),
{
    let shift: u128 = (8 * (15 - i)) as u128;
    let v: u128 = (x >> shift) & 0xff;
    assert(v <= 0xff) by (bit_vector)
        requires
            v == (x >> shift) & 0xff,
    ;
    v as u8
}

/// The 32 bytes of an address's identifier.
pub fn key_of(address: &Address) -> (r: [u8; 32])
    ensures
        r@ == spec_key(*address),
{
    let mut key = [0u8; 32];
    let mut i: usize = 0;
    while i < 16
        invariant
            i <= 16,
            forall|j: int| 0 <= j < i ==> key@[j] == spec_byte(address.hi, j),
            forall|j: int| 0 <= j < i ==> key@[j + 16] == spec_byte(address.lo, j),
        decreases 16 - i,
    {
        key[i] = byte_of(address.hi, i);
        key[i + 16] = byte_of(address.lo, i);
        i += 1;
    }
    assert(key@ =~= spec_key(*address));
    key
}

/// The field that stands for an address.
pub open spec fn spec_address_field(address: Address) -> Seq<u8> {
    if address.contract {
        seq![0u8, 0u8, 0u8, 18u8, 0u8, 0u8, 0u8, 1u8] + spec_key(address)
    } else {
        seq![0u8, 0u8, 0u8, 18u8, 0u8, 0u8, 0u8, 0u8, 0u8, 0u8, 0u8, 0u8] + spec_key(address)
    }
}

/// The serialization of a number.
pub open spec fn spec_number_field(n: u64) -> Seq<u8> {
    seq![0u8, 0u8, 0u8, 5u8] + spec_be_bytes(n as u128).subrange(8, 16)
}

/// The serialization of an address.
fn address_field(address: &Address) -> (r: Vec<u8>)
    ensures
        r@ == spec_address_field(*address),
{
    let key = key_of(address);
    if address.contract {
        to_xdr(&Field::Contract(key))
    } else {
        to_xdr(&Field::Account(key))
    }
}

/// The message under the signature of a voucher for self-registration: the
/// caller, the nonce and the expiry.
pub fn self_register_payload(caller: &Address, nonce: u64, expiry: u64) -> (r: Vec<u8>)
    ensures
        r@ == spec_address_field(*caller) + spec_number_field(nonce) + spec_number_field(expiry),
{
    let mut payload = address_field(caller);
    let mut nonce_field = to_xdr(&Field::U64(nonce));
    let mut expiry_field = to_xdr(&Field::U64(expiry));
    payload.append(&mut nonce_field);
    payload.append(&mut expiry_field);
    payload
}

/// The message under the signature of a voucher for a badge: the account,
/// the badge type, the nonce and the expiry.
pub fn guardian_mint_payload(account: &Address, valor_id: u64, nonce: u64, expiry: u64) -> (r:
    Vec<u8>)
    ensures
        r@ == spec_address_field(*account) + spec_number_field(valor_id) + spec_number_field(nonce)
            + spec_number_field(expiry),
{
    let mut payload = address_field(account);
    let mut valor_field = to_xdr(&Field::U64(valor_id));
    let mut nonce_field = to_xdr(&Field::U64(nonce));
    let mut expiry_field = to_xdr(&Field::U64(expiry));
    payload.append(&mut valor_field);
    payload.append(&mut nonce_field);
    payload.append(&mut expiry_field);
    payload
}

} // verus!
