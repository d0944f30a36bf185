//! Borsh values: their byte layouts, and reading them off the front of a buffer.
//!
//! The reading itself is done by the `borsh` implementation that `anchor_lang` exports as
//! `AnchorDeserialize`. The `borsh_*` functions make those calls; what they state of them is
//! trusted, not proved.

use crate::error::AccountError;
use crate::pubkey::Pubkey;
use vstd::prelude::*;

verus! {

/// The number that `bytes` stand for, least significant byte first.
pub open spec fn le_value(bytes: Seq<u8>) -> nat
    decreases bytes.len(),
{
    if bytes.len() == 0 {
        0
    } else {
        bytes[0] as nat + 256 * le_value(bytes.skip(1))
    }
}

/// The `size` low bytes of `value`, least significant byte first.
pub open spec fn le_bytes(value: nat, size: nat) -> Seq<u8>
    decreases size,
{
    if size == 0 {
        Seq::empty()
    } else {
        seq![(value % 256) as u8] + le_bytes(value / 256, (size - 1) as nat)
    }
}

/// An optional 16-bit number: a tag byte, and the number where there is one.
pub open spec fn option_u16_bytes(value: Option<u16>) -> Seq<u8> {
    match value {
        None => seq![0u8],
        Some(number) => seq![1u8] + le_bytes(number as nat, 2),
    }
}

/// A truth value: one byte, zero or one.
pub open spec fn bool_bytes(value: bool) -> Seq<u8> {
    seq![if value { 1u8 } else { 0u8 }]
}

/// `le_bytes` has the length it is asked for.
pub broadcast proof fn lemma_le_bytes_len(value: nat, size: nat)
    ensures
        #[trigger] le_bytes(value, size).len() == size,
    decreases size,
{
    if size > 0 {
        lemma_le_bytes_len(value / 256, (size - 1) as nat);
    }
}

/// Writing out the number that some bytes stand for gives those bytes back.
pub proof fn lemma_le_bytes_of_value(bytes: Seq<u8>)
    ensures
        le_bytes(le_value(bytes), bytes.len()) == bytes,
    decreases bytes.len(),
{
    if bytes.len() > 0 {
        let rest = bytes.skip(1);
        lemma_le_bytes_of_value(rest);
        assert((bytes[0] as nat + 256 * le_value(rest)) % 256 == bytes[0]);
        assert((bytes[0] as nat + 256 * le_value(rest)) / 256 == le_value(rest));
        assert(le_bytes(le_value(bytes), bytes.len()) =~= seq![bytes[0]] + rest);
        assert(seq![bytes[0]] + rest =~= bytes);
    } else {
        assert(le_bytes(le_value(bytes), 0) =~= bytes);
    }
}

/// `size` bytes can hold `value`.
pub open spec fn fits(value: nat, size: nat) -> bool
    decreases size,
{
    if size == 0 {
        value == 0
    } else {
        fits(value / 256, (size - 1) as nat)
    }
}

/// Two numbers with the same bytes are equal, where the bytes can hold them.
proof fn lemma_le_bytes_injective(a: nat, b: nat, size: nat)
    requires
        fits(a, size),
        fits(b, size),
        le_bytes(a, size) == le_bytes(b, size),
    ensures
        a == b,
    decreases size,
{
    if size > 0 {
        let rest_a = le_bytes(a / 256, (size - 1) as nat);
        let rest_b = le_bytes(b / 256, (size - 1) as nat);
        assert(le_bytes(a, size)[0] == a % 256);
        assert(le_bytes(b, size)[0] == b % 256);
        assert(le_bytes(a, size).skip(1) =~= rest_a);
        assert(le_bytes(b, size).skip(1) =~= rest_b);
        lemma_le_bytes_injective(a / 256, b / 256, (size - 1) as nat);
    }
}

/// Two 16-bit numbers with the same bytes are equal.
pub proof fn lemma_u16_bytes_injective(a: u16, b: u16)
    requires
        le_bytes(a as nat, 2) == le_bytes(b as nat, 2),
    ensures
        a == b,
{
    reveal_with_fuel(fits, 3);
    lemma_le_bytes_injective(a as nat, b as nat, 2);
}

/// Two 64-bit numbers with the same bytes are equal.
pub proof fn lemma_u64_bytes_injective(a: u64, b: u64)
    requires
        le_bytes(a as nat, 8) == le_bytes(b as nat, 8),
    ensures
        a == b,
{
    reveal_with_fuel(fits, 9);
    lemma_le_bytes_injective(a as nat, b as nat, 8);
}

/// Two 128-bit numbers with the same bytes are equal.
pub proof fn lemma_u128_bytes_injective(a: u128, b: u128)
    requires
        le_bytes(a as nat, 16) == le_bytes(b as nat, 16),
    ensures
        a == b,
{
    reveal_with_fuel(fits, 17);
    lemma_le_bytes_injective(a as nat, b as nat, 16);
}

/// The error with which `borsh` refuses its input.
#[verifier::external_type_specification]
#[verifier::external_body]
pub struct ExIoError(std::io::Error);

/// `u8::deserialize` of `borsh` takes one byte, and fails exactly on an empty buffer.
#[verifier::external_body]
fn borsh_u8(buf: &mut &[u8]) -> (result: Result<u8, std::io::Error>)
    ensures
        result is Ok <==> old(buf)@.len() >= 1,
        result matches Ok(value) ==> value == old(buf)@[0] && final(buf)@ == old(buf)@.skip(1),
{
    <u8 as anchor_lang::AnchorDeserialize>::deserialize(buf)
}

/// `u16::deserialize` of `borsh` takes two bytes, least significant first, and fails exactly when
/// there are fewer.
#[verifier::external_body]
fn borsh_u16(buf: &mut &[u8]) -> (result: Result<u16, std::io::Error>)
    ensures
        result is Ok <==> old(buf)@.len() >= 2,
        result matches Ok(value) ==> value == le_value(old(buf)@.take(2))
            && final(buf)@ == old(buf)@.skip(2),
{
    <u16 as anchor_lang::AnchorDeserialize>::deserialize(buf)
}

/// `u64::deserialize` of `borsh` takes eight bytes, least significant first, and fails exactly
/// when there are fewer.
#[verifier::external_body]
fn borsh_u64(buf: &mut &[u8]) -> (result: Result<u64, std::io::Error>)
    ensures
        result is Ok <==> old(buf)@.len() >= 8,
        result matches Ok(value) ==> value == le_value(old(buf)@.take(8))
            && final(buf)@ == old(buf)@.skip(8),
{
    <u64 as anchor_lang::AnchorDeserialize>::deserialize(buf)
}

/// `u128::deserialize` of `borsh` takes sixteen bytes, least significant first, and fails exactly
/// when there are fewer.
#[verifier::external_body]
fn borsh_u128(buf: &mut &[u8]) -> (result: Result<u128, std::io::Error>)
    ensures
        result is Ok <==> old(buf)@.len() >= 16,
        result matches Ok(value) ==> value == le_value(old(buf)@.take(16))
            && final(buf)@ == old(buf)@.skip(16),
{
    <u128 as anchor_lang::AnchorDeserialize>::deserialize(buf)
}

/// `<[u8; 32]>::deserialize` of `borsh` takes 32 bytes as they are, and fails exactly when there
/// are fewer.
#[verifier::external_body]
fn borsh_bytes32(buf: &mut &[u8]) -> (result: Result<[u8; 32], std::io::Error>)
    ensures
        result is Ok <==> old(buf)@.len() >= 32,
        result matches Ok(value) ==> value@ == old(buf)@.take(32)
            && final(buf)@ == old(buf)@.skip(32),
{
    <[u8; 32] as anchor_lang::AnchorDeserialize>::deserialize(buf)
}

/// `deserialize` of `anchor_lang`'s `Pubkey` takes the 32 bytes of the address, and fails exactly
/// when there are fewer.
#[verifier::external_body]
fn borsh_pubkey(buf: &mut &[u8]) -> (result: Result<Pubkey, std::io::Error>)
    ensures
        result is Ok <==> old(buf)@.len() >= 32,
        result matches Ok(key) ==> key@ == old(buf)@.take(32) && final(buf)@ == old(buf)@.skip(32),
{
    <anchor_lang::prelude::Pubkey as anchor_lang::AnchorDeserialize>::deserialize(buf).map(
        |key| Pubkey { bytes: key.to_bytes() },
    )
}

/// `bool::deserialize` of `borsh` takes one byte, one for true and zero for false, and fails
/// exactly on an empty buffer or another byte.
#[verifier::external_body]
fn borsh_bool(buf: &mut &[u8]) -> (result: Result<bool, std::io::Error>)
    ensures
        result is Ok <==> old(buf)@.len() >= 1 && old(buf)@[0] <= 1,
        result matches Ok(value) ==> value == (old(buf)@[0] == 1)
            && final(buf)@ == old(buf)@.skip(1),
{
    <bool as anchor_lang::AnchorDeserialize>::deserialize(buf)
}

/// `Option::<u16>::deserialize` of `borsh` takes a tag byte, zero for `None`; after the tag one
/// it takes the two bytes of the number. It fails exactly on another tag and where the buffer
/// ends too early.
#[verifier::external_body]
fn borsh_option_u16(buf: &mut &[u8]) -> (result: Result<Option<u16>, std::io::Error>)
    ensures
        result is Ok <==> old(buf)@.len() >= 1 && (old(buf)@[0] == 0 || old(buf)@[0] == 1
            && old(buf)@.len() >= 3),
        result matches Ok(None) ==> old(buf)@[0] == 0 && final(buf)@ == old(buf)@.skip(1),
        result matches Ok(Some(value)) ==> old(buf)@[0] == 1
            && value == le_value(old(buf)@.subrange(1, 3)) && final(buf)@ == old(buf)@.skip(3),
{
    <Option<u16> as anchor_lang::AnchorDeserialize>::deserialize(buf)
}

/// Takes one byte.
pub(crate) fn read_u8(buf: &mut &[u8]) -> (result: Result<u8, AccountError>)
    ensures
        result is Ok <==> old(buf)@.len() >= 1,
        result matches Err(e) ==> e == AccountError::UnexpectedLength,
        result matches Ok(value) ==> old(buf)@ == seq![value] + final(buf)@,
{
    match borsh_u8(buf) {
        Ok(value) => {
            assert(old(buf)@ =~= seq![value] + buf@);
            Ok(value)
        },
        Err(_) => Err(AccountError::UnexpectedLength),
    }
}

/// Takes a 16-bit number.
pub(crate) fn read_u16(buf: &mut &[u8]) -> (result: Result<u16, AccountError>)
    ensures
        result is Ok <==> old(buf)@.len() >= 2,
        result matches Err(e) ==> e == AccountError::UnexpectedLength,
        result matches Ok(value) ==> old(buf)@ == le_bytes(value as nat, 2) + final(buf)@,
{
    match borsh_u16(buf) {
        Ok(value) => {
            proof {
                lemma_le_bytes_of_value(old(buf)@.take(2));
            }
            assert(old(buf)@ =~= le_bytes(value as nat, 2) + buf@);
            Ok(value)
        },
        Err(_) => Err(AccountError::UnexpectedLength),
    }
}

/// Takes a 64-bit number.
pub(crate) fn read_u64(buf: &mut &[u8]) -> (result: Result<u64, AccountError>)
    ensures
        result is Ok <==> old(buf)@.len() >= 8,
        result matches Err(e) ==> e == AccountError::UnexpectedLength,
        result matches Ok(value) ==> old(buf)@ == le_bytes(value as nat, 8) + final(buf)@,
{
    match borsh_u64(buf) {
        Ok(value) => {
            proof {
                lemma_le_bytes_of_value(old(buf)@.take(8));
            }
            assert(old(buf)@ =~= le_bytes(value as nat, 8) + buf@);
            Ok(value)
        },
        Err(_) => Err(AccountError::UnexpectedLength),
    }
}

/// Takes a 128-bit number.
pub(crate) fn read_u128(buf: &mut &[u8]) -> (result: Result<u128, AccountError>)
    ensures
        result is Ok <==> old(buf)@.len() >= 16,
        result matches Err(e) ==> e == AccountError::UnexpectedLength,
        result matches Ok(value) ==> old(buf)@ == le_bytes(value as nat, 16) + final(buf)@,
{
    match borsh_u128(buf) {
        Ok(value) => {
            proof {
                lemma_le_bytes_of_value(old(buf)@.take(16));
            }
            assert(old(buf)@ =~= le_bytes(value as nat, 16) + buf@);
            Ok(value)
        },
        Err(_) => Err(AccountError::UnexpectedLength),
    }
}

/// Takes 32 bytes.
pub(crate) fn read_bytes32(buf: &mut &[u8]) -> (result: Result<[u8; 32], AccountError>)
    ensures
        result is Ok <==> old(buf)@.len() >= 32,
        result matches Err(e) ==> e == AccountError::UnexpectedLength,
        result matches Ok(value) ==> old(buf)@ == value@ + final(buf)@,
{
    match borsh_bytes32(buf) {
        Ok(value) => {
            assert(old(buf)@ =~= value@ + buf@);
            Ok(value)
        },
        Err(_) => Err(AccountError::UnexpectedLength),
    }
}

/// Takes an address.
pub(crate) fn read_pubkey(buf: &mut &[u8]) -> (result: Result<Pubkey, AccountError>)
    ensures
        result is Ok <==> old(buf)@.len() >= 32,
        result matches Err(e) ==> e == AccountError::UnexpectedLength,
        result matches Ok(key) ==> old(buf)@ == key@ + final(buf)@,
{
    match borsh_pubkey(buf) {
        Ok(key) => {
            assert(old(buf)@ =~= key@ + buf@);
            Ok(key)
        },
        Err(_) => Err(AccountError::UnexpectedLength),
    }
}

/// Takes a truth value. A byte above one is refused and named.
pub(crate) fn read_bool(buf: &mut &[u8]) -> (result: Result<bool, AccountError>)
    ensures
        result is Ok <==> old(buf)@.len() >= 1 && old(buf)@[0] <= 1,
        result matches Err(e) ==> e == if old(buf)@.len() == 0 {
            AccountError::UnexpectedLength
        } else {
            AccountError::InvalidBool(old(buf)@[0])
        },
        result matches Ok(value) ==> old(buf)@ == bool_bytes(value) + final(buf)@,
{
    if buf.len() == 0 {
        return Err(AccountError::UnexpectedLength);
    }
    let byte: u8 = buf[0];
    match borsh_bool(buf) {
        Ok(value) => {
            assert(old(buf)@ =~= bool_bytes(value) + buf@);
            Ok(value)
        },
        Err(_) => Err(AccountError::InvalidBool(byte)),
    }
}

/// Takes an optional 16-bit number. A tag above one is refused and named.
pub(crate) fn read_option_u16(buf: &mut &[u8]) -> (result: Result<Option<u16>, AccountError>)
    ensures
        result is Ok <==> old(buf)@.len() >= 1 && (old(buf)@[0] == 0 || old(buf)@[0] == 1
            && old(buf)@.len() >= 3),
        result matches Err(e) ==> e == if old(buf)@.len() >= 1 && old(buf)@[0] > 1 {
            AccountError::InvalidOption(old(buf)@[0])
        } else {
            AccountError::UnexpectedLength
        },
        result matches Ok(value) ==> old(buf)@ == option_u16_bytes(value) + final(buf)@,
{
    if buf.len() == 0 {
        return Err(AccountError::UnexpectedLength);
    }
    let tag: u8 = buf[0];
    match borsh_option_u16(buf) {
        Ok(value) => {
            proof {
                if let Some(number) = value {
                    lemma_le_bytes_of_value(old(buf)@.subrange(1, 3));
                }
            }
            assert(old(buf)@ =~= option_u16_bytes(value) + buf@);
            Ok(value)
        },
        Err(_) => {
            if tag > 1 {
                Err(AccountError::InvalidOption(tag))
            } else {
                Err(AccountError::UnexpectedLength)
            }
        },
    }
}

} // verus!
