//! On-chain value types held as plain bytes: 256-bit unsigned integers,
//! 20-byte addresses and 32-byte hashes. Arithmetic, hashing and the
//! checksummed address form come from `alloy`; everything else is proved here.

use vstd::prelude::*;
use crate::text::{ascii_lower_seq, decimal, hex_string, prefixed_hex};

verus! {

/// The big-endian unsigned value of a byte sequence.
pub open spec fn be_value(b: Seq<u8>) -> nat
    decreases b.len(),
{
    if b.len() == 0 {
        0
    } else {
        be_value(b.drop_last()) * 256 + b.last() as nat
    }
}

/// `2^256 - 1`, the largest 256-bit unsigned value.
pub open spec fn u256_max() -> nat {
    0xffff_ffff_ffff_ffff_ffff_ffff_ffff_ffff_ffff_ffff_ffff_ffff_ffff_ffff_ffff_ffffnat
}

/// Product of two 256-bit values, clamped to [`u256_max`].
pub open spec fn saturating_product(a: nat, b: nat) -> nat {
    if a * b > u256_max() {
        u256_max()
    } else {
        a * b
    }
}

/// Keccak-256 digest of a byte string.
pub uninterp spec fn keccak(data: Seq<u8>) -> Seq<u8>;

/// The EIP-55 checksummed text of a 20-byte address.
pub uninterp spec fn checksum_text(addr: Seq<u8>) -> Seq<char>;

/// The message of the error that parsing `s` as an address fails with.
pub uninterp spec fn address_parse_error(s: Seq<char>) -> Seq<char>;

/// The value of a hex digit of either case, or nothing.
pub open spec fn hex_value(c: char) -> Option<nat> {
    if '0' <= c <= '9' {
        Some((c as int - '0' as int) as nat)
    } else if 'a' <= c <= 'f' {
        Some((c as int - 'a' as int + 10) as nat)
    } else if 'A' <= c <= 'F' {
        Some((c as int - 'A' as int + 10) as nat)
    } else {
        None
    }
}

/// The digits after an optional `0x` or `0X` prefix.
pub open spec fn hex_body(s: Seq<char>) -> Seq<char> {
    if s.len() >= 2 && s[0] == '0' && (s[1] == 'x' || s[1] == 'X') {
        s.subrange(2, s.len() as int)
    } else {
        s
    }
}

/// `s` is forty hex digits, of either case, after an optional prefix.
pub open spec fn is_address_text(s: Seq<char>) -> bool {
    let b = hex_body(s);
    b.len() == 40 && forall|i: int| 0 <= i < 40 ==> hex_value(b[i]) is Some
}

/// The bytes spelled by consecutive pairs of hex digits, high digit first.
pub open spec fn hex_bytes(b: Seq<char>) -> Seq<u8> {
    Seq::new(
        b.len() / 2,
        |i: int| (hex_value(b[2 * i])->0 * 16 + hex_value(b[2 * i + 1])->0) as u8,
    )
}

/// The largest value `n` big-endian bytes can hold.
spec fn be_cap(n: nat) -> nat
    decreases n,
{
    if n == 0 {
        0
    } else {
        be_cap((n - 1) as nat) * 256 + 255
    }
}

proof fn lemma_be_value_cap(b: Seq<u8>)
    ensures
        be_value(b) <= be_cap(b.len()),
    decreases b.len(),
{
    if b.len() > 0 {
        lemma_be_value_cap(b.drop_last());
    }
}

/// A 256-bit value is at most [`u256_max`].
pub proof fn lemma_u256_bound(v: U256)
    ensures
        v.value() <= u256_max(),
{
    lemma_be_value_cap(v.be@);
    assert(be_cap(32) == u256_max()) by {
        reveal_with_fuel(be_cap, 33);
    }
}

/// `ruint::Uint::saturating_mul` on 256-bit big-endian values.
#[verifier::external_body]
fn u256_saturating_mul(a: &[u8; 32], b: &[u8; 32]) -> (r: [u8; 32])
    ensures
        be_value(r@) == saturating_product(be_value(a@), be_value(b@)),
{
    let x = alloy::primitives::U256::from_be_bytes(*a);
    let y = alloy::primitives::U256::from_be_bytes(*b);
    x.saturating_mul(y).to_be_bytes::<32>()
}

/// `ruint::Uint` division (`/`) on 256-bit big-endian values; it panics on a
/// zero divisor, which `requires` rules out.
#[verifier::external_body]
fn u256_div(a: &[u8; 32], b: &[u8; 32]) -> (r: [u8; 32])
    requires
        be_value(b@) != 0,
    ensures
        be_value(r@) == be_value(a@) / be_value(b@),
{
    let x = alloy::primitives::U256::from_be_bytes(*a);
    let y = alloy::primitives::U256::from_be_bytes(*b);
    (x / y).to_be_bytes::<32>()
}

/// `ruint::Uint::checked_rem`: the remainder, or nothing for a zero divisor.
#[verifier::external_body]
fn u256_checked_rem(a: &[u8; 32], b: &[u8; 32]) -> (r: Option<[u8; 32]>)
    ensures
        be_value(b@) == 0 <==> r is None,
        r matches Some(v) ==> be_value(v@) == be_value(a@) % be_value(b@),
{
    let x = alloy::primitives::U256::from_be_bytes(*a);
    let y = alloy::primitives::U256::from_be_bytes(*b);
    match x.checked_rem(y) {
        Some(v) => Some(v.to_be_bytes::<32>()),
        None => None,
    }
}

/// `ruint::Uint::checked_add`: the sum, or nothing when it overflows.
#[verifier::external_body]
fn u256_checked_add(a: &[u8; 32], b: &[u8; 32]) -> (r: Option<[u8; 32]>)
    ensures
        be_value(a@) + be_value(b@) > u256_max() <==> r is None,
        r matches Some(v) ==> be_value(v@) == be_value(a@) + be_value(b@),
{
    let x = alloy::primitives::U256::from_be_bytes(*a);
    let y = alloy::primitives::U256::from_be_bytes(*b);
    match x.checked_add(y) {
        Some(v) => Some(v.to_be_bytes::<32>()),
        None => None,
    }
}

/// `ruint::Uint::checked_sub`: the difference, or nothing when it would be
/// negative.
#[verifier::external_body]
fn u256_checked_sub(a: &[u8; 32], b: &[u8; 32]) -> (r: Option<[u8; 32]>)
    ensures
        be_value(a@) < be_value(b@) <==> r is None,
        r matches Some(v) ==> be_value(v@) == be_value(a@) - be_value(b@),
{
    let x = alloy::primitives::U256::from_be_bytes(*a);
    let y = alloy::primitives::U256::from_be_bytes(*b);
    match x.checked_sub(y) {
        Some(v) => Some(v.to_be_bytes::<32>()),
        None => None,
    }
}

/// `ruint::Uint::checked_mul`: the product, or nothing when it overflows.
#[verifier::external_body]
fn u256_checked_mul(a: &[u8; 32], b: &[u8; 32]) -> (r: Option<[u8; 32]>)
    ensures
        be_value(a@) * be_value(b@) > u256_max() <==> r is None,
        r matches Some(v) ==> be_value(v@) == be_value(a@) * be_value(b@),
{
    let x = alloy::primitives::U256::from_be_bytes(*a);
    let y = alloy::primitives::U256::from_be_bytes(*b);
    match x.checked_mul(y) {
        Some(v) => Some(v.to_be_bytes::<32>()),
        None => None,
    }
}

/// `ruint::Uint::is_zero`.
#[verifier::external_body]
fn u256_is_zero(a: &[u8; 32]) -> (r: bool)
    ensures
        r == (be_value(a@) == 0),
{
    alloy::primitives::U256::from_be_bytes(*a).is_zero()
}

/// `u32::try_from` a 256-bit value: the value when it fits, else nothing.
#[verifier::external_body]
fn u256_to_u32(a: &[u8; 32]) -> (r: Option<u32>)
    ensures
        be_value(a@) <= u32::MAX ==> r == Some(be_value(a@) as u32),
        be_value(a@) > u32::MAX ==> r is None,
{
    u32::try_from(alloy::primitives::U256::from_be_bytes(*a)).ok()
}

/// `ruint::Uint::from(u128)`, as big-endian bytes.
#[verifier::external_body]
fn u256_from_u128(v: u128) -> (r: [u8; 32])
    ensures
        be_value(r@) == v as nat,
{
    alloy::primitives::U256::from(v).to_be_bytes::<32>()
}

/// `Display` of `ruint::Uint`: the plain decimal digits of the value.
#[verifier::external_body]
fn u256_decimal(a: &[u8; 32]) -> (r: String)
    ensures
        r@ == decimal(be_value(a@)),
{
    alloy::primitives::U256::from_be_bytes(*a).to_string()
}

/// `alloy_primitives::keccak256`.
#[verifier::external_body]
fn keccak256(data: &[u8]) -> (h: [u8; 32])
    ensures
        h@ == keccak(data@),
{
    alloy::primitives::keccak256(data).0
}

/// `Display` of `alloy_primitives::Address`: `0x` and forty hex digits,
/// some letters uppercased by the EIP-55 checksum. Lowercasing its letters
/// gives back the plain lowercase hex form.
#[verifier::external_body]
fn address_checksum(a: &[u8; 20]) -> (r: String)
    ensures
        r@ == checksum_text(a@),
        r@.len() == 42,
        ascii_lower_seq(r@) == prefixed_hex(a@),
{
    alloy::primitives::Address::from(*a).to_string()
}

/// `str::parse::<alloy_primitives::Address>` (hex decoding by `const_hex`):
/// forty hex digits of either case after an optional `0x` / `0X` prefix
/// give the address they spell; anything else is an error, here rendered by
/// its `Display`. Which of the decoder's messages comes out is left to the
/// name [`address_parse_error`].
#[verifier::external_body]
fn address_parse(s: &str) -> (r: Result<[u8; 20], String>)
    ensures
        r is Ok <==> is_address_text(s@),
        r matches Ok(a) ==> a@ == hex_bytes(hex_body(s@)),
        r matches Err(e) ==> e@ == address_parse_error(s@),
{
    match s.parse::<alloy::primitives::Address>() {
        Ok(a) => Ok(a.0.0),
        Err(e) => Err(e.to_string()),
    }
}

/// A 256-bit unsigned integer, stored big-endian.
#[derive(Clone, Copy, Debug)]
pub struct U256 {
    pub be: [u8; 32],
}

impl U256 {
    /// The integer this value stands for.
    pub open spec fn value(self) -> nat {
        be_value(self.be@)
    }

    /// The value with the given big-endian bytes.
    pub fn from_be_bytes(be: [u8; 32]) -> (r: U256)
        ensures
            r.be == be,
    {
        U256 { be }
    }

    /// Widens a `u128`.
    pub fn from_u128(v: u128) -> (r: U256)
        ensures
            r.value() == v,
    {
        U256 { be: u256_from_u128(v) }
    }

    pub fn is_zero(&self) -> (r: bool)
        ensures
            r == (self.value() == 0),
    {
        u256_is_zero(&self.be)
    }

    /// `self * rhs`, clamped at the largest 256-bit value.
    pub fn saturating_mul(&self, rhs: &U256) -> (r: U256)
        ensures
            r.value() == saturating_product(self.value(), rhs.value()),
    {
        U256 { be: u256_saturating_mul(&self.be, &rhs.be) }
    }

    /// Floor division.
    pub fn div(&self, rhs: &U256) -> (r: U256)
        requires
            rhs.value() != 0,
        ensures
            r.value() == self.value() / rhs.value(),
    {
        U256 { be: u256_div(&self.be, &rhs.be) }
    }

    /// `self % rhs`, or `None` for a zero divisor.
    pub fn checked_rem(&self, rhs: &U256) -> (r: Option<U256>)
        ensures
            rhs.value() == 0 <==> r is None,
            r matches Some(v) ==> v.value() == self.value() % rhs.value(),
    {
        match u256_checked_rem(&self.be, &rhs.be) {
            Some(be) => Some(U256 { be }),
            None => None,
        }
    }

    /// `self + rhs`, or `None` when it exceeds 256 bits.
    pub fn checked_add(&self, rhs: &U256) -> (r: Option<U256>)
        ensures
            self.value() + rhs.value() > u256_max() <==> r is None,
            r matches Some(v) ==> v.value() == self.value() + rhs.value(),
    {
        match u256_checked_add(&self.be, &rhs.be) {
            Some(be) => Some(U256 { be }),
            None => None,
        }
    }

    /// `self - rhs`, or `None` when `rhs` is larger.
    pub fn checked_sub(&self, rhs: &U256) -> (r: Option<U256>)
        ensures
            self.value() < rhs.value() <==> r is None,
            r matches Some(v) ==> v.value() == self.value() - rhs.value(),
    {
        match u256_checked_sub(&self.be, &rhs.be) {
            Some(be) => Some(U256 { be }),
            None => None,
        }
    }

    /// `self * rhs`, or `None` when it exceeds 256 bits.
    pub fn checked_mul(&self, rhs: &U256) -> (r: Option<U256>)
        ensures
            self.value() * rhs.value() > u256_max() <==> r is None,
            r matches Some(v) ==> v.value() == self.value() * rhs.value(),
    {
        match u256_checked_mul(&self.be, &rhs.be) {
            Some(be) => Some(U256 { be }),
            None => None,
        }
    }

    /// The value as a `u32`, or `None` when it does not fit.
    pub fn to_u32(&self) -> (r: Option<u32>)
        ensures
            self.value() <= u32::MAX ==> r == Some(self.value() as u32),
            self.value() > u32::MAX ==> r is None,
    {
        u256_to_u32(&self.be)
    }

    /// Decimal digits of the value, without leading zeros.
    pub fn to_decimal_string(&self) -> (r: String)
        ensures
            r@ == decimal(self.value()),
    {
        u256_decimal(&self.be)
    }
}

/// A 20-byte account or contract address.
#[derive(Clone, Copy, Debug)]
pub struct Address {
    pub bytes: [u8; 20],
}

impl Address {
    /// The address held in the low 20 bytes of an ABI word.
    pub fn from_word(word: &[u8; 32]) -> (r: Address)
        ensures
            r.bytes@ == word@.subrange(12, 32),
    {
        let mut bytes = [0u8; 20];
        let mut i: usize = 0;
        while i < 20
            invariant
                i <= 20,
                forall|k: int| 0 <= k < i ==> bytes@[k] == word@[12 + k],
            decreases 20 - i,
        {
            bytes[i] = word[12 + i];
            i = i + 1;
        }
        assert(bytes@ =~= word@.subrange(12, 32));
        Address { bytes }
    }

    /// Byte-wise equality.
    pub fn same(&self, other: &Address) -> (r: bool)
        ensures
            r == (self.bytes@ == other.bytes@),
    {
        let mut i: usize = 0;
        while i < 20
            invariant
                i <= 20,
                forall|k: int| 0 <= k < i ==> self.bytes@[k] == other.bytes@[k],
            decreases 20 - i,
        {
            if self.bytes[i] != other.bytes[i] {
                return false;
            }
            i = i + 1;
        }
        assert(self.bytes@ =~= other.bytes@);
        true
    }

    /// The EIP-55 checksummed `0x…` form.
    pub fn to_checksum_string(&self) -> (r: String)
        ensures
            r@ == checksum_text(self.bytes@),
            r@.len() == 42,
            ascii_lower_seq(r@) == prefixed_hex(self.bytes@),
    {
        address_checksum(&self.bytes)
    }

    /// Parses `0x`-prefixed or bare hex; `Err` carries the parser's message.
    pub fn parse(s: &str) -> (r: Result<Address, String>)
        ensures
            r is Ok <==> is_address_text(s@),
            r matches Ok(a) ==> a.bytes@ == hex_bytes(hex_body(s@)),
            r matches Err(e) ==> e@ == address_parse_error(s@),
    {
        match address_parse(s) {
            Ok(bytes) => Ok(Address { bytes }),
            Err(e) => Err(e),
        }
    }
}

/// A 32-byte hash or log topic.
#[derive(Clone, Copy, Debug)]
pub struct B256 {
    pub bytes: [u8; 32],
}

impl B256 {
    /// `0x` and 64 lowercase hex digits.
    pub fn to_hex_string(&self) -> (r: String)
        ensures
            r@ == prefixed_hex(self.bytes@),
    {
        hex_string(&self.bytes)
    }

    /// Byte-wise equality.
    pub fn eq(&self, other: &B256) -> (r: bool)
        ensures
            r == (self.bytes@ == other.bytes@),
    {
        let mut i: usize = 0;
        while i < 32
            invariant
                i <= 32,
                forall|k: int| 0 <= k < i ==> self.bytes@[k] == other.bytes@[k],
            decreases 32 - i,
        {
            if self.bytes[i] != other.bytes[i] {
                return false;
            }
            i = i + 1;
        }
        assert(self.bytes@ =~= other.bytes@);
        true
    }
}

/// The Keccak-256 digest of `data`.
pub fn keccak_digest(data: &[u8]) -> (h: B256)
    ensures
        h.bytes@ == keccak(data@),
{
    B256 { bytes: keccak256(data) }
}

} // verus!
