//! The two fixed-width values of a call: 256-bit unsigned integers and
//! 20-byte addresses, and how each is read from hexadecimal text.

use vstd::prelude::*;
use crate::hex::{
    bad_character_text, bad_length_text, first_bad_from, hex_bytes, hex_error_text, is_hex_blank,
    is_hex_text,
};

verus! {

/// Two to the power 64: the weight of one limb against the one below it.
pub open spec fn limb_base() -> nat {
    0x1_0000_0000_0000_0000
}

/// The number that four limbs stand for, the lowest limb first.
pub open spec fn limbs_value(l: Seq<u64>) -> nat {
    l[0] as nat + limb_base() * (l[1] as nat + limb_base() * (l[2] as nat + limb_base()
        * (l[3] as nat)))
}

/// The number that a sequence of bytes stands for, the highest byte first.
pub open spec fn big_endian_value(b: Seq<u8>) -> nat
    decreases b.len(),
{
    if b.len() == 0 {
        0
    } else {
        big_endian_value(b.drop_last()) * 256 + b.last() as nat
    }
}

/// The text as the integer parser decodes it: a text of odd length gets a
/// `0` in front. The length is counted in characters here; in a text that
/// decodes every character is one byte.
pub open spec fn padded_hex(s: Seq<char>) -> Seq<char> {
    if s.len() % 2 == 0 {
        s
    } else {
        seq!['0'] + s
    }
}

/// A text that the integer parser can take: if it decodes at all, it
/// decodes to at most 32 bytes.
pub open spec fn fits_u256(s: Seq<char>) -> bool {
    is_hex_text(padded_hex(s)) ==> hex_bytes(padded_hex(s)).len() <= 32
}

/// A text that stands for an address: it decodes to exactly 20 bytes.
pub open spec fn is_address_text(s: Seq<char>) -> bool {
    is_hex_text(s) && hex_bytes(s).len() == 20
}

/// The complaint about a text that is no integer. The parser counts the
/// bytes of the text, not its characters, when it decides on the `0` in
/// front, so a character that has no place in the text is reported one
/// position further on where the text has an odd number of bytes.
pub open spec fn u256_error_text(s: Seq<char>) -> Seq<char> {
    let i = first_bad_from(s, 0);
    if i < s.len() {
        bad_character_text(s[i], (i + vstd::utf8::encode_utf8(s).len() % 2) as nat)
    } else {
        bad_length_text()
    }
}

/// The complaint about a text that is no address: that of decoding or,
/// where the text decodes, one about its length.
pub open spec fn address_error_text(s: Seq<char>) -> Seq<char> {
    if is_hex_text(s) {
        bad_length_text()
    } else {
        hex_error_text(s)
    }
}

/// An unsigned integer of 256 bits, held as four limbs of 64 bits, the
/// lowest first.
#[derive(Clone, Copy, Debug, PartialEq, Eq)]
pub struct U256 {
    pub limbs: [u64; 4],
}

impl View for U256 {
    type V = nat;

    open spec fn view(&self) -> nat {
        limbs_value(self.limbs@)
    }
}

/// An address: 20 bytes.
#[derive(Clone, Copy, Debug, PartialEq, Eq)]
pub struct Address {
    pub bytes: [u8; 20],
}

impl View for Address {
    type V = Seq<u8>;

    open spec fn view(&self) -> Seq<u8> {
        self.bytes@
    }
}

/// Calls `str::parse` for `ethereum_types::U256`. The parser puts a `0`
/// before a text of odd length, decodes the text as `rustc_hex` does and
/// reads the bytes as a number, the highest byte first; more than 32 bytes
/// make it panic, so those texts are left out. The error of decoding comes
/// back as the text that its `Display` writes.
#[verifier::external_body]
pub(crate) fn parse_u256(s: &str) -> (r: Result<U256, String>)
    requires
        fits_u256(s@),
    ensures
        is_hex_text(padded_hex(s@)) ==> r is Ok && r->Ok_0@ == big_endian_value(
            hex_bytes(padded_hex(s@)),
        ),
        !is_hex_text(padded_hex(s@)) ==> r is Err && r->Err_0@ == u256_error_text(s@),
{
    match s.parse::<ethereum_types::U256>() {
        Ok(v) => Ok(U256 { limbs: v.0 }),
        Err(e) => Err(format!("{}", e)),
    }
}

/// Calls `str::parse` for `ethereum_types::Address`. The parser decodes the
/// text as `rustc_hex` does and takes the bytes if there are exactly 20 of
/// them; any other number is reported as a wrong length. The error comes
/// back as the text that its `Display` writes.
#[verifier::external_body]
pub(crate) fn parse_address(s: &str) -> (r: Result<Address, String>)
    ensures
        is_address_text(s@) ==> r is Ok && r->Ok_0@ == hex_bytes(s@),
        !is_address_text(s@) ==> r is Err && r->Err_0@ == address_error_text(s@),
{
    match s.parse::<ethereum_types::Address>() {
        Ok(a) => Ok(Address { bytes: a.0 }),
        Err(e) => Err(format!("{}", e)),
    }
}

/// Whether the text has at most 64 characters, the width of a 256-bit
/// integer in hexadecimal digits. The integer parser can take every such
/// text.
pub fn within_u256_width(s: &str) -> (r: bool)
    ensures
        r == (s@.len() <= 64),
        r ==> fits_u256(s@),
{
    let r = s.unicode_len() <= 64;
    proof {
        if r {
            padded_hex(s@).lemma_filter_len(|c: char| !is_hex_blank(c));
        }
    }
    r
}

/// One limb of a subtraction: `a - b - borrow`, with the borrow it hands up.
fn sub_limb(a: u64, b: u64, borrow: bool) -> (r: (u64, bool))
    ensures
        r.0 as int - (if r.1 { limb_base() as int } else { 0 }) == a as int - b as int - (if borrow {
            1int
        } else {
            0int
        }),
{
    let carry: u128 = if borrow { 1 } else { 0 };
    let taken: u128 = b as u128 + carry;
    if a as u128 >= taken {
        ((a as u128 - taken) as u64, false)
    } else {
        ((a as u128 + 0x1_0000_0000_0000_0000u128 - taken) as u64, true)
    }
}

impl U256 {
    /// The integer zero.
    pub fn zero() -> (r: U256)
        ensures
            r@ == 0,
    {
        U256 { limbs: [0, 0, 0, 0] }
    }

    /// The 256-bit integer with the value of `v`.
    pub fn from_u64(v: u64) -> (r: U256)
        ensures
            r@ == v as nat,
    {
        U256 { limbs: [v, 0, 0, 0] }
    }

    /// `self - other`, where that is not negative.
    pub fn checked_sub(&self, other: &U256) -> (r: Option<U256>)
        ensures
            self@ >= other@ ==> r is Some && r->Some_0@ == self@ - other@,
            self@ < other@ ==> r is None,
    {
        let (d0, b0) = sub_limb(self.limbs[0], other.limbs[0], false);
        let (d1, b1) = sub_limb(self.limbs[1], other.limbs[1], b0);
        let (d2, b2) = sub_limb(self.limbs[2], other.limbs[2], b1);
        let (d3, b3) = sub_limb(self.limbs[3], other.limbs[3], b2);
        let diff = U256 { limbs: [d0, d1, d2, d3] };
        proof {
            let carry: int = if b3 { 1 } else { 0 };
            let top: int = (limb_base() * (limb_base() * (limb_base() * limb_base()))) as int;
            assert(diff@ as int - carry * top == self@ as int - other@ as int) by {
                assert(limb_base() == 0x1_0000_0000_0000_0000);
            }
            assert(diff@ < top && self@ < top && other@ < top);
        }
        if b3 {
            None
        } else {
            Some(diff)
        }
    }
}

impl Address {
    /// The address of 20 zero bytes.
    pub fn zero() -> (r: Address)
        ensures
            r@ == Seq::new(20, |i: int| 0u8),
    {
        let r = Address { bytes: [0; 20] };
        assert(r@ =~= Seq::new(20, |i: int| 0u8));
        r
    }
}

} // verus!
