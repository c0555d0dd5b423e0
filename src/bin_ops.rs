use vstd::prelude::*;
use byteorder::{BigEndian, ByteOrder, LittleEndian};

verus! {

/// `n` rounded up to the next multiple of `m`.
pub open spec fn rounded_up(n: int, m: int) -> int {
    if n % m == 0 {
        n
    } else {
        n + m - n % m
    }
}

/// Rounds `num_to_round` up to the next multiple of `multiple`.
pub fn round_to_multiple(num_to_round: usize, multiple: usize) -> (r: usize)
    requires
        multiple > 0,
        rounded_up(num_to_round as int, multiple as int) <= usize::MAX,
    ensures
        r == rounded_up(num_to_round as int, multiple as int),
        r % multiple == 0,
        num_to_round <= r < num_to_round + multiple,
        (r == num_to_round) == (num_to_round % multiple == 0),
{
    let remainder = num_to_round % multiple;
    if remainder == 0 {
        return num_to_round;
    }
    proof {
        let q = num_to_round as int / multiple as int;
        vstd::arithmetic::div_mod::lemma_fundamental_div_mod(num_to_round as int, multiple as int);
        assert(num_to_round + multiple - remainder == multiple * (q + 1)) by (nonlinear_arith)
            requires
                num_to_round == multiple * q + remainder,
        ;
        vstd::arithmetic::div_mod::lemma_mod_multiples_basic(q + 1, multiple as int);
        assert((multiple * (q + 1)) == (q + 1) * multiple) by (nonlinear_arith);
    }
    num_to_round + (multiple - remainder)
}

/// Rounding up to a multiple of four lands on a multiple of four within
/// three of the start, and rounding again changes nothing.
pub proof fn lemma_round_to_four(n: nat)
    ensures
        rounded_up(rounded_up(n as int, 4), 4) == rounded_up(n as int, 4),
        n <= rounded_up(n as int, 4) < n + 4,
        rounded_up(n as int, 4) % 4 == 0,
{
}

/// Each byte read as the character of the same code point.
pub open spec fn latin1(bytes: Seq<u8>) -> Seq<char> {
    bytes.map_values(|b: u8| b as char)
}

/// Relies on std's `String::push`: appends one character.
#[verifier::external_body]
pub(crate) fn push_char(s: &mut String, c: char)
    ensures
        final(s)@ == old(s)@.push(c),
{
    s.push(c)
}

/// Decodes bytes one for one as characters (no multi-byte decoding).
pub fn decode_bytes(bytes: &Vec<u8>) -> (r: String)
    ensures
        r@ == latin1(bytes@),
{
    let mut put_string = String::new();
    let mut i: usize = 0;
    while i < bytes.len()
        invariant
            i <= bytes@.len(),
            put_string@ == latin1(bytes@.subrange(0, i as int)),
        decreases bytes.len() - i,
    {
        let c = bytes[i] as char;
        push_char(&mut put_string, c);
        i = i + 1;
        assert(latin1(bytes@.subrange(0, i as int)) =~= latin1(bytes@.subrange(0, i - 1)).push(c));
    }
    assert(bytes@.subrange(0, bytes@.len() as int) =~= bytes@);
    put_string
}

/// The byte order of multi-byte fields.
#[derive(Clone, Copy, Debug, PartialEq, Eq, Structural)]
pub enum Endian {
    Little,
    Big,
}

/// The integer that two bytes encode in the given order.
pub open spec fn u16_of(order: Endian, b: Seq<u8>) -> u16 {
    match order {
        Endian::Little => (b[0] as int + 256 * b[1] as int) as u16,
        Endian::Big => (b[1] as int + 256 * b[0] as int) as u16,
    }
}

/// The integer that four bytes encode in the given order.
pub open spec fn u32_of(order: Endian, b: Seq<u8>) -> u32 {
    match order {
        Endian::Little => (b[0] as int + 256 * b[1] as int + 65536 * b[2] as int + 16777216
            * b[3] as int) as u32,
        Endian::Big => (b[3] as int + 256 * b[2] as int + 65536 * b[1] as int + 16777216
            * b[0] as int) as u32,
    }
}

/// Relies on byteorder's `LittleEndian::read_u16`: the first two bytes, least significant first.
#[verifier::external_body]
fn le_u16(b: &[u8]) -> (r: u16)
    requires
        b@.len() >= 2,
    ensures
        r == u16_of(Endian::Little, b@),
{
    LittleEndian::read_u16(b)
}

/// Relies on byteorder's `BigEndian::read_u16`: the first two bytes, most significant first.
#[verifier::external_body]
fn be_u16(b: &[u8]) -> (r: u16)
    requires
        b@.len() >= 2,
    ensures
        r == u16_of(Endian::Big, b@),
{
    BigEndian::read_u16(b)
}

/// Relies on byteorder's `LittleEndian::read_u32`: the first four bytes, least significant first.
#[verifier::external_body]
fn le_u32(b: &[u8]) -> (r: u32)
    requires
        b@.len() >= 4,
    ensures
        r == u32_of(Endian::Little, b@),
{
    LittleEndian::read_u32(b)
}

/// Relies on byteorder's `BigEndian::read_u32`: the first four bytes, most significant first.
#[verifier::external_body]
fn be_u32(b: &[u8]) -> (r: u32)
    requires
        b@.len() >= 4,
    ensures
        r == u32_of(Endian::Big, b@),
{
    BigEndian::read_u32(b)
}

/// The 16-bit integer at the front of `b`, in byte order `order`.
pub fn decode_u16(order: Endian, b: &[u8]) -> (r: u16)
    requires
        b@.len() >= 2,
    ensures
        r == u16_of(order, b@),
{
    match order {
        Endian::Little => le_u16(b),
        Endian::Big => be_u16(b),
    }
}

/// The 32-bit integer at the front of `b`, in byte order `order`.
pub fn decode_u32(order: Endian, b: &[u8]) -> (r: u32)
    requires
        b@.len() >= 4,
    ensures
        r == u32_of(order, b@),
{
    match order {
        Endian::Little => le_u32(b),
        Endian::Big => be_u32(b),
    }
}

} // verus!
