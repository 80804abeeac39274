//! 64-bit span identifiers and per-span timing state.

use vstd::prelude::*;

use crate::ids::{
    hex_bytes, hex_render, lemma_hex_round_trip, lemma_pow16_widths, parse_hex_spec,
    parse_hex_u128, HexError,
};
use crate::strutil::ascii_to_string;

verus! {

/// An 8-byte value which identifies a given span.
///
/// The id is valid if it is non-zero.
#[derive(Clone, PartialEq, Eq, Copy, Hash, Debug, Structural)]
pub struct SpanId(pub u64);

/// Big-endian fold of a byte sequence into an unbounded integer.
pub open spec fn be_fold64(s: Seq<u8>) -> int
    decreases s.len(),
{
    if s.len() == 0 {
        0
    } else {
        be_fold64(s.drop_last()) * 256 + s.last()
    }
}

/// 256 to the power `n`.
pub open spec fn pow256_64(n: nat) -> int
    decreases n,
{
    if n == 0 {
        1
    } else {
        256 * pow256_64((n - 1) as nat)
    }
}

/// Byte `i` (big-endian, of 8) of a 64-bit value.
pub open spec fn be_byte8(v: u64, i: int) -> u8 {
    (((v as int) / pow256_64((7 - i) as nat)) % 256) as u8
}

/// Folding a prefix of the big-endian bytes of `v` recovers the
/// corresponding high part of `v`.
proof fn lemma_be_fold64_bytes_prefix(v: u64, n: int)
    requires
        0 <= n <= 8,
    ensures
        be_fold64(Seq::new(8, |i: int| be_byte8(v, i)).take(n)) == (v as int) / pow256_64(
            (8 - n) as nat,
        ),
    decreases n,
{
    let bytes = Seq::new(8, |i: int| be_byte8(v, i));
    reveal_with_fuel(pow256_64, 9);
    if n == 0 {
        vstd::arithmetic::div_mod::lemma_div_pos_is_pos(v as int, pow256_64(8));
        vstd::arithmetic::div_mod::lemma_basic_div(v as int, pow256_64(8));
    } else {
        lemma_be_fold64_bytes_prefix(v, n - 1);
        assert(bytes.take(n).drop_last() =~= bytes.take(n - 1));
        assert(bytes.take(n).last() == be_byte8(v, n - 1));
        let w = (v as int) / pow256_64((7 - (n - 1)) as nat);
        vstd::arithmetic::div_mod::lemma_div_denominator(
            v as int,
            pow256_64((8 - n) as nat),
            256,
        );
        assert((v as int) / pow256_64((9 - n) as nat) == w / 256);
        vstd::arithmetic::div_mod::lemma_fundamental_div_mod(w, 256);
    }
}

/// Byte round trip: folding the big-endian bytes of a span id
/// recovers the span id.
pub proof fn lemma_span_id_bytes_round_trip(s: SpanId)
    ensures
        be_fold64(Seq::new(8, |i: int| be_byte8(s.0, i))) == s.0 as int,
{
    lemma_be_fold64_bytes_prefix(s.0, 8);
    assert(Seq::new(8, |i: int| be_byte8(s.0, i)).take(8) =~= Seq::new(
        8,
        |i: int| be_byte8(s.0, i),
    ));
    reveal_with_fuel(pow256_64, 1);
}

/// What parsing a hex string as a 64-bit value yields: the 128-bit
/// parse, rejected when the value does not fit in 64 bits.
pub open spec fn parse_hex_u64_spec(s: Seq<char>) -> Result<u64, HexError> {
    match parse_hex_spec(s) {
        Ok(v) => if v <= u64::MAX as u128 {
            Ok(v as u64)
        } else {
            Err(HexError::Overflow)
        },
        Err(e) => Err(e),
    }
}

impl SpanId {
    /// The invalid (all-zero) span id.
    pub fn invalid() -> (r: Self)
        ensures
            r.0 == 0,
    {
        SpanId(0)
    }

    /// Create a span id from its representation as a big-endian byte array.
    pub fn from_bytes(bytes: [u8; 8]) -> (r: Self)
        ensures
            r.0 as int == be_fold64(bytes@),
    {
        let mut acc: u64 = 0;
        let mut i: usize = 0;
        while i < 8
            invariant
                i <= 8,
                bytes@.len() == 8,
                acc as int == be_fold64(bytes@.take(i as int)),
                (acc as int) < pow256_64(i as nat),
            decreases 8 - i,
        {
            proof {
                reveal_with_fuel(pow256_64, 9);
                assert(bytes@.take(i + 1).drop_last() =~= bytes@.take(i as int));
                assert(bytes@.take(i + 1).last() == bytes@[i as int]);
            }
            acc = acc * 256 + bytes[i] as u64;
            i = i + 1;
        }
        proof {
            assert(bytes@.take(8) =~= bytes@);
        }
        SpanId(acc)
    }

    /// Return the representation of this span id as a big-endian byte array.
    #[verifier::rlimit(60)]
    pub fn _to_bytes(self) -> (r: [u8; 8])
        ensures
            r@.len() == 8,
            forall|i: int| 0 <= i < 8 ==> r@[i] == be_byte8(self.0, i),
    {
        let v = self.0;
        let r: [u8; 8] = [
            (v / 0x100000000000000u64 % 256) as u8,
            (v / 0x1000000000000u64 % 256) as u8,
            (v / 0x10000000000u64 % 256) as u8,
            (v / 0x100000000u64 % 256) as u8,
            (v / 0x1000000u64 % 256) as u8,
            (v / 0x10000u64 % 256) as u8,
            (v / 0x100u64 % 256) as u8,
            (v / 0x1u64 % 256) as u8,
        ];
        proof {
            reveal_with_fuel(pow256_64, 9);
        }
        r
    }

    /// Converts a string in base 16 to a span id.
    pub fn from_hex(hex: &str) -> (r: Result<Self, HexError>)
        ensures
            match parse_hex_u64_spec(hex@) {
                Ok(v) => r == Ok::<SpanId, HexError>(SpanId(v)),
                Err(e) => r == Err::<SpanId, HexError>(e),
            },
    {
        match parse_hex_u128(hex) {
            Ok(v) => if v <= u64::MAX as u128 {
                Ok(SpanId(v as u64))
            } else {
                Err(HexError::Overflow)
            },
            Err(e) => Err(e),
        }
    }

    /// The 16-digit lowercase hex rendering of this span id.
    pub fn to_hex(&self) -> (s: String)
        ensures
            s@ == hex_render(self.0 as u128, 16),
    {
        ascii_to_string(hex_bytes(self.0 as u128, 16))
    }

    /// A freshly drawn random span id. Nothing is promised of the
    /// value; in particular it is not guaranteed non-zero.
    pub fn rand() -> Self {
        SpanId(crate::rng::random_u64())
    }

    /// Helper to create span ids for testing.
    pub fn _from_u64(num: u64) -> (r: Self)
        ensures
            r.0 == num,
    {
        SpanId(num)
    }
}

/// Identifier round trip: parsing the hex rendering of a span id
/// yields the span id.
pub proof fn lemma_span_id_round_trip(s: SpanId)
    ensures
        parse_hex_u64_spec(hex_render(s.0 as u128, 16)) == Ok::<u64, HexError>(s.0),
{
    lemma_pow16_widths();
    lemma_hex_round_trip(s.0 as u128, 16);
}

/// Per-span timing state: the accumulated entered time so far, and the
/// monotonic instant (in microseconds) at which the span was last
/// entered.
#[derive(Clone, Copy, Debug, PartialEq, Eq, Structural)]
pub struct SpanContext {
    pub duration_us: u64,
    pub last_timestamp_us: u64,
}

} // verus!
