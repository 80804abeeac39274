//! 128-bit trace identifiers, trace flags, and the per-span trace context.

use vstd::prelude::*;

use crate::ids::{
    hex_bytes, hex_render, lemma_hex_round_trip, lemma_pow16_widths, parse_hex_spec,
    parse_hex_u128, HexError,
};
use crate::span_context::SpanId;
use crate::strutil::ascii_to_string;

verus! {

/// Name of the W3C header that carries trace context across processes.
pub const TRACEPARENT_HEADER: &'static str = "traceparent";

/// The only traceparent version this crate emits or understands.
pub const SUPPORTED_VERSION: u8 = 0;

/// A 16-byte value which identifies a given trace.
///
/// The id is valid if it is non-zero.
#[derive(Clone, PartialEq, Eq, Copy, Hash, Debug, Structural)]
pub struct TraceId(pub u128);

/// Big-endian fold of a byte sequence into an unbounded integer.
pub open spec fn be_fold(s: Seq<u8>) -> int
    decreases s.len(),
{
    if s.len() == 0 {
        0
    } else {
        be_fold(s.drop_last()) * 256 + s.last()
    }
}

/// 256 to the power `n`.
pub open spec fn pow256(n: nat) -> int
    decreases n,
{
    if n == 0 {
        1
    } else {
        256 * pow256((n - 1) as nat)
    }
}

/// Byte `i` (big-endian, of 16) of a 128-bit value.
pub open spec fn be_byte16(v: u128, i: int) -> u8 {
    (((v as int) / pow256((15 - i) as nat)) % 256) as u8
}

/// Folding a prefix of the big-endian bytes of `v` recovers the
/// corresponding high part of `v`.
proof fn lemma_be_fold_bytes_prefix(v: u128, n: int)
    requires
        0 <= n <= 16,
    ensures
        be_fold(Seq::new(16, |i: int| be_byte16(v, i)).take(n)) == (v as int) / pow256(
            (16 - n) as nat,
        ),
    decreases n,
{
    let bytes = Seq::new(16, |i: int| be_byte16(v, i));
    reveal_with_fuel(pow256, 17);
    if n == 0 {
        vstd::arithmetic::div_mod::lemma_div_pos_is_pos(v as int, pow256(16));
        vstd::arithmetic::div_mod::lemma_basic_div(v as int, pow256(16));
    } else {
        lemma_be_fold_bytes_prefix(v, n - 1);
        assert(bytes.take(n).drop_last() =~= bytes.take(n - 1));
        assert(bytes.take(n).last() == be_byte16(v, n - 1));
        let w = (v as int) / pow256((15 - (n - 1)) as nat);
        vstd::arithmetic::div_mod::lemma_div_denominator(
            v as int,
            pow256((16 - n) as nat),
            256,
        );
        assert((v as int) / pow256((17 - n) as nat) == w / 256);
        vstd::arithmetic::div_mod::lemma_fundamental_div_mod(w, 256);
    }
}

/// Byte round trip: folding the big-endian bytes of a trace id
/// recovers the trace id.
pub proof fn lemma_trace_id_bytes_round_trip(t: TraceId)
    ensures
        be_fold(Seq::new(16, |i: int| be_byte16(t.0, i))) == t.0 as int,
{
    lemma_be_fold_bytes_prefix(t.0, 16);
    assert(Seq::new(16, |i: int| be_byte16(t.0, i)).take(16) =~= Seq::new(
        16,
        |i: int| be_byte16(t.0, i),
    ));
    reveal_with_fuel(pow256, 1);
}

impl TraceId {
    /// The invalid (all-zero) trace id.
    pub fn invalid() -> (r: Self)
        ensures
            r.0 == 0,
    {
        TraceId(0)
    }

    /// Create a trace id from its representation as a big-endian byte array.
    pub fn from_bytes(bytes: [u8; 16]) -> (r: Self)
        ensures
            r.0 as int == be_fold(bytes@),
    {
        let mut acc: u128 = 0;
        let mut i: usize = 0;
        while i < 16
            invariant
                i <= 16,
                bytes@.len() == 16,
                acc as int == be_fold(bytes@.take(i as int)),
                (acc as int) < pow256(i as nat),
            decreases 16 - i,
        {
            proof {
                reveal_with_fuel(pow256, 17);
                assert(bytes@.take(i + 1).drop_last() =~= bytes@.take(i as int));
                assert(bytes@.take(i + 1).last() == bytes@[i as int]);
            }
            acc = acc * 256 + bytes[i] as u128;
            i = i + 1;
        }
        proof {
            assert(bytes@.take(16) =~= bytes@);
        }
        TraceId(acc)
    }

    /// Return the representation of this trace id as a big-endian byte array.
    #[verifier::rlimit(60)]
    pub fn to_bytes(self) -> (r: [u8; 16])
        ensures
            r@.len() == 16,
            forall|i: int| 0 <= i < 16 ==> r@[i] == be_byte16(self.0, i),
    {
        let v = self.0;
        let r: [u8; 16] = [
            (v / 0x1000000000000000000000000000000u128 % 256) as u8,
            (v / 0x10000000000000000000000000000u128 % 256) as u8,
            (v / 0x100000000000000000000000000u128 % 256) as u8,
            (v / 0x1000000000000000000000000u128 % 256) as u8,
            (v / 0x10000000000000000000000u128 % 256) as u8,
            (v / 0x100000000000000000000u128 % 256) as u8,
            (v / 0x1000000000000000000u128 % 256) as u8,
            (v / 0x10000000000000000u128 % 256) as u8,
            (v / 0x100000000000000u128 % 256) as u8,
            (v / 0x1000000000000u128 % 256) as u8,
            (v / 0x10000000000u128 % 256) as u8,
            (v / 0x100000000u128 % 256) as u8,
            (v / 0x1000000u128 % 256) as u8,
            (v / 0x10000u128 % 256) as u8,
            (v / 0x100u128 % 256) as u8,
            (v / 0x1u128 % 256) as u8,
        ];
        proof {
            reveal_with_fuel(pow256, 17);
        }
        r
    }

    /// Parse a lowercase or uppercase hex string into a trace id.
    pub fn from_hex(hex: &str) -> (r: Result<Self, HexError>)
        ensures
            match parse_hex_spec(hex@) {
                Ok(v) => r == Ok::<TraceId, HexError>(TraceId(v)),
                Err(e) => r == Err::<TraceId, HexError>(e),
            },
    {
        match parse_hex_u128(hex) {
            Ok(v) => Ok(TraceId(v)),
            Err(e) => Err(e),
        }
    }

    /// The 32-digit lowercase hex rendering of this trace id.
    pub fn to_hex(&self) -> (s: String)
        ensures
            s@ == hex_render(self.0, 32),
    {
        ascii_to_string(hex_bytes(self.0, 32))
    }

    /// A freshly drawn random trace id. Nothing is promised of the
    /// value; in particular it is not guaranteed non-zero.
    pub fn rand() -> Self {
        TraceId(crate::rng::random_u128())
    }

    /// Helper to create trace ids for testing.
    pub fn _from_u128(num: u128) -> (r: Self)
        ensures
            r.0 == num,
    {
        TraceId(num)
    }
}

/// Identifier round trip: parsing the hex rendering of a trace id
/// yields the trace id.
pub proof fn lemma_trace_id_round_trip(t: TraceId)
    ensures
        parse_hex_spec(hex_render(t.0, 32)) == Ok::<u128, HexError>(t.0),
{
    lemma_pow16_widths();
    lemma_hex_round_trip(t.0, 32);
}

/// Flags that can be set on a trace context. Only the low `sampled`
/// bit is used.
#[derive(Clone, Debug, PartialEq, Eq, Copy, Hash, Structural)]
pub struct TraceFlags(pub u8);

impl TraceFlags {
    /// Trace flags with the `sampled` flag set to `1`.
    pub fn sampled() -> (r: Self)
        ensures
            r.0 == 1,
    {
        TraceFlags(1)
    }

    /// Bitwise conjunction of two flag sets.
    pub fn and(self, rhs: Self) -> (r: Self)
        ensures
            r.0 == self.0 & rhs.0,
    {
        TraceFlags(self.0 & rhs.0)
    }

    /// Bitwise disjunction of two flag sets.
    pub fn or(self, rhs: Self) -> (r: Self)
        ensures
            r.0 == self.0 | rhs.0,
    {
        TraceFlags(self.0 | rhs.0)
    }

    /// Bitwise complement of a flag set.
    pub fn not(self) -> (r: Self)
        ensures
            r.0 == !self.0,
    {
        TraceFlags(!self.0)
    }
}

impl Default for TraceFlags {
    /// The empty flag set.
    fn default() -> (r: Self)
        ensures
            r.0 == 0,
    {
        TraceFlags(0)
    }
}

/// Trace linkage carried by every open span: the trace it belongs to,
/// the root (transaction) span of that trace inside this process, the
/// span's own id, and its parent if it has one.
#[derive(Copy, Clone, Debug, PartialEq, Eq, Structural)]
pub struct TraceContext {
    pub trace_id: TraceId,
    pub transaction_id: SpanId,
    pub span_id: SpanId,
    pub parent_id: Option<SpanId>,
}

impl Default for TraceContext {
    /// A context with invalid ids and no parent.
    fn default() -> (r: Self)
        ensures
            r.trace_id.0 == 0,
            r.transaction_id.0 == 0,
            r.span_id.0 == 0,
            r.parent_id is None,
    {
        TraceContext {
            trace_id: TraceId(0),
            transaction_id: SpanId(0),
            span_id: SpanId(0),
            parent_id: None,
        }
    }
}

} // verus!
