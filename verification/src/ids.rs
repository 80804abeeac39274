//! Lowercase-hex rendering and parsing of fixed-width identifiers.
//!
//! Trace and span identifiers travel as hex strings: 32 digits for a
//! 128-bit trace id, 16 for a 64-bit span id, 2 for the flags byte.
//! Everything here is verified; the round-trip law
//! [`lemma_hex_round_trip`] states that parsing a rendered value gives
//! the value back.

use vstd::prelude::*;

verus! {

/// Spec-level lowercase hex digit for a nibble.
pub open spec fn hex_char_of(d: u8) -> char {
    if d == 0 {
        '0'
    } else if d == 1 {
        '1'
    } else if d == 2 {
        '2'
    } else if d == 3 {
        '3'
    } else if d == 4 {
        '4'
    } else if d == 5 {
        '5'
    } else if d == 6 {
        '6'
    } else if d == 7 {
        '7'
    } else if d == 8 {
        '8'
    } else if d == 9 {
        '9'
    } else if d == 10 {
        'a'
    } else if d == 11 {
        'b'
    } else if d == 12 {
        'c'
    } else if d == 13 {
        'd'
    } else if d == 14 {
        'e'
    } else {
        'f'
    }
}

/// Spec-level value of a hex digit character; both letter cases count.
pub open spec fn hex_val_of(c: char) -> Option<u8> {
    if '0' <= c && c <= '9' {
        Some((c as u8 - '0' as u8) as u8)
    } else if 'a' <= c && c <= 'f' {
        Some((c as u8 - 'a' as u8 + 10) as u8)
    } else if 'A' <= c && c <= 'F' {
        Some((c as u8 - 'A' as u8 + 10) as u8)
    } else {
        None
    }
}

/// The `n` lowercase hex digits of `v`, most significant first.
/// Only the low `4 * n` bits of `v` are rendered.
pub open spec fn hex_render(v: u128, n: nat) -> Seq<char>
    decreases n,
{
    if n == 0 {
        Seq::empty()
    } else {
        hex_render(v / 16, (n - 1) as nat) + seq![hex_char_of((v % 16) as u8)]
    }
}

/// Why a hex string failed to parse.
#[derive(Clone, Copy, Debug, PartialEq, Eq, Structural)]
pub enum HexError {
    /// The string was empty.
    Empty,
    /// Some character was not a hexadecimal digit.
    InvalidDigit,
    /// The value does not fit in the target width.
    Overflow,
}

/// Left-to-right scan of a hex string into a 128-bit value; the first
/// failure (bad digit, or a prefix that no longer fits) decides the
/// error. The empty string scans to zero; [`parse_hex_spec`] rejects it.
pub open spec fn hex_scan(s: Seq<char>) -> Result<u128, HexError>
    decreases s.len(),
{
    if s.len() == 0 {
        Ok(0u128)
    } else {
        match hex_scan(s.drop_last()) {
            Ok(acc) => match hex_val_of(s.last()) {
                Some(d) => if 16 * (acc as int) + (d as int) <= u128::MAX {
                    Ok((16 * acc + d) as u128)
                } else {
                    Err(HexError::Overflow)
                },
                None => Err(HexError::InvalidDigit),
            },
            Err(e) => Err(e),
        }
    }
}

/// What parsing a hex string as a 128-bit value yields.
pub open spec fn parse_hex_spec(s: Seq<char>) -> Result<u128, HexError> {
    if s.len() == 0 {
        Err(HexError::Empty)
    } else {
        hex_scan(s)
    }
}

/// 16 to the power `n`.
pub open spec fn pow16(n: nat) -> int
    decreases n,
{
    if n == 0 {
        1
    } else {
        16 * pow16((n - 1) as nat)
    }
}

/// A scan error in a prefix decides the scan of the whole string.
proof fn lemma_hex_scan_error_persists(s: Seq<char>, i: int, e: HexError)
    requires
        0 <= i <= s.len(),
        hex_scan(s.take(i)) == Result::<u128, HexError>::Err(e),
    ensures
        hex_scan(s) == Result::<u128, HexError>::Err(e),
    decreases s.len() - i,
{
    if i < s.len() {
        assert(s.take(i + 1).drop_last() =~= s.take(i));
        lemma_hex_scan_error_persists(s, i + 1, e);
    } else {
        assert(s.take(i) =~= s);
    }
}

/// Rendering is faithful below `16^n`: scanning the rendering of `v`
/// gives `v` back.
proof fn lemma_hex_scan_render(v: u128, n: nat)
    requires
        v < pow16(n),
    ensures
        hex_scan(hex_render(v, n)) == Ok::<u128, HexError>(v),
    decreases n,
{
    if n == 0 {
    } else {
        let prefix = hex_render(v / 16, (n - 1) as nat);
        let whole = hex_render(v, n);
        assert(whole =~= prefix + seq![hex_char_of((v % 16) as u8)]);
        assert(whole.drop_last() =~= prefix);
        assert(whole.last() == hex_char_of((v % 16) as u8));
        lemma_hex_scan_render(v / 16, (n - 1) as nat);
        let d = (v % 16) as u8;
        assert(hex_val_of(hex_char_of(d)) == Some(d));
        assert(16 * ((v / 16) as int) + (d as int) == v as int);
    }
}

/// Identifier round trip: parsing the `n`-digit rendering of a value
/// below `16^n` yields that value.
pub proof fn lemma_hex_round_trip(v: u128, n: nat)
    requires
        0 < n,
        v < pow16(n),
    ensures
        parse_hex_spec(hex_render(v, n)) == Ok::<u128, HexError>(v),
{
    lemma_hex_render_len(v, n);
    lemma_hex_scan_render(v, n);
}

/// The rendering of `n` digits has length `n`.
pub proof fn lemma_hex_render_len(v: u128, n: nat)
    ensures
        hex_render(v, n).len() == n,
    decreases n,
{
    if n > 0 {
        lemma_hex_render_len(v / 16, (n - 1) as nat);
    }
}

/// Every u128 is below `16^32`, every u64 below `16^16`, every u8
/// below `16^2`.
pub proof fn lemma_pow16_widths()
    ensures
        pow16(32) == 0x100000000000000000000000000000000int,
        pow16(16) == 0x10000000000000000int,
        pow16(2) == 256,
{
    reveal_with_fuel(pow16, 33);
}

/// Exec hex digit as an ASCII byte.
fn hex_digit_byte(d: u8) -> (b: u8)
    requires
        d < 16,
    ensures
        b < 128,
        b as char == hex_char_of(d),
{
    if d < 10 {
        d + 48
    } else {
        d + 87
    }
}

/// Exec hex digit value of a character.
fn hex_digit_val(c: char) -> (r: Option<u8>)
    ensures
        r == hex_val_of(c),
{
    let x = c as u32;
    if 48 <= x && x <= 57 {
        Some((x - 48) as u8)
    } else if 97 <= x && x <= 102 {
        Some((x - 97 + 10) as u8)
    } else if 65 <= x && x <= 70 {
        Some((x - 65 + 10) as u8)
    } else {
        None
    }
}

/// ASCII bytes of the `n` lowercase hex digits of `v`.
pub fn hex_bytes(v: u128, n: usize) -> (out: Vec<u8>)
    ensures
        out@.len() == n,
        out@.map_values(|b: u8| b as char) == hex_render(v, n as nat),
        forall|i: int| 0 <= i < out@.len() ==> out@[i] < 128,
{
    let ghost all = hex_render(v, n as nat);
    let mut rev: Vec<u8> = Vec::new();
    let mut x: u128 = v;
    let mut i: usize = 0;
    while i < n
        invariant
            i <= n,
            rev@.len() == i,
            forall|j: int| 0 <= j < rev@.len() ==> rev@[j] < 128,
            all == hex_render(v, n as nat),
            all =~= hex_render(x, (n - i) as nat) + rev@.map_values(|b: u8| b as char).reverse(),
        decreases n - i,
    {
        let d = #[verifier::truncate] ((x % 16) as u8);
        let b = hex_digit_byte(d);
        let ghost old_rev = rev@;
        rev.push(b);
        proof {
            let oldm = old_rev.map_values(|bb: u8| bb as char);
            let newm = rev@.map_values(|bb: u8| bb as char);
            assert(newm =~= oldm + seq![b as char]);
            assert(newm.reverse() =~= seq![b as char] + oldm.reverse());
            assert(hex_render(x, (n - i) as nat) =~= hex_render(x / 16, (n - i - 1) as nat)
                + seq![hex_char_of(d)]);
            assert(all =~= hex_render(x / 16, (n - (i + 1)) as nat) + newm.reverse());
        }
        x = x / 16;
        i = i + 1;
    }
    proof {
        assert(all =~= rev@.map_values(|b: u8| b as char).reverse());
    }
    let mut out: Vec<u8> = Vec::new();
    let mut j: usize = rev.len();
    while j > 0
        invariant
            j <= rev@.len(),
            rev@.len() == n,
            forall|k: int| 0 <= k < rev@.len() ==> rev@[k] < 128,
            all =~= rev@.map_values(|b: u8| b as char).reverse(),
            out@.len() == n - j,
            forall|k: int| 0 <= k < out@.len() ==> out@[k] == rev@[rev@.len() - 1 - k],
        decreases j,
    {
        let b = rev[j - 1];
        out.push(b);
        j = j - 1;
    }
    proof {
        let outm = out@.map_values(|b: u8| b as char);
        assert forall|k: int| 0 <= k < n implies outm[k] == all[k] by {
            assert(out@[k] == rev@[n - 1 - k]);
            assert(all[k] == rev@.map_values(|b: u8| b as char).reverse()[k]);
        }
        assert(outm =~= all);
    }
    out
}

/// Parse a hex string into a 128-bit value, per [`parse_hex_spec`].
pub fn parse_hex_u128(s: &str) -> (r: Result<u128, HexError>)
    ensures
        r == parse_hex_spec(s@),
{
    let len = s.unicode_len();
    if len == 0 {
        return Err(HexError::Empty);
    }
    let mut acc: u128 = 0;
    let mut i: usize = 0;
    while i < len
        invariant
            i <= len,
            len == s@.len(),
            hex_scan(s@.take(i as int)) == Ok::<u128, HexError>(acc),
        decreases len - i,
    {
        let c = s.get_char(i);
        proof {
            assert(s@.take(i + 1).drop_last() =~= s@.take(i as int));
            assert(s@.take(i + 1).last() == c);
        }
        match hex_digit_val(c) {
            Some(d) => {
                if acc <= (u128::MAX - d as u128) / 16 {
                    proof {
                        assert(16 * (acc as int) + (d as int) <= u128::MAX);
                    }
                    acc = 16 * acc + d as u128;
                } else {
                    proof {
                        assert(16 * (acc as int) + (d as int) > u128::MAX);
                        lemma_hex_scan_error_persists(s@, i + 1, HexError::Overflow);
                    }
                    return Err(HexError::Overflow);
                }
            },
            None => {
                proof {
                    lemma_hex_scan_error_persists(s@, i + 1, HexError::InvalidDigit);
                }
                return Err(HexError::InvalidDigit);
            },
        }
        i = i + 1;
    }
    proof {
        assert(s@.take(len as int) =~= s@);
    }
    Ok(acc)
}

} // verus!
