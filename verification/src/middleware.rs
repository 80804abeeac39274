//! The pure part of the HTTP middleware: picking the client address
//! out of an `x-forwarded-for` header value.

use vstd::prelude::*;

verus! {

/// ASCII whitespace, as it appears around forwarded addresses.
pub open spec fn is_ws(c: char) -> bool {
    c == ' ' || c == '\t' || c == '\n' || c == '\r'
}

/// The characters before the first comma; the whole string when there
/// is none.
pub open spec fn comma_prefix(s: Seq<char>) -> Seq<char>
    decreases s.len(),
{
    if s.len() == 0 {
        s
    } else if s[0] == ',' {
        Seq::empty()
    } else {
        seq![s[0]] + comma_prefix(s.drop_first())
    }
}

/// The string without its leading whitespace.
pub open spec fn trim_start(s: Seq<char>) -> Seq<char>
    decreases s.len(),
{
    if s.len() > 0 && is_ws(s[0]) {
        trim_start(s.drop_first())
    } else {
        s
    }
}

/// The string without its trailing whitespace.
pub open spec fn trim_end(s: Seq<char>) -> Seq<char>
    decreases s.len(),
{
    if s.len() > 0 && is_ws(s.last()) {
        trim_end(s.drop_last())
    } else {
        s
    }
}

/// The string without leading and trailing whitespace.
pub open spec fn trim_of(s: Seq<char>) -> Seq<char> {
    trim_end(trim_start(s))
}

proof fn lemma_comma_prefix_at(s: Seq<char>, i: int)
    requires
        0 <= i <= s.len(),
        forall|j: int| 0 <= j < i ==> s[j] != ',',
        i == s.len() || s[i] == ',',
    ensures
        comma_prefix(s) =~= s.take(i),
    decreases i,
{
    if i == 0 {
    } else {
        lemma_comma_prefix_at(s.drop_first(), i - 1);
        assert(s.take(i) =~= seq![s[0]] + s.drop_first().take(i - 1));
    }
}

proof fn lemma_trim_start_at(s: Seq<char>, a: int)
    requires
        0 <= a <= s.len(),
        forall|j: int| 0 <= j < a ==> is_ws(s[j]),
        a == s.len() || !is_ws(s[a]),
    ensures
        trim_start(s) =~= s.skip(a),
    decreases a,
{
    if a == 0 {
        assert(s.skip(0) =~= s);
    } else {
        lemma_trim_start_at(s.drop_first(), a - 1);
        assert(s.drop_first().skip(a - 1) =~= s.skip(a));
    }
}

proof fn lemma_trim_end_at(s: Seq<char>, b: int)
    requires
        0 <= b <= s.len(),
        forall|j: int| b <= j < s.len() ==> is_ws(s[j]),
        b == 0 || !is_ws(s[b - 1]),
    ensures
        trim_end(s) =~= s.take(b),
    decreases s.len() - b,
{
    if b == s.len() {
        assert(s.take(b) =~= s);
    } else {
        assert(is_ws(s.last()));
        lemma_trim_end_at(s.drop_last(), b);
        assert(s.drop_last().take(b) =~= s.take(b));
    }
}

/// Exec check for ASCII whitespace.
fn is_ws_char(c: char) -> (r: bool)
    ensures
        r == is_ws(c),
{
    c == ' ' || c == '\t' || c == '\n' || c == '\r'
}

/// The first address in an `x-forwarded-for` header value: the part
/// before the first comma, with surrounding whitespace removed.
pub fn parse_x_forwarded_for(value: &str) -> (r: String)
    ensures
        r@ == trim_of(comma_prefix(value@)),
{
    let len = value.unicode_len();
    let mut ci: usize = 0;
    while ci < len && value.get_char(ci) != ','
        invariant
            ci <= len,
            len == value@.len(),
            forall|j: int| 0 <= j < ci ==> value@[j] != ',',
        decreases len - ci,
    {
        ci = ci + 1;
    }
    proof {
        lemma_comma_prefix_at(value@, ci as int);
    }
    let prefix = value.substring_char(0, ci);
    proof {
        assert(prefix@ =~= value@.take(ci as int));
    }
    let plen = prefix.unicode_len();
    let mut a: usize = 0;
    while a < plen && is_ws_char(prefix.get_char(a))
        invariant
            a <= plen,
            plen == prefix@.len(),
            forall|j: int| 0 <= j < a ==> is_ws(prefix@[j]),
        decreases plen - a,
    {
        a = a + 1;
    }
    let mut b: usize = plen;
    while b > a && is_ws_char(prefix.get_char(b - 1))
        invariant
            a <= b <= plen,
            plen == prefix@.len(),
            forall|j: int| b <= j < plen ==> is_ws(prefix@[j]),
        decreases b,
    {
        b = b - 1;
    }
    proof {
        lemma_trim_start_at(prefix@, a as int);
        let t = prefix@.skip(a as int);
        lemma_trim_end_at(t, b - a);
        assert(t.take(b - a) =~= prefix@.subrange(a as int, b as int));
    }
    let out = prefix.substring_char(a, b);
    out.to_owned()
}

} // verus!
