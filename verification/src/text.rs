//! Text rules shared by the reports, the validators and the timeline:
//! HTML escaping, the date part of a timestamp, byte-wise ordering of
//! timestamps, blank detection and decimal rendering of counts.

use vstd::prelude::*;
use vstd::string::*;
use vstd::utf8::{encode_utf8, encode_utf8_decode_utf8, is_char_boundary};

verus! {

/// The HTML escape of a single character.
pub open spec fn escape_char(c: char) -> Seq<char> {
    if c == '&' {
        "&amp;"@
    } else if c == '<' {
        "&lt;"@
    } else if c == '>' {
        "&gt;"@
    } else if c == '"' {
        "&quot;"@
    } else {
        seq![c]
    }
}

/// Every character of `s` replaced by its HTML escape, in order.
pub open spec fn escaped(s: Seq<char>) -> Seq<char>
    decreases s.len(),
{
    if s.len() == 0 {
        Seq::empty()
    } else {
        escaped(s.drop_last()) + escape_char(s.last())
    }
}

/// Escapes `&`, `<`, `>` and `"` so that any value can be placed in HTML text
/// or in a double-quoted attribute.
pub fn escape(value: &str) -> (out: String)
    ensures
        out@ == escaped(value@),
{
    let n = value.unicode_len();
    let mut out = String::new();
    let mut i: usize = 0;
    while i < n
        invariant
            n == value@.len(),
            i <= n,
            out@ == escaped(value@.take(i as int)),
        decreases n - i,
    {
        let c = value.get_char(i);
        if c == '&' {
            out.append("&amp;");
        } else if c == '<' {
            out.append("&lt;");
        } else if c == '>' {
            out.append("&gt;");
        } else if c == '"' {
            out.append("&quot;");
        } else {
            let piece = value.substring_char(i, i + 1);
            assert(piece@ =~= seq![c]);
            out.append(piece);
        }
        assert(value@.take(i + 1).drop_last() =~= value@.take(i as int));
        i = i + 1;
    }
    assert(value@.take(n as int) =~= value@);
    out
}

/// The date part of an RFC 3339 timestamp: its first ten bytes when they end
/// on a character boundary, otherwise the whole text unchanged.
pub fn short_date(timestamp: &str) -> (date: &str)
    ensures
        is_char_boundary(timestamp.spec_bytes(), 10) ==> date.spec_bytes()
            == timestamp.spec_bytes().subrange(0, 10),
        !is_char_boundary(timestamp.spec_bytes(), 10) ==> date@ == timestamp@,
{
    if timestamp.is_char_boundary(10) {
        let (head, _rest) = timestamp.split_at(10);
        head
    } else {
        timestamp
    }
}

/// Byte-wise lexicographic "strictly before", which is how text is ordered.
/// Timestamps are RFC 3339 in UTC throughout, so this is also chronological.
pub open spec fn bytes_before(a: Seq<u8>, b: Seq<u8>) -> bool
    decreases a.len(),
{
    if a.len() == 0 {
        b.len() > 0
    } else if b.len() == 0 {
        false
    } else if a[0] != b[0] {
        a[0] < b[0]
    } else {
        bytes_before(a.drop_first(), b.drop_first())
    }
}

/// Text `a` sorts strictly before text `b`: their UTF-8 encodings compare so.
pub open spec fn text_before(a: Seq<char>, b: Seq<char>) -> bool {
    bytes_before(encode_utf8(a), encode_utf8(b))
}

/// Text `a` sorts at or before text `b`.
pub open spec fn text_at_or_before(a: Seq<char>, b: Seq<char>) -> bool {
    text_before(a, b) || a == b
}

proof fn lemma_before_step(a: Seq<u8>, b: Seq<u8>, i: int)
    requires
        0 <= i < a.len(),
        i < b.len(),
        a[i] == b[i],
    ensures
        bytes_before(a.skip(i), b.skip(i)) == bytes_before(a.skip(i + 1), b.skip(i + 1)),
{
    assert(a.skip(i).drop_first() =~= a.skip(i + 1));
    assert(b.skip(i).drop_first() =~= b.skip(i + 1));
}

/// Byte-wise ordering is total: whatever does not sort after `b` sorts at or
/// before it.
pub proof fn lemma_not_after_is_at_or_before(a: Seq<u8>, b: Seq<u8>)
    ensures
        !bytes_before(b, a) <==> (bytes_before(a, b) || a == b),
    decreases a.len(),
{
    if a.len() == 0 || b.len() == 0 {
        if a.len() == 0 && b.len() == 0 {
            assert(a =~= b);
        }
    } else if a[0] != b[0] {
    } else {
        lemma_not_after_is_at_or_before(a.drop_first(), b.drop_first());
        if a.drop_first() == b.drop_first() {
            assert(a =~= seq![a[0]] + a.drop_first());
            assert(b =~= seq![b[0]] + b.drop_first());
        }
        if a == b {
            assert(a.drop_first() =~= b.drop_first());
        }
    }
}

/// Byte-wise ordering is transitive.
pub proof fn lemma_bytes_before_transitive(a: Seq<u8>, b: Seq<u8>, c: Seq<u8>)
    requires
        bytes_before(a, b),
        bytes_before(b, c),
    ensures
        bytes_before(a, c),
    decreases a.len(),
{
    if a.len() > 0 && b.len() > 0 && c.len() > 0 && a[0] == b[0] && b[0] == c[0] {
        lemma_bytes_before_transitive(a.drop_first(), b.drop_first(), c.drop_first());
    }
}

/// Text order is a strict total order: irreflexive, asymmetric, transitive,
/// and any two different texts are ordered one way or the other.
pub proof fn lemma_text_order(a: Seq<char>, b: Seq<char>, c: Seq<char>)
    ensures
        !text_before(a, a),
        text_before(a, b) ==> !text_before(b, a),
        a != b ==> text_before(a, b) || text_before(b, a),
        text_before(a, b) && text_before(b, c) ==> text_before(a, c),
{
    encode_utf8_decode_utf8(a);
    encode_utf8_decode_utf8(b);
    lemma_not_after_is_at_or_before(encode_utf8(a), encode_utf8(a));
    lemma_not_after_is_at_or_before(encode_utf8(a), encode_utf8(b));
    if text_before(a, b) && text_before(b, c) {
        lemma_bytes_before_transitive(encode_utf8(a), encode_utf8(b), encode_utf8(c));
    }
}

/// True when `a` sorts strictly before `b`, comparing bytes.
pub fn precedes(a: &str, b: &str) -> (before: bool)
    ensures
        before == text_before(a@, b@),
{
    let x = a.as_bytes();
    let y = b.as_bytes();
    let mut i: usize = 0;
    assert(x@.skip(0) =~= x@);
    assert(y@.skip(0) =~= y@);
    while i < x.len() && i < y.len()
        invariant
            x@ == a.spec_bytes(),
            y@ == b.spec_bytes(),
            i <= x@.len(),
            i <= y@.len(),
            bytes_before(x@, y@) == bytes_before(x@.skip(i as int), y@.skip(i as int)),
        decreases x@.len() - i,
    {
        if x[i] != y[i] {
            return x[i] < y[i];
        }
        proof {
            lemma_before_step(x@, y@, i as int);
        }
        i = i + 1;
    }
    i == x.len() && i < y.len()
}

/// True when `a` sorts at or before `b`, comparing bytes.
pub fn at_or_before(a: &str, b: &str) -> (r: bool)
    ensures
        r == text_at_or_before(a@, b@),
{
    let after = precedes(b, a);
    proof {
        lemma_not_after_is_at_or_before(encode_utf8(a@), encode_utf8(b@));
        encode_utf8_decode_utf8(a@);
        encode_utf8_decode_utf8(b@);
    }
    !after
}

/// The characters `str::trim` removes: Unicode White_Space.
pub open spec fn is_white_space(c: char) -> bool {
    let v = c as u32;
    ||| 0x09 <= v <= 0x0D
    ||| v == 0x20
    ||| v == 0x85
    ||| v == 0xA0
    ||| v == 0x1680
    ||| 0x2000 <= v <= 0x200A
    ||| v == 0x2028
    ||| v == 0x2029
    ||| v == 0x202F
    ||| v == 0x205F
    ||| v == 0x3000
}

/// The text has no character but white space, so trimming leaves nothing.
pub open spec fn blank(s: Seq<char>) -> bool {
    forall|i: int| 0 <= i < s.len() ==> is_white_space(#[trigger] s[i])
}

/// True when trimming `s` would leave it empty.
pub fn is_blank(s: &str) -> (r: bool)
    ensures
        r == blank(s@),
{
    let n = s.unicode_len();
    let mut i: usize = 0;
    while i < n
        invariant
            n == s@.len(),
            i <= n,
            forall|j: int| 0 <= j < i ==> is_white_space(#[trigger] s@[j]),
        decreases n - i,
    {
        let c = s.get_char(i);
        let v = c as u32;
        let white = (0x09 <= v && v <= 0x0D) || v == 0x20 || v == 0x85 || v == 0xA0 || v
            == 0x1680 || (0x2000 <= v && v <= 0x200A) || v == 0x2028 || v == 0x2029 || v
            == 0x202F || v == 0x205F || v == 0x3000;
        if !white {
            return false;
        }
        i = i + 1;
    }
    true
}

/// Character-for-character equality of two texts.
pub fn same_text(a: &str, b: &str) -> (r: bool)
    ensures
        r == (a@ == b@),
{
    let n = a.unicode_len();
    let m = b.unicode_len();
    if n != m {
        return false;
    }
    let mut i: usize = 0;
    while i < n
        invariant
            n == a@.len(),
            n == b@.len(),
            i <= n,
            forall|j: int| 0 <= j < i ==> a@[j] == b@[j],
        decreases n - i,
    {
        if a.get_char(i) != b.get_char(i) {
            return false;
        }
        i = i + 1;
    }
    assert(a@ =~= b@);
    true
}

/// The decimal digit character for `d`.
pub open spec fn digit_char(d: nat) -> char {
    if d == 0 {
        '0'
    } else if d == 1 {
        '1'
    } else if d == 2 {
        '2'
    } else if d == 3 {
        '3'
    } else if d == 4 {
        '4'
    } else if d == 5 {
        '5'
    } else if d == 6 {
        '6'
    } else if d == 7 {
        '7'
    } else if d == 8 {
        '8'
    } else {
        '9'
    }
}

/// The decimal rendering of `n`, without leading zeros.
pub open spec fn decimal(n: nat) -> Seq<char>
    decreases n,
{
    if n < 10 {
        seq![digit_char(n)]
    } else {
        decimal(n / 10).push(digit_char(n % 10))
    }
}

fn digit_text(d: usize) -> (t: &'static str)
    requires
        d < 10,
    ensures
        t@ == seq![digit_char(d as nat)],
{
    if d == 0 {
        proof { reveal_strlit("0"); }
        "0"
    } else if d == 1 {
        proof { reveal_strlit("1"); }
        "1"
    } else if d == 2 {
        proof { reveal_strlit("2"); }
        "2"
    } else if d == 3 {
        proof { reveal_strlit("3"); }
        "3"
    } else if d == 4 {
        proof { reveal_strlit("4"); }
        "4"
    } else if d == 5 {
        proof { reveal_strlit("5"); }
        "5"
    } else if d == 6 {
        proof { reveal_strlit("6"); }
        "6"
    } else if d == 7 {
        proof { reveal_strlit("7"); }
        "7"
    } else if d == 8 {
        proof { reveal_strlit("8"); }
        "8"
    } else {
        proof { reveal_strlit("9"); }
        "9"
    }
}

/// Renders a count in decimal, as in "Admitted 3 evidence items".
pub fn decimal_text(n: usize) -> (s: String)
    ensures
        s@ == decimal(n as nat),
    decreases n,
{
    if n < 10 {
        let d = digit_text(n);
        String::from_str(d)
    } else {
        let mut s = decimal_text(n / 10);
        let d = digit_text(n % 10);
        s.append(d);
        s
    }
}

} // verus!
