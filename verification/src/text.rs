//! Character-level helpers shared by the other modules.

use vstd::prelude::*;

verus! {

/// Appends one character to a `String` (`String::push`).
#[verifier::external_body]
fn push_char(s: &mut String, c: char)
    ensures
        final(s)@ == old(s)@.push(c),
{
    s.push(c);
}

/// The characters of `s`, in order.
pub fn chars_of(s: &str) -> (v: Vec<char>)
    ensures
        v@ == s@,
{
    let mut v: Vec<char> = Vec::new();
    for c in it: s.chars()
        invariant
            v@ == it.seq().take(it.index()),
    {
        v.push(c);
    }
    v
}

/// The string made of the characters `v[a..b]`.
pub fn string_of_range(v: &Vec<char>, a: usize, b: usize) -> (s: String)
    requires
        a <= b <= v@.len(),
    ensures
        s@ == v@.subrange(a as int, b as int),
{
    let mut s = String::new();
    let mut i: usize = a;
    while i < b
        invariant
            a <= i <= b <= v@.len(),
            s@ == v@.subrange(a as int, i as int),
        decreases b - i,
    {
        push_char(&mut s, v[i]);
        assert(v@.subrange(a as int, i + 1) =~= v@.subrange(a as int, i as int).push(v@[i as int]));
        i = i + 1;
    }
    s
}

/// Appends the characters `v` to `s`.
pub fn push_chars(s: &mut String, v: &Vec<char>)
    ensures
        final(s)@ == old(s)@ + v@,
{
    let mut i: usize = 0;
    while i < v.len()
        invariant
            i <= v@.len(),
            s@ == old(s)@ + v@.take(i as int),
        decreases v@.len() - i,
    {
        push_char(s, v[i]);
        assert(v@.take(i + 1) =~= v@.take(i as int).push(v@[i as int]));
        i = i + 1;
    }
    assert(v@.take(v@.len() as int) =~= v@);
}

/// Appends the characters of `t` to `s`.
pub fn push_str(s: &mut String, t: &str)
    ensures
        final(s)@ == old(s)@ + t@,
{
    let v = chars_of(t);
    push_chars(s, &v);
}

/// Appends one character to `s`.
pub fn push(s: &mut String, c: char)
    ensures
        final(s)@ == old(s)@.push(c),
{
    push_char(s, c);
}

/// `s` with every single quote doubled.
pub open spec fn escape_quotes(s: Seq<char>) -> Seq<char>
    decreases s.len(),
{
    if s.len() == 0 {
        seq![]
    } else if s.last() == '\'' {
        escape_quotes(s.drop_last()) + seq!['\'', '\'']
    } else {
        escape_quotes(s.drop_last()).push(s.last())
    }
}

/// `s` as a single-quoted PowerShell string literal.
pub open spec fn spec_ps_quote(s: Seq<char>) -> Seq<char> {
    seq!['\''] + escape_quotes(s) + seq!['\'']
}

/// Whether every single quote in the literal body `t` is one of a doubled pair
/// (read from the end, as pairs are matched).
pub open spec fn quotes_paired(t: Seq<char>) -> bool
    decreases t.len(),
{
    if t.len() == 0 {
        true
    } else if t.last() == '\'' {
        t.len() >= 2 && t[t.len() - 2] == '\'' && quotes_paired(t.take(t.len() - 2))
    } else {
        quotes_paired(t.drop_last())
    }
}

/// The text a single-quoted literal body `t` stands for: each doubled quote
/// reads as one quote.
pub open spec fn unescape_quotes(t: Seq<char>) -> Seq<char>
    decreases t.len(),
{
    if t.len() == 0 {
        seq![]
    } else if t.len() >= 2 && t.last() == '\'' && t[t.len() - 2] == '\'' {
        unescape_quotes(t.take(t.len() - 2)).push('\'')
    } else {
        unescape_quotes(t.drop_last()).push(t.last())
    }
}

/// Quotes `value` for a PowerShell command line: wraps it in single quotes
/// and doubles each single quote inside.
pub fn ps_quote(value: &str) -> (r: String)
    ensures
        r@ == spec_ps_quote(value@),
{
    let v = chars_of(value);
    let mut out = String::new();
    push_char(&mut out, '\'');
    let mut i: usize = 0;
    while i < v.len()
        invariant
            i <= v@.len(),
            out@ == seq!['\''] + escape_quotes(v@.take(i as int)),
        decreases v@.len() - i,
    {
        let c = v[i];
        assert(v@.take(i + 1).drop_last() =~= v@.take(i as int));
        if c == '\'' {
            push_char(&mut out, '\'');
            push_char(&mut out, '\'');
        } else {
            push_char(&mut out, c);
        }
        assert(out@ =~= seq!['\''] + escape_quotes(v@.take(i + 1)));
        i = i + 1;
    }
    push_char(&mut out, '\'');
    assert(v@.take(v@.len() as int) =~= v@);
    assert(out@ =~= spec_ps_quote(value@));
    out
}

/// Quoting is faithful: the body of a quoted literal has its quotes paired,
/// and reads back as exactly the text that was quoted.
pub proof fn lemma_ps_quote_reads_back(s: Seq<char>)
    ensures
        quotes_paired(escape_quotes(s)),
        unescape_quotes(escape_quotes(s)) == s,
        spec_ps_quote(s) == seq!['\''] + escape_quotes(s) + seq!['\''],
    decreases s.len(),
{
    if s.len() > 0 {
        lemma_ps_quote_reads_back(s.drop_last());
        let e = escape_quotes(s.drop_last());
        if s.last() == '\'' {
            let t = e + seq!['\'', '\''];
            assert(t.take(t.len() - 2) =~= e);
            assert(unescape_quotes(t) =~= s);
        } else {
            let t = e.push(s.last());
            assert(t.drop_last() =~= e);
            assert(unescape_quotes(t) =~= s);
        }
    }
}

/// UTF-16 code units of one character.
pub open spec fn utf16_units(c: char) -> Seq<u16> {
    let v = c as u32;
    if v < 0x10000 {
        seq![v as u16]
    } else {
        seq![(0xD800 + (v - 0x10000) / 0x400) as u16, (0xDC00 + (v - 0x10000) % 0x400) as u16]
    }
}

/// UTF-16 encoding of a character sequence.
pub open spec fn encode_utf16(s: Seq<char>) -> Seq<u16>
    decreases s.len(),
{
    if s.len() == 0 {
        seq![]
    } else {
        encode_utf16(s.drop_last()) + utf16_units(s.last())
    }
}

/// Whether a UTF-16 unit is the first half of a surrogate pair.
pub open spec fn is_high_surrogate(u: u16) -> bool {
    0xD800 <= u && u <= 0xDBFF
}

/// Whether a UTF-16 unit is the second half of a surrogate pair.
pub open spec fn is_low_surrogate(u: u16) -> bool {
    0xDC00 <= u && u <= 0xDFFF
}

/// The characters that well-formed UTF-16 units stand for, read from the end.
pub open spec fn decode_utf16(u: Seq<u16>) -> Seq<char>
    decreases u.len(),
{
    if u.len() == 0 {
        seq![]
    } else if u.len() >= 2 && is_low_surrogate(u.last()) && is_high_surrogate(u[u.len() - 2]) {
        decode_utf16(u.take(u.len() - 2)).push(
            ((u[u.len() - 2] - 0xD800) * 0x400 + (u.last() - 0xDC00) + 0x10000) as u32 as char,
        )
    } else {
        decode_utf16(u.drop_last()).push(u.last() as u32 as char)
    }
}

/// UTF-16 encoding loses nothing: the units read back as the text.
pub proof fn lemma_utf16_reads_back(s: Seq<char>)
    ensures
        decode_utf16(encode_utf16(s)) == s,
    decreases s.len(),
{
    if s.len() > 0 {
        lemma_utf16_reads_back(s.drop_last());
        let c = s.last();
        let v = c as u32;
        vstd::utf8::char_is_scalar(c);
        vstd::utf8::char_u32_cast(c, v);
        let e = encode_utf16(s.drop_last());
        let t = encode_utf16(s);
        assert(t == e + utf16_units(c));
        if v < 0x10000 {
            assert(t =~= e.push(v as u16));
            assert(t.drop_last() =~= e);
            assert(!is_low_surrogate(t.last()));
            assert((v as u16) as u32 == v);
            assert(decode_utf16(t) =~= s);
        } else {
            let hi = (0xD800 + (v - 0x10000) / 0x400) as u16;
            let lo = (0xDC00 + (v - 0x10000) % 0x400) as u16;
            assert(t =~= e.push(hi).push(lo));
            assert(t.take(t.len() - 2) =~= e);
            assert(t.last() == lo && t[t.len() - 2] == hi);
            assert(is_low_surrogate(lo) && is_high_surrogate(hi));
            assert(((hi - 0xD800) * 0x400 + (lo - 0xDC00) + 0x10000) as u32 == v);
            assert(decode_utf16(t) =~= s);
        }
    }
}

/// `value` encoded as UTF-16 with a terminating zero unit, as Windows
/// APIs take wide strings.
pub fn wide_null(value: &str) -> (r: Vec<u16>)
    ensures
        r@ == encode_utf16(value@).push(0u16),
{
    let v = chars_of(value);
    let mut out: Vec<u16> = Vec::new();
    let mut i: usize = 0;
    while i < v.len()
        invariant
            i <= v@.len(),
            out@ == encode_utf16(v@.take(i as int)),
        decreases v@.len() - i,
    {
        let c = v[i];
        let n = c as u32;
        proof {
            vstd::utf8::char_is_scalar(c);
        }
        assert(v@.take(i + 1).drop_last() =~= v@.take(i as int));
        assert(v@.take(i + 1).last() == c);
        if n < 0x10000 {
            out.push(n as u16);
        } else {
            assert(n <= 0x10FFFF);
            let u = n - 0x10000;
            out.push((0xD800 + u / 0x400) as u16);
            out.push((0xDC00 + u % 0x400) as u16);
        }
        assert(out@ =~= encode_utf16(v@.take(i + 1)));
        i = i + 1;
    }
    assert(v@.take(v@.len() as int) =~= v@);
    out.push(0u16);
    out
}

/// The decimal digit character for `d < 10`.
pub open spec fn digit_char(d: int) -> char {
    ((48 + d) as u8) as char
}

/// Decimal notation of `n`, without leading zeros.
pub open spec fn spec_decimal(n: nat) -> Seq<char>
    decreases n,
{
    if n < 10 {
        seq![digit_char(n as int)]
    } else {
        spec_decimal(n / 10).push(digit_char((n % 10) as int))
    }
}

/// Decimal notation of `n`.
pub fn decimal(n: u64) -> (r: String)
    ensures
        r@ == spec_decimal(n as nat),
    decreases n,
{
    if n < 10 {
        let mut s = String::new();
        push_char(&mut s, ((48 + n) as u8) as char);
        s
    } else {
        let mut s = decimal(n / 10);
        push_char(&mut s, ((48 + n % 10) as u8) as char);
        s
    }
}

/// Joins `list` with `sep` between neighbours.
pub open spec fn join_with(list: Seq<Seq<char>>, sep: char) -> Seq<char>
    decreases list.len(),
{
    if list.len() == 0 {
        seq![]
    } else if list.len() == 1 {
        list[0]
    } else {
        join_with(list.drop_last(), sep).push(sep) + list.last()
    }
}

pub open spec fn views_of(list: Seq<&str>) -> Seq<Seq<char>> {
    list.map_values(|s: &str| s@)
}

/// Joins the strings `list` with `sep` between neighbours.
pub fn join_strs(list: &Vec<&str>, sep: char) -> (r: String)
    ensures
        r@ == join_with(views_of(list@), sep),
{
    let ghost all = views_of(list@);
    let mut out = String::new();
    let mut i: usize = 0;
    while i < list.len()
        invariant
            i <= list@.len(),
            all == views_of(list@),
            out@ == join_with(all.take(i as int), sep),
        decreases list@.len() - i,
    {
        assert(all.take(i + 1).drop_last() =~= all.take(i as int));
        assert(all.take(i + 1).last() == list@[i as int]@);
        if i > 0 {
            push_char(&mut out, sep);
        } else {
            assert(all.take(0) =~= seq![]);
        }
        push_str(&mut out, list[i]);
        assert(out@ =~= join_with(all.take(i + 1), sep));
        i = i + 1;
    }
    assert(all.take(list@.len() as int) =~= all);
    out
}

/// ASCII lower case of one character; other characters are kept.
pub open spec fn ascii_lower(c: char) -> char {
    if 'A' <= c && c <= 'Z' {
        ((c as u32 + 32) as u8) as char
    } else {
        c
    }
}

/// `s` with ASCII upper-case letters lowered, as `str::to_ascii_lowercase` does.
pub open spec fn spec_ascii_lowercase(s: Seq<char>) -> Seq<char> {
    s.map_values(|c: char| ascii_lower(c))
}

/// `s` with ASCII upper-case letters lowered.
pub fn ascii_lowercase(s: &str) -> (r: String)
    ensures
        r@ == spec_ascii_lowercase(s@),
{
    let v = chars_of(s);
    let mut out = String::new();
    let mut i: usize = 0;
    while i < v.len()
        invariant
            i <= v@.len(),
            out@ == spec_ascii_lowercase(v@.take(i as int)),
        decreases v@.len() - i,
    {
        let c = v[i];
        let l = if 'A' <= c && c <= 'Z' {
            ((c as u32 + 32) as u8) as char
        } else {
            c
        };
        push_char(&mut out, l);
        assert(spec_ascii_lowercase(v@.take(i + 1)) =~= spec_ascii_lowercase(v@.take(i as int)).push(l));
        i = i + 1;
    }
    assert(v@.take(v@.len() as int) =~= v@);
    out
}

/// Whether two strings hold the same characters.
pub fn same_text(a: &str, b: &str) -> (r: bool)
    ensures
        r == (a@ == b@),
{
    let x = chars_of(a);
    let y = chars_of(b);
    if x.len() != y.len() {
        return false;
    }
    let mut i: usize = 0;
    while i < x.len()
        invariant
            i <= x@.len() == y@.len(),
            x@ == a@,
            y@ == b@,
            forall|k: int| 0 <= k < i ==> x@[k] == y@[k],
        decreases x@.len() - i,
    {
        if x[i] != y[i] {
            assert(a@ != b@) by {
                if a@ == b@ {
                    assert(x@[i as int] == y@[i as int]);
                }
            }
            return false;
        }
        i = i + 1;
    }
    assert(x@ =~= y@);
    true
}

/// Whether `pattern` occurs in `s` at `i`.
pub open spec fn occurs_at(s: Seq<char>, pattern: Seq<char>, i: int) -> bool {
    0 <= i && i + pattern.len() <= s.len() && s.subrange(i, i + pattern.len()) == pattern
}

/// Whether `pattern` occurs in `s`.
pub open spec fn contains_text(s: Seq<char>, pattern: Seq<char>) -> bool {
    exists|i: int| occurs_at(s, pattern, i)
}

/// Whether `pattern` occurs in `s`, as `str::contains` tells.
pub fn contains(s: &str, pattern: &str) -> (r: bool)
    ensures
        r == contains_text(s@, pattern@),
{
    let v = chars_of(s);
    let p = chars_of(pattern);
    if p.len() > v.len() {
        assert forall|i: int| !occurs_at(s@, pattern@, i) by {}
        return false;
    }
    let vl = v.len();
    let mut i: usize = 0;
    while i <= vl - p.len()
        invariant
            vl == v@.len(),
            p@.len() <= v@.len(),
            i <= v@.len() - p@.len() + 1,
            v@ == s@,
            p@ == pattern@,
            forall|k: int| 0 <= k < i ==> !occurs_at(s@, pattern@, k),
        decreases v@.len() - p@.len() + 1 - i,
    {
        let mut j: usize = 0;
        let mut matched = true;
        while j < p.len()
            invariant
                vl == v@.len(),
                i + p@.len() <= v@.len(),
                j <= p@.len(),
                matched == (forall|k: int| 0 <= k < j ==> v@[i + k] == p@[k]),
            decreases p@.len() - j,
        {
            if v[i + j] != p[j] {
                matched = false;
            }
            j = j + 1;
        }
        if matched {
            assert(v@.subrange(i as int, i + p@.len()) =~= p@);
            assert(occurs_at(s@, pattern@, i as int));
            return true;
        }
        assert(!occurs_at(s@, pattern@, i as int)) by {
            let k = choose|k: int| 0 <= k < p@.len() && v@[i + k] != p@[k];
            assert(v@.subrange(i as int, i + p@.len())[k] != p@[k]);
        }
        i = i + 1;
    }
    assert forall|k: int| !occurs_at(s@, pattern@, k) by {
        if 0 <= k && k + pattern@.len() <= s@.len() {
            assert(k < i);
        }
    }
    false
}

/// `s` with every occurrence of `pattern`, read from the left and without
/// overlaps, replaced by `replacement`, as `str::replace` does for a
/// pattern that is not empty.
pub open spec fn replace_all(s: Seq<char>, pattern: Seq<char>, replacement: Seq<char>) -> Seq<char>
    decreases s.len(),
{
    if pattern.len() == 0 || s.len() < pattern.len() {
        s
    } else if s.take(pattern.len() as int) == pattern {
        replacement + replace_all(s.skip(pattern.len() as int), pattern, replacement)
    } else {
        seq![s[0]] + replace_all(s.drop_first(), pattern, replacement)
    }
}

/// Whether `p` occurs in `v` at `i`.
fn occurs_in_at(v: &Vec<char>, p: &Vec<char>, i: usize) -> (r: bool)
    requires
        i <= v@.len(),
    ensures
        r == (i + p@.len() <= v@.len() && v@.subrange(i as int, i + p@.len()) == p@),
{
    if p.len() > v.len() - i {
        return false;
    }
    let n = v.len();
    let mut j: usize = 0;
    while j < p.len()
        invariant
            n == v@.len(),
            i + p@.len() <= v@.len(),
            j <= p@.len(),
            forall|k: int| 0 <= k < j ==> v@[i + k] == p@[k],
        decreases p@.len() - j,
    {
        if v[i + j] != p[j] {
            assert(v@.subrange(i as int, i + p@.len())[j as int] != p@[j as int]);
            return false;
        }
        j = j + 1;
    }
    assert(v@.subrange(i as int, i + p@.len()) =~= p@);
    true
}

/// `s` with every occurrence of `pattern` replaced by `replacement`
/// (`str::replace`).
pub fn replace(s: &str, pattern: &str, replacement: &str) -> (r: String)
    requires
        pattern@.len() > 0,
    ensures
        r@ == replace_all(s@, pattern@, replacement@),
{
    let v = chars_of(s);
    let p = chars_of(pattern);
    let n = v.len();
    let plen = p.len();
    let mut out = String::new();
    let mut i: usize = 0;
    assert(v@.skip(0) =~= v@);
    while i < n && plen <= n - i
        invariant
            i <= n == v@.len(),
            v@ == s@,
            p@ == pattern@,
            plen == p@.len() > 0,
            replace_all(s@, pattern@, replacement@) == out@ + replace_all(
                v@.skip(i as int),
                pattern@,
                replacement@,
            ),
        decreases n - i,
    {
        let ghost t = v@.skip(i as int);
        if occurs_in_at(&v, &p, i) {
            assert(t.take(plen as int) =~= v@.subrange(i as int, i + plen));
            assert(t.skip(plen as int) =~= v@.skip(i + plen));
            let ghost before = out@;
            let ghost rest = replace_all(v@.skip(i + plen), pattern@, replacement@);
            push_str(&mut out, replacement);
            assert(before + (replacement@ + rest) =~= out@ + rest);
            i = i + plen;
        } else {
            assert(t.take(plen as int) =~= v@.subrange(i as int, i + plen));
            assert(t.drop_first() =~= v@.skip(i + 1));
            assert(t[0] == v@[i as int]);
            let ghost before = out@;
            let ghost rest = replace_all(v@.skip(i + 1), pattern@, replacement@);
            push(&mut out, v[i]);
            assert(before + (seq![v@[i as int]] + rest) =~= out@ + rest);
            i = i + 1;
        }
    }
    let ghost t = v@.skip(i as int);
    assert(replace_all(t, pattern@, replacement@) == t);
    let rest = string_of_range(&v, i, n);
    push_str(&mut out, rest.as_str());
    assert(v@.subrange(i as int, n as int) =~= t);
    out
}

} // verus!
