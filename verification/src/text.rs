//! Text helpers over Unicode scalar values: comparison, search, replacement,
//! splitting, decimal parsing and formatting.

use vstd::prelude::*;
use vstd::string::*;

verus! {

/// Appends one character to a string (`String::push`).
#[verifier::external_body]
pub fn push_char(s: &mut String, c: char)
    ensures
        final(s)@ == old(s)@.push(c),
{
    s.push(c);
}

/// `p` occurs in `s` starting at position `i`.
pub open spec fn occurs_at(s: Seq<char>, p: Seq<char>, i: int) -> bool {
    0 <= i && i + p.len() <= s.len() && s.subrange(i, i + p.len()) == p
}

/// `p` occurs somewhere in `s`.
pub open spec fn occurs_in(s: Seq<char>, p: Seq<char>) -> bool {
    exists|i: int| occurs_at(s, p, i)
}

/// Whether `p` occurs in `s` at position `i`; `i + |p|` must lie within `s`.
pub fn matches_at(s: &str, p: &str, i: usize) -> (r: bool)
    requires
        i + p@.len() <= s@.len(),
    ensures
        r == occurs_at(s@, p@, i as int),
{
    let _slen = s.unicode_len();
    let plen = p.unicode_len();
    let mut j: usize = 0;
    while j < plen
        invariant
            plen == p@.len(),
            _slen == s@.len(),
            i + plen <= s@.len(),
            j <= plen,
            forall|k: int| 0 <= k < j ==> s@[i + k] == p@[k],
        decreases plen - j,
    {
        if s.get_char(i + j) != p.get_char(j) {
            assert(s@.subrange(i as int, i + plen)[j as int] != p@[j as int]);
            return false;
        }
        j = j + 1;
    }
    assert(s@.subrange(i as int, i + plen) =~= p@);
    true
}

/// Equality of two string slices.
pub fn str_eq(a: &str, b: &str) -> (r: bool)
    ensures
        r == (a@ == b@),
{
    if a.unicode_len() != b.unicode_len() {
        return false;
    }
    let r = matches_at(a, b, 0);
    assert(a@ =~= a@.subrange(0, b@.len() as int));
    r
}

/// Whether `s` begins with `p`.
pub fn starts_with(s: &str, p: &str) -> (r: bool)
    ensures
        r == occurs_at(s@, p@, 0),
{
    if p.unicode_len() > s.unicode_len() {
        return false;
    }
    matches_at(s, p, 0)
}

/// Whether `p` occurs anywhere in `s`.
pub fn contains(s: &str, p: &str) -> (r: bool)
    ensures
        r == occurs_in(s@, p@),
{
    let slen = s.unicode_len();
    let plen = p.unicode_len();
    if plen > slen {
        return false;
    }
    let mut i: usize = 0;
    loop
        invariant
            slen == s@.len(),
            plen == p@.len(),
            plen <= slen,
            i <= slen - plen,
            forall|k: int| 0 <= k < i ==> !occurs_at(s@, p@, k),
        decreases slen - plen - i,
    {
        if matches_at(s, p, i) {
            return true;
        }
        if i == slen - plen {
            return false;
        }
        i = i + 1;
    }
}

/// Each character of `s` followed by `t`.
pub open spec fn spread(s: Seq<char>, t: Seq<char>) -> Seq<char>
    decreases s.len(),
{
    if s.len() == 0 {
        s
    } else {
        seq![s[0]] + t + spread(s.skip(1), t)
    }
}

/// `s` with every match of `p` replaced by `t`, matches taken left to right
/// without overlap; an empty `p` matches before every character and at the end.
pub open spec fn replaced(s: Seq<char>, p: Seq<char>, t: Seq<char>) -> Seq<char>
    decreases s.len(),
{
    if p.len() == 0 {
        t + spread(s, t)
    } else if s.len() == 0 {
        s
    } else if p.len() <= s.len() && s.take(p.len() as int) == p {
        t + replaced(s.skip(p.len() as int), p, t)
    } else {
        seq![s[0]] + replaced(s.skip(1), p, t)
    }
}

/// Replaces every match of `from` in `s` with `to`.
pub fn replace_all(s: &str, from: &str, to: &str) -> (r: String)
    ensures
        r@ == replaced(s@, from@, to@),
{
    let slen = s.unicode_len();
    let plen = from.unicode_len();
    let mut out = String::new();
    if plen == 0 {
        out.append(to);
        assert(s@.skip(0) =~= s@);
        assert(out@ =~= to@);
        let mut i: usize = 0;
        while i < slen
            invariant
                slen == s@.len(),
                i <= slen,
                out@ + spread(s@.skip(i as int), to@) == to@ + spread(s@, to@),
            decreases slen - i,
        {
            let ghost before = out@;
            let c = s.get_char(i);
            push_char(&mut out, c);
            out.append(to);
            proof {
                let rest = s@.skip(i as int);
                assert(rest[0] == c);
                assert(rest.skip(1) =~= s@.skip(i + 1));
                assert(spread(rest, to@) == seq![c] + to@ + spread(s@.skip(i + 1), to@));
                assert(out@ + spread(s@.skip(i + 1), to@) =~= before + (seq![c] + to@ + spread(s@.skip(i + 1), to@)));
            }
            i = i + 1;
        }
        proof {
            assert(s@.skip(slen as int) =~= Seq::<char>::empty());
        }
        assert(out@ =~= to@ + spread(s@, to@));
        return out;
    }
    assert(s@.skip(0) =~= s@);
    assert(out@ + replaced(s@, from@, to@) =~= replaced(s@, from@, to@));
    let mut i: usize = 0;
    while i < slen
        invariant
            slen == s@.len(),
            plen == from@.len(),
            plen > 0,
            i <= slen,
            out@ + replaced(s@.skip(i as int), from@, to@) == replaced(s@, from@, to@),
        decreases slen - i,
    {
        let rest = Ghost(s@.skip(i as int));
        if plen <= slen - i && matches_at(s, from, i) {
            let ghost before = out@;
            out.append(to);
            proof {
                assert(rest@.take(plen as int) =~= s@.subrange(i as int, i + plen));
                assert(rest@.skip(plen as int) =~= s@.skip(i + plen));
                assert(before + replaced(rest@, from@, to@) == before + (to@ + replaced(s@.skip(i + plen), from@, to@)));
                assert(out@ + replaced(s@.skip(i + plen), from@, to@) =~= before + (to@ + replaced(s@.skip(i + plen), from@, to@)));
            }
            i = i + plen;
        } else {
            let ghost before = out@;
            let c = s.get_char(i);
            push_char(&mut out, c);
            proof {
                assert(rest@[0] == c);
                assert(rest@.skip(1) =~= s@.skip(i + 1));
                if plen <= rest@.len() {
                    assert(rest@.take(plen as int) =~= s@.subrange(i as int, i + plen));
                }
                assert(before + replaced(rest@, from@, to@) == before + (seq![c] + replaced(s@.skip(i + 1), from@, to@)));
                assert(out@ + replaced(s@.skip(i + 1), from@, to@) =~= before + (seq![c] + replaced(s@.skip(i + 1), from@, to@)));
            }
            i = i + 1;
        }
    }
    proof {
        assert(s@.skip(slen as int) =~= Seq::<char>::empty());
    }
    assert(out@ =~= replaced(s@, from@, to@));
    out
}


/// The views of a sequence of strings.
pub open spec fn texts(v: Seq<String>) -> Seq<Seq<char>> {
    v.map_values(|x: String| x@)
}

/// The pieces of `s` between occurrences of `sep`, in order; there is always
/// at least one piece, and adjacent separators give empty pieces.
pub open spec fn split_parts(s: Seq<char>, sep: char) -> Seq<Seq<char>>
    decreases s.len(),
{
    if s.len() == 0 {
        seq![Seq::<char>::empty()]
    } else {
        let r = split_parts(s.drop_last(), sep);
        if s.last() == sep {
            r.push(Seq::<char>::empty())
        } else {
            r.update(r.len() - 1, r.last().push(s.last()))
        }
    }
}

/// There is always at least one piece.
pub proof fn lemma_split_parts_nonempty(s: Seq<char>, sep: char)
    ensures
        split_parts(s, sep).len() >= 1,
    decreases s.len(),
{
    if s.len() > 0 {
        lemma_split_parts_nonempty(s.drop_last(), sep);
    }
}

/// Splits `s` at every occurrence of `sep` (`str::split` with a character).
pub fn split_char(s: &str, sep: char) -> (r: Vec<String>)
    ensures
        texts(r@) == split_parts(s@, sep),
{
    let slen = s.unicode_len();
    let mut parts: Vec<String> = Vec::new();
    let mut cur = String::new();
    assert(s@.take(0) =~= Seq::<char>::empty());
    assert(texts(parts@).push(cur@) =~= split_parts(s@.take(0), sep));
    let mut i: usize = 0;
    while i < slen
        invariant
            slen == s@.len(),
            i <= slen,
            texts(parts@).push(cur@) == split_parts(s@.take(i as int), sep),
        decreases slen - i,
    {
        let c = s.get_char(i);
        let ghost before = texts(parts@).push(cur@);
        proof {
            assert(s@.take(i + 1).drop_last() =~= s@.take(i as int));
            assert(s@.take(i + 1).last() == c);
            lemma_split_parts_nonempty(s@.take(i as int), sep);
        }
        if c == sep {
            parts.push(cur);
            cur = String::new();
            assert(texts(parts@).push(cur@) =~= before.push(Seq::<char>::empty()));
        } else {
            push_char(&mut cur, c);
            assert(texts(parts@).push(cur@) =~= before.update(before.len() - 1, before.last().push(c)));
        }
        i = i + 1;
    }
    parts.push(cur);
    assert(s@.take(slen as int) =~= s@);
    assert(texts(parts@) =~= split_parts(s@, sep));
    parts
}

/// An ASCII decimal digit.
pub open spec fn is_digit(c: char) -> bool {
    48 <= (c as int) && (c as int) <= 57
}

/// The value of an ASCII decimal digit.
pub open spec fn digit_value(c: char) -> int {
    (c as int) - 48
}

/// The ASCII digit for a value below ten.
pub open spec fn digit_char(d: int) -> char {
    (d + 48) as char
}

/// Every character of `s` is an ASCII decimal digit.
pub open spec fn all_digits(s: Seq<char>) -> bool {
    forall|i: int| 0 <= i < s.len() ==> is_digit(#[trigger] s[i])
}

/// The number that the digits `s` spell, most significant first.
pub open spec fn digits_value(s: Seq<char>) -> int
    decreases s.len(),
{
    if s.len() == 0 {
        0
    } else {
        digits_value(s.drop_last()) * 10 + digit_value(s.last())
    }
}

/// Decimal text of a natural number, without leading zeros.
pub open spec fn decimal_text(n: nat) -> Seq<char>
    decreases n,
{
    if n < 10 {
        seq![digit_char(n as int)]
    } else {
        decimal_text(n / 10).push(digit_char((n % 10) as int))
    }
}

/// Decimal text of an integer, with a leading `-` when negative (`i32::to_string`).
pub open spec fn signed_decimal_text(i: int) -> Seq<char> {
    if i < 0 {
        seq!['-'] + decimal_text((-i) as nat)
    } else {
        decimal_text(i as nat)
    }
}

fn digit_char_of(d: u64) -> (c: char)
    requires
        d < 10,
    ensures
        c == digit_char(d as int),
{
    let b: u8 = (d as u8) + 48;
    b as char
}

/// Appends the decimal text of `n`.
pub fn push_decimal(s: &mut String, n: u64)
    ensures
        final(s)@ == old(s)@ + decimal_text(n as nat),
    decreases n,
{
    if n >= 10 {
        push_decimal(s, n / 10);
    }
    let c = digit_char_of(n % 10);
    push_char(s, c);
    assert(final(s)@ =~= old(s)@ + decimal_text(n as nat)) by {
        if n >= 10 {
            assert(decimal_text(n as nat) == decimal_text((n / 10) as nat).push(c));
        }
    }
}

/// The decimal text of an `i32` (`i32::to_string`).
pub fn i32_text(i: i32) -> (r: String)
    ensures
        r@ == signed_decimal_text(i as int),
{
    let mut s = String::new();
    if i < 0 {
        push_char(&mut s, '-');
        let m: i64 = -(i as i64);
        push_decimal(&mut s, m as u64);
    } else {
        push_decimal(&mut s, i as u64);
    }
    assert(s@ =~= signed_decimal_text(i as int));
    s
}

/// `s` with one leading `+` removed.
pub open spec fn unsigned_body(s: Seq<char>) -> Seq<char> {
    if s.len() > 0 && s[0] == '+' {
        s.skip(1)
    } else {
        s
    }
}

/// `s` is non-empty and spells a number in `0..=max`.
pub open spec fn spells_at_most(s: Seq<char>, max: int) -> bool {
    s.len() > 0 && all_digits(s) && digits_value(s) <= max
}

/// `str::parse::<u32>`: an optional `+`, then at least one ASCII digit, with
/// a value that fits.
pub open spec fn parse_u32_spec(s: Seq<char>) -> Option<u32> {
    if spells_at_most(unsigned_body(s), u32::MAX as int) {
        Some(digits_value(unsigned_body(s)) as u32)
    } else {
        None
    }
}

/// `str::parse::<i32>`: an optional sign, then at least one ASCII digit, with
/// a value that fits.
pub open spec fn parse_i32_spec(s: Seq<char>) -> Option<i32> {
    if s.len() > 0 && s[0] == '-' {
        if spells_at_most(s.skip(1), 2147483648) {
            Some((-digits_value(s.skip(1))) as i32)
        } else {
            None
        }
    } else if spells_at_most(unsigned_body(s), i32::MAX as int) {
        Some(digits_value(unsigned_body(s)) as i32)
    } else {
        None
    }
}

proof fn lemma_digits_value_nonneg(s: Seq<char>)
    requires
        all_digits(s),
    ensures
        digits_value(s) >= 0,
    decreases s.len(),
{
    if s.len() > 0 {
        assert(all_digits(s.drop_last()));
        lemma_digits_value_nonneg(s.drop_last());
        assert(is_digit(s[s.len() - 1]));
    }
}

/// The digits of `s` from `start` on: `None` unless there is at least one and
/// all are ASCII digits, else their value capped at `cap`.
fn digits_capped(s: &str, start: usize, cap: u64) -> (r: Option<u64>)
    requires
        start <= s@.len(),
        cap <= 4294967296,
    ensures
        r is Some <==> (s@.skip(start as int).len() > 0 && all_digits(s@.skip(start as int))),
        r matches Some(v) ==> v == if digits_value(s@.skip(start as int)) < cap {
            digits_value(s@.skip(start as int))
        } else {
            cap as int
        },
{
    let slen = s.unicode_len();
    if start >= slen {
        return None;
    }
    let mut acc: u64 = 0;
    let mut i: usize = start;
    assert(s@.subrange(start as int, start as int) =~= Seq::<char>::empty());
    while i < slen
        invariant
            slen == s@.len(),
            start < slen,
            start <= i <= slen,
            cap <= 4294967296,
            all_digits(s@.subrange(start as int, i as int)),
            acc as int == if digits_value(s@.subrange(start as int, i as int)) < cap {
                digits_value(s@.subrange(start as int, i as int))
            } else {
                cap as int
            },
        decreases slen - i,
    {
        let c = s.get_char(i);
        let ghost prev = s@.subrange(start as int, i as int);
        let ghost next = s@.subrange(start as int, i + 1);
        if !(c >= '0' && c <= '9') {
            proof {
                assert(s@.skip(start as int)[i - start] == c);
            }
            return None;
        }
        let d: u64 = (c as u64) - 48;
        proof {
            assert(next.drop_last() =~= prev);
            assert(next.last() == c);
            assert(all_digits(next));
            lemma_digits_value_nonneg(prev);
            let v = digits_value(prev);
            assert(digits_value(next) == v * 10 + d);
            assert((if v < cap { v } else { cap as int }) * 10 + d >= cap ==> v * 10 + d >= cap)
                by (nonlinear_arith)
                requires
                    v >= 0,
                    cap >= 0,
                    d >= 0,
            ;
            assert(v >= cap ==> v * 10 + d >= cap) by (nonlinear_arith)
                requires
                    v >= 0,
                    d >= 0,
            ;
        }
        let grown: u64 = acc * 10 + d;
        acc = if grown < cap { grown } else { cap };
        i = i + 1;
    }
    assert(s@.subrange(start as int, slen as int) =~= s@.skip(start as int));
    Some(acc)
}

/// `str::parse::<u32>`, as an `Option`.
pub fn parse_u32(s: &str) -> (r: Option<u32>)
    ensures
        r == parse_u32_spec(s@),
{
    let slen = s.unicode_len();
    let start: usize = if slen > 0 && s.get_char(0) == '+' { 1 } else { 0 };
    assert(s@.skip(0) =~= s@);
    assert(unsigned_body(s@) == s@.skip(start as int));
    match digits_capped(s, start, 4294967296) {
        Some(v) => {
            if v <= 4294967295 {
                Some(v as u32)
            } else {
                None
            }
        },
        None => None,
    }
}

/// `str::parse::<i32>`, as an `Option`.
pub fn parse_i32(s: &str) -> (r: Option<i32>)
    ensures
        r == parse_i32_spec(s@),
{
    let slen = s.unicode_len();
    assert(s@.skip(0) =~= s@);
    if slen > 0 && s.get_char(0) == '-' {
        match digits_capped(s, 1, 2147483649) {
            Some(v) => {
                if v <= 2147483648 {
                    let neg: i64 = -(v as i64);
                    Some(neg as i32)
                } else {
                    None
                }
            },
            None => None,
        }
    } else {
        let start: usize = if slen > 0 && s.get_char(0) == '+' { 1 } else { 0 };
        assert(unsigned_body(s@) == s@.skip(start as int));
        match digits_capped(s, start, 2147483648) {
            Some(v) => {
                if v <= 2147483647 {
                    Some(v as i32)
                } else {
                    None
                }
            },
            None => None,
        }
    }
}

/// The decimal text of a natural number is a non-empty run of digits that
/// spells the number.
pub proof fn lemma_decimal_text_spells(m: nat)
    ensures
        decimal_text(m).len() > 0,
        all_digits(decimal_text(m)),
        digits_value(decimal_text(m)) == m,
    decreases m,
{
    let t = decimal_text(m);
    if m < 10 {
        assert(digit_value(digit_char(m as int)) == m);
        assert(t.drop_last() =~= Seq::<char>::empty());
        assert(digits_value(Seq::<char>::empty()) == 0);
        assert(digits_value(t) == digits_value(t.drop_last()) * 10 + digit_value(t.last()));
    } else {
        lemma_decimal_text_spells(m / 10);
        let d = (m % 10) as int;
        assert(digit_value(digit_char(d)) == d);
        assert(t.drop_last() =~= decimal_text(m / 10));
        assert(t.last() == digit_char(d));
        assert(m == (m / 10) * 10 + m % 10) by (nonlinear_arith);
        assert(digits_value(t) == digits_value(t.drop_last()) * 10 + digit_value(t.last()));
        assert forall|i: int| 0 <= i < t.len() implies is_digit(#[trigger] t[i]) by {
            if i < t.len() - 1 {
                assert(t[i] == decimal_text(m / 10)[i]);
            }
        }
    }
}

/// A number that `i32_text` prints, `parse_i32` reads back.
pub proof fn law_i32_text_parses_back(n: i32)
    ensures
        parse_i32_spec(signed_decimal_text(n as int)) == Some(n),
{
    let s = signed_decimal_text(n as int);
    if n < 0 {
        let m = (-(n as int)) as nat;
        lemma_decimal_text_spells(m);
        assert(s.skip(1) =~= decimal_text(m));
        assert(s[0] == '-');
    } else {
        lemma_decimal_text_spells(n as nat);
        let t = decimal_text(n as nat);
        assert(is_digit(t[0]));
        assert(unsigned_body(s) == s);
    }
}

/// A number that `push_decimal` prints, `parse_u32` reads back.
pub proof fn law_u32_text_parses_back(n: u32)
    ensures
        parse_u32_spec(decimal_text(n as nat)) == Some(n),
{
    lemma_decimal_text_spells(n as nat);
    let t = decimal_text(n as nat);
    assert(is_digit(t[0]));
    assert(unsigned_body(t) == t);
}

/// Replacing a character that does not occur leaves the text unchanged.
pub proof fn lemma_replaced_absent_char(s: Seq<char>, c: char, t: Seq<char>)
    requires
        forall|i: int| 0 <= i < s.len() ==> s[i] != c,
    ensures
        replaced(s, seq![c], t) == s,
    decreases s.len(),
{
    if s.len() > 0 {
        assert(s.take(1) =~= seq![s[0]]);
        assert(s.take(1) != seq![c]) by {
            assert(s.take(1)[0] == s[0]);
        }
        lemma_replaced_absent_char(s.skip(1), c, t);
        assert(seq![s[0]] + s.skip(1) =~= s);
    }
}

/// The last piece of `s + d`, split at `sep`, when `s` ends with `sep` and
/// `d` holds no `sep`, is `d`.
pub proof fn lemma_split_last_piece(s: Seq<char>, d: Seq<char>, sep: char)
    requires
        s.len() > 0,
        s.last() == sep,
        forall|i: int| 0 <= i < d.len() ==> d[i] != sep,
    ensures
        split_parts(s + d, sep).last() == d,
    decreases d.len(),
{
    if d.len() == 0 {
        assert(s + d =~= s);
        lemma_split_parts_nonempty(s.drop_last(), sep);
    } else {
        lemma_split_last_piece(s, d.drop_last(), sep);
        assert((s + d).drop_last() =~= s + d.drop_last());
        assert((s + d).last() == d.last());
        lemma_split_parts_nonempty(s + d.drop_last(), sep);
        assert(d.drop_last().push(d.last()) =~= d);
    }
}

} // verus!
