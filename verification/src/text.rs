//! Character-level text helpers: conversion between `&str` and `Vec<char>`,
//! whitespace trimming, and decimal formatting of integers.

use vstd::prelude::*;

verus! {

broadcast use vstd::string::axiom_spec_iter;

/// A character the library treats as whitespace when trimming input
/// fields: the Unicode `White_Space` set, the same set `str::trim`
/// removes.
pub open spec fn is_ws(c: char) -> bool {
    c == '\u{9}' || c == '\u{a}' || c == '\u{b}' || c == '\u{c}' || c == '\u{d}' || c == ' '
        || c == '\u{85}' || c == '\u{a0}' || c == '\u{1680}' || c == '\u{2000}' || c == '\u{2001}'
        || c == '\u{2002}' || c == '\u{2003}' || c == '\u{2004}' || c == '\u{2005}'
        || c == '\u{2006}' || c == '\u{2007}' || c == '\u{2008}' || c == '\u{2009}'
        || c == '\u{200a}' || c == '\u{2028}' || c == '\u{2029}' || c == '\u{202f}'
        || c == '\u{205f}' || c == '\u{3000}'
}

/// Whether `c` is a whitespace character, executable form.
pub fn is_ws_char(c: char) -> (r: bool)
    ensures
        r == is_ws(c),
{
    c == '\u{9}' || c == '\u{a}' || c == '\u{b}' || c == '\u{c}' || c == '\u{d}' || c == ' '
        || c == '\u{85}' || c == '\u{a0}' || c == '\u{1680}' || c == '\u{2000}' || c == '\u{2001}'
        || c == '\u{2002}' || c == '\u{2003}' || c == '\u{2004}' || c == '\u{2005}'
        || c == '\u{2006}' || c == '\u{2007}' || c == '\u{2008}' || c == '\u{2009}'
        || c == '\u{200a}' || c == '\u{2028}' || c == '\u{2029}' || c == '\u{202f}'
        || c == '\u{205f}' || c == '\u{3000}'
}

/// `s` with its leading whitespace removed.
pub open spec fn trim_front(s: Seq<char>) -> Seq<char>
    decreases s.len(),
{
    if s.len() > 0 && is_ws(s[0]) {
        trim_front(s.drop_first())
    } else {
        s
    }
}

/// `s` with its trailing whitespace removed.
pub open spec fn trim_back(s: Seq<char>) -> Seq<char>
    decreases s.len(),
{
    if s.len() > 0 && is_ws(s.last()) {
        trim_back(s.drop_last())
    } else {
        s
    }
}

/// `s` with both leading and trailing whitespace removed.
pub open spec fn trim_spec(s: Seq<char>) -> Seq<char> {
    trim_back(trim_front(s))
}

proof fn lemma_trim_front_skip(s: Seq<char>, i: int)
    requires
        0 <= i <= s.len(),
        forall|k: int| 0 <= k < i ==> is_ws(s[k]),
        i < s.len() ==> !is_ws(s[i]),
    ensures
        trim_front(s) == s.subrange(i, s.len() as int),
    decreases i,
{
    if i == 0 {
        assert(s.subrange(0, s.len() as int) =~= s);
    } else {
        let t = s.drop_first();
        assert(forall|k: int| 0 <= k < i - 1 ==> is_ws(t[k]));
        lemma_trim_front_skip(t, i - 1);
        assert(t.subrange(i - 1, t.len() as int) =~= s.subrange(i, s.len() as int));
    }
}

proof fn lemma_trim_back_keep(s: Seq<char>, j: int)
    requires
        0 <= j <= s.len(),
        forall|k: int| j <= k < s.len() ==> is_ws(s[k]),
        j > 0 ==> !is_ws(s[j - 1]),
    ensures
        trim_back(s) == s.subrange(0, j),
    decreases s.len() - j,
{
    if j == s.len() {
        assert(s.subrange(0, s.len() as int) =~= s);
    } else {
        let t = s.drop_last();
        assert(forall|k: int| j <= k < t.len() ==> is_ws(t[k]));
        lemma_trim_back_keep(t, j);
        assert(t.subrange(0, j) =~= s.subrange(0, j));
    }
}

/// The characters of `s`, in order, as a vector.
pub fn chars_of(s: &str) -> (r: Vec<char>)
    ensures
        r@ == s@,
{
    let mut out: Vec<char> = Vec::new();
    for c in it: s.chars()
        invariant
            out@ =~= it.seq().subrange(0, it.index() as int),
    {
        out.push(c);
    }
    proof {
        assert(out@ =~= s@);
    }
    out
}

/// Appends the characters of `src` to `dst`.
pub fn extend_chars(dst: &mut Vec<char>, src: &Vec<char>)
    ensures
        final(dst)@ == old(dst)@ + src@,
{
    let mut k: usize = 0;
    while k < src.len()
        invariant
            k <= src.len(),
            dst@ =~= old(dst)@ + src@.subrange(0, k as int),
        decreases src.len() - k,
    {
        dst.push(src[k]);
        k += 1;
    }
    proof {
        assert(dst@ =~= old(dst)@ + src@);
    }
}

/// The characters of `v` with leading and trailing whitespace removed.
pub fn trim_chars(v: &Vec<char>) -> (r: Vec<char>)
    ensures
        r@ == trim_spec(v@),
{
    let mut i: usize = 0;
    while i < v.len() && is_ws_char(v[i])
        invariant
            i <= v.len(),
            forall|k: int| 0 <= k < i ==> is_ws(v@[k]),
        decreases v.len() - i,
    {
        i += 1;
    }
    let mut j: usize = v.len();
    while j > i && is_ws_char(v[j - 1])
        invariant
            i <= j <= v.len(),
            forall|k: int| j <= k < v@.len() ==> is_ws(v@[k]),
        decreases j,
    {
        j -= 1;
    }
    let mut out: Vec<char> = Vec::new();
    let mut k: usize = i;
    while k < j
        invariant
            i <= k <= j <= v.len(),
            out@ =~= v@.subrange(i as int, k as int),
        decreases j - k,
    {
        out.push(v[k]);
        k += 1;
    }
    proof {
        lemma_trim_front_skip(v@, i as int);
        let t = v@.subrange(i as int, v@.len() as int);
        assert(forall|k: int| j - i <= k < t.len() ==> is_ws(t[k]));
        lemma_trim_back_keep(t, j - i);
        assert(t.subrange(0, j - i) =~= v@.subrange(i as int, j as int));
        assert(out@ =~= trim_spec(v@));
    }
    out
}

/// Relies on `String::from_iter`: collecting characters yields the string
/// made of exactly those characters, in order.
#[verifier::external_body]
pub fn string_from_chars(v: Vec<char>) -> (r: String)
    ensures
        r@ == v@,
{
    String::from_iter(v)
}

/// The decimal digit character for `d`.
pub open spec fn digit_char(d: int) -> char {
    if d == 0 {
        '0'
    } else if d == 1 {
        '1'
    } else if d == 2 {
        '2'
    } else if d == 3 {
        '3'
    } else if d == 4 {
        '4'
    } else if d == 5 {
        '5'
    } else if d == 6 {
        '6'
    } else if d == 7 {
        '7'
    } else if d == 8 {
        '8'
    } else {
        '9'
    }
}

/// The decimal representation of `n`, without sign or padding.
pub open spec fn dec_nat(n: nat) -> Seq<char>
    decreases n,
{
    if n < 10 {
        seq![digit_char(n as int)]
    } else {
        dec_nat(n / 10).push(digit_char((n % 10) as int))
    }
}

/// The decimal representation of `n`, with a leading minus sign when negative.
pub open spec fn dec_int(n: int) -> Seq<char> {
    if n < 0 {
        seq!['-'] + dec_nat((-n) as nat)
    } else {
        dec_nat(n as nat)
    }
}

/// The decimal digits of `n`.
pub fn u64_to_chars(n: u64) -> (r: Vec<char>)
    ensures
        r@ == dec_nat(n as nat),
{
    let mut tmp: Vec<char> = Vec::new();
    let mut m: u64 = n;
    if m == 0 {
        tmp.push('0');
        proof {
            assert(tmp@ =~= dec_nat(0));
        }
        return tmp;
    }
    while m > 0
        invariant
            m > 0 ==> dec_nat(n as nat) =~= dec_nat(m as nat) + tmp@.reverse(),
            m == 0 ==> dec_nat(n as nat) =~= tmp@.reverse(),
        decreases m,
    {
        let d: u64 = m % 10;
        proof {
            let old_tmp = tmp@;
            assert(old_tmp.push(digit_char(d as int)).reverse() =~= seq![
                digit_char(d as int),
            ] + old_tmp.reverse());
        }
        tmp.push(digit_char_of(d));
        m = m / 10;
        proof {
            if m > 0 {
                assert(dec_nat((m * 10 + d) as nat) == dec_nat(m as nat).push(
                    digit_char(d as int),
                ));
                assert(dec_nat(m as nat).push(digit_char(d as int)) + tmp@.reverse().drop_first()
                    =~= dec_nat(m as nat) + tmp@.reverse());
            }
        }
    }
    let mut out: Vec<char> = Vec::new();
    let mut k: usize = 0;
    while k < tmp.len()
        invariant
            k <= tmp.len(),
            out@.len() == k,
            forall|q: int| 0 <= q < k ==> out@[q] == tmp@[tmp@.len() - 1 - q],
        decreases tmp.len() - k,
    {
        out.push(tmp[tmp.len() - 1 - k]);
        k += 1;
    }
    proof {
        assert(out@ =~= tmp@.reverse());
    }
    out
}

/// The decimal digit character for `d`, executable form.
pub fn digit_char_of(d: u64) -> (r: char)
    requires
        d < 10,
    ensures
        r == digit_char(d as int),
{
    if d == 0 {
        '0'
    } else if d == 1 {
        '1'
    } else if d == 2 {
        '2'
    } else if d == 3 {
        '3'
    } else if d == 4 {
        '4'
    } else if d == 5 {
        '5'
    } else if d == 6 {
        '6'
    } else if d == 7 {
        '7'
    } else if d == 8 {
        '8'
    } else {
        '9'
    }
}

/// The decimal digits of `n`, sign included.
pub fn i64_to_chars(n: i64) -> (r: Vec<char>)
    ensures
        r@ == dec_int(n as int),
{
    if n >= 0 {
        let r = u64_to_chars(n as u64);
        r
    } else {
        let mag: u64 = if n == i64::MIN {
            9223372036854775808u64
        } else {
            (-n) as u64
        };
        proof {
            assert(mag as nat == (-(n as int)) as nat);
        }
        let mut out: Vec<char> = Vec::new();
        out.push('-');
        let digits = u64_to_chars(mag);
        extend_chars(&mut out, &digits);
        proof {
            assert(out@ =~= dec_int(n as int));
        }
        out
    }
}

/// The decimal representation of `n` left-padded with zeroes to at least `w`
/// characters.
pub open spec fn padded_dec(n: nat, w: nat) -> Seq<char>
    decreases w,
{
    if dec_nat(n).len() >= w {
        dec_nat(n)
    } else {
        seq!['0'] + padded_dec(n, (w - 1) as nat)
    }
}

/// The decimal digits of `n`, zero-padded on the left to at least `w`
/// characters.
pub fn padded_u64_chars(n: u64, w: usize) -> (r: Vec<char>)
    ensures
        r@ == padded_dec(n as nat, w as nat),
{
    let digits = u64_to_chars(n);
    let mut out: Vec<char> = Vec::new();
    let mut z: usize = 0;
    while z + digits.len() < w
        invariant
            digits@ == dec_nat(n as nat),
            out@.len() == z,
            forall|q: int| 0 <= q < z ==> out@[q] == '0',
            dec_nat(n as nat).len() >= w ==> z == 0,
            dec_nat(n as nat).len() < w ==> z + dec_nat(n as nat).len() <= w,
        decreases w - z,
    {
        out.push('0');
        z += 1;
    }
    proof {
        lemma_padded_shape(n as nat, w as nat);
        let p = padded_dec(n as nat, w as nat);
        assert(out@ + digits@ =~= p);
    }
    extend_chars(&mut out, &digits);
    out
}

proof fn lemma_padded_shape(n: nat, w: nat)
    ensures
        padded_dec(n, w).len() == if dec_nat(n).len() >= w {
            dec_nat(n).len() as int
        } else {
            w as int
        },
        padded_dec(n, w).skip(padded_dec(n, w).len() - dec_nat(n).len()) == dec_nat(n),
        forall|k: int|
            0 <= k < padded_dec(n, w).len() - dec_nat(n).len() ==> padded_dec(n, w)[k] == '0',
    decreases w,
{
    if dec_nat(n).len() >= w {
        assert(padded_dec(n, w).skip(0) =~= dec_nat(n));
    } else {
        lemma_padded_shape(n, (w - 1) as nat);
        let p = padded_dec(n, (w - 1) as nat);
        assert((seq!['0'] + p).skip((seq!['0'] + p).len() - dec_nat(n).len()) =~= p.skip(
            p.len() - dec_nat(n).len(),
        ));
    }
}

} // verus!
