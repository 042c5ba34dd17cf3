//! Small verified building blocks shared across the library: character
//! classification, lexicographic string order, substring search, and
//! decimal formatting and parsing for fixed-width date fields.

use vstd::prelude::*;

verus! {

// ---------------------------------------------------------------------------
// String equality and lexicographic order
// ---------------------------------------------------------------------------

/// Exact string equality, stated over the character sequences.
pub fn str_eq(a: &str, b: &str) -> (r: bool)
    ensures
        r == (a@ == b@),
{
    let sa = a.to_owned();
    let sb = b.to_owned();
    sa == sb
}

/// Lexicographic order on character sequences, by code point.  On the
/// fixed-width `YYYY-MM-DD` date strings used throughout this library it
/// coincides with chronological order.
pub open spec fn lex_le(a: Seq<char>, b: Seq<char>) -> bool
    decreases a.len(),
{
    if a.len() == 0 {
        true
    } else if b.len() == 0 {
        false
    } else if (a[0] as u32) < (b[0] as u32) {
        true
    } else if (a[0] as u32) > (b[0] as u32) {
        false
    } else {
        lex_le(a.subrange(1, a.len() as int), b.subrange(1, b.len() as int))
    }
}

/// Decides `lex_le(a@, b@)`.
pub fn str_le(a: &str, b: &str) -> (r: bool)
    ensures
        r == lex_le(a@, b@),
{
    let la = a.unicode_len();
    let lb = b.unicode_len();
    let mut i: usize = 0;
    assert(a@.skip(0) =~= a@);
    assert(b@.skip(0) =~= b@);
    loop
        invariant
            i <= la,
            i <= lb,
            la == a@.len(),
            lb == b@.len(),
            lex_le(a@, b@) == lex_le(a@.skip(i as int), b@.skip(i as int)),
        decreases la - i,
    {
        if i >= la {
            assert(a@.skip(i as int).len() == 0);
            return true;
        }
        if i >= lb {
            assert(b@.skip(i as int).len() == 0);
            assert(a@.skip(i as int).len() > 0);
            return false;
        }
        let ca = a.get_char(i);
        let cb = b.get_char(i);
        assert(a@.skip(i as int)[0] == a@[i as int]);
        assert(b@.skip(i as int)[0] == b@[i as int]);
        if (ca as u32) < (cb as u32) {
            return true;
        }
        if (ca as u32) > (cb as u32) {
            return false;
        }
        assert(a@.skip(i as int).subrange(1, a@.skip(i as int).len() as int) =~= a@.skip(
            i as int + 1,
        ));
        assert(b@.skip(i as int).subrange(1, b@.skip(i as int).len() as int) =~= b@.skip(
            i as int + 1,
        ));
        i = i + 1;
    }
}

// ---------------------------------------------------------------------------
// Substring search
// ---------------------------------------------------------------------------

/// `needle` occurs in `hay` starting at position `i`.
pub open spec fn has_sub_at(hay: Seq<char>, needle: Seq<char>, i: int) -> bool {
    0 <= i && i + needle.len() <= hay.len() && hay.subrange(i, i + needle.len()) == needle
}

/// `needle` occurs somewhere in `hay`.
pub open spec fn contains_sub(hay: Seq<char>, needle: Seq<char>) -> bool {
    exists|i: int| has_sub_at(hay, needle, i)
}

/// Decides substring containment, by character.
pub fn contains_str(hay: &str, needle: &str) -> (r: bool)
    ensures
        r == contains_sub(hay@, needle@),
{
    let lh = hay.unicode_len();
    let ln = needle.unicode_len();
    if ln > lh {
        assert(forall|i: int| !has_sub_at(hay@, needle@, i));
        return false;
    }
    if ln == 0 {
        assert(hay@.subrange(0, 0) =~= needle@);
        assert(has_sub_at(hay@, needle@, 0));
        return true;
    }
    let mut i: usize = 0;
    while i <= lh - ln
        invariant
            0 < ln <= lh,
            lh == hay@.len(),
            ln == needle@.len(),
            i <= lh - ln + 1,
            forall|k: int| 0 <= k < i ==> !has_sub_at(hay@, needle@, k),
        decreases lh - ln + 1 - i,
    {
        let mut j: usize = 0;
        let mut all_eq = true;
        while j < ln && all_eq
            invariant
                ln <= lh,
                lh == hay@.len(),
                ln == needle@.len(),
                i + ln <= lh,
                j <= ln,
                all_eq ==> hay@.subrange(i as int, i + j as int) =~= needle@.subrange(0, j as int),
                !all_eq ==> hay@.subrange(i as int, i + ln as int) != needle@,
            decreases ln - j, (if all_eq { 1int } else { 0int }),
        {
            let ch = hay.get_char(i + j);
            let cn = needle.get_char(j);
            if ch != cn {
                // A mismatch inside the window rules this offset out for good.
                assert(hay@.subrange(i as int, i + ln as int) != needle@) by {
                    assert(hay@.subrange(i as int, i + ln as int)[j as int] == hay@[i + j]);
                }
                all_eq = false;
            } else {
                assert(hay@.subrange(i as int, i + j as int + 1) =~= needle@.subrange(
                    0,
                    j as int + 1,
                )) by {
                    assert(hay@.subrange(i as int, i + j as int) =~= needle@.subrange(0, j as int));
                    assert(hay@.subrange(i as int, i + j as int + 1)[j as int] == hay@[i + j]);
                    assert(forall|k: int|
                        0 <= k < j ==> #[trigger] hay@.subrange(i as int, i + j as int + 1)[k]
                            == hay@.subrange(i as int, i + j as int)[k]);
                }
                j = j + 1;
            }
        }
        if all_eq {
            assert(needle@.subrange(0, ln as int) =~= needle@);
            assert(has_sub_at(hay@, needle@, i as int));
            return true;
        }
        assert(!has_sub_at(hay@, needle@, i as int));
        i = i + 1;
    }
    assert(forall|k: int| !has_sub_at(hay@, needle@, k));
    false
}

// ---------------------------------------------------------------------------
// Filtering, step by step
// ---------------------------------------------------------------------------

/// Nothing of an empty prefix passes a filter.
pub proof fn lemma_filter_take_zero<A>(s: Seq<A>, pred: spec_fn(A) -> bool)
    ensures
        s.take(0).filter(pred) == Seq::<A>::empty(),
{
    reveal(Seq::filter);
    assert(s.take(0) =~= Seq::<A>::empty());
}

/// Extending a prefix by one element extends its filtered image by that
/// element exactly when the element passes the filter.
pub proof fn lemma_filter_take_step<A>(s: Seq<A>, i: int, pred: spec_fn(A) -> bool)
    requires
        0 <= i < s.len(),
    ensures
        s.take(i + 1).filter(pred) == (if pred(s[i]) {
            s.take(i).filter(pred).push(s[i])
        } else {
            s.take(i).filter(pred)
        }),
{
    reveal(Seq::filter);
    assert(s.take(i + 1).drop_last() =~= s.take(i));
    assert(s.take(i + 1).last() == s[i]);
}

/// A sequence is the `len`-prefix of itself.
pub proof fn lemma_take_all<A>(s: Seq<A>)
    ensures
        s.take(s.len() as int) == s,
{
    assert(s.take(s.len() as int) =~= s);
}

// ---------------------------------------------------------------------------
// Decimal digits: formatting
// ---------------------------------------------------------------------------

/// The character for one decimal digit.
pub open spec fn digit_char(d: nat) -> char {
    ((48 + d) as u8) as char
}

/// The decimal digits of `n`, most significant first, no leading zeros.
pub open spec fn dec_rec(n: nat) -> Seq<char>
    decreases n,
{
    if n < 10 {
        seq![digit_char(n)]
    } else {
        dec_rec(n / 10).push(digit_char(n % 10))
    }
}

/// The decimal digits of `n`, left-padded with zeros to at least `w` characters.
pub open spec fn padded_dec(n: nat, w: nat) -> Seq<char> {
    if dec_rec(n).len() >= w {
        dec_rec(n)
    } else {
        Seq::new((w - dec_rec(n).len()) as nat, |i: int| '0') + dec_rec(n)
    }
}

/// One decimal digit as a string slice.
pub fn digit_str(d: u8) -> (r: &'static str)
    requires
        d < 10,
    ensures
        r@ =~= seq![digit_char(d as nat)],
{
    proof {
        reveal_strlit("0");
        reveal_strlit("1");
        reveal_strlit("2");
        reveal_strlit("3");
        reveal_strlit("4");
        reveal_strlit("5");
        reveal_strlit("6");
        reveal_strlit("7");
        reveal_strlit("8");
        reveal_strlit("9");
    }
    match d {
        0 => "0",
        1 => "1",
        2 => "2",
        3 => "3",
        4 => "4",
        5 => "5",
        6 => "6",
        7 => "7",
        8 => "8",
        _ => "9",
    }
}

/// Appends the decimal digits of `n` to `s`.
pub fn push_dec(s: &mut String, n: u64)
    ensures
        final (s)@ == old(s)@ + dec_rec(n as nat),
    decreases n,
{
    if n < 10 {
        s.append(digit_str(n as u8));
    } else {
        push_dec(s, n / 10);
        s.append(digit_str((n % 10) as u8));
        assert(old(s)@ + dec_rec((n / 10) as nat) + seq![digit_char((n % 10) as nat)] =~= old(s)@
            + dec_rec(n as nat));
    }
}

proof fn lemma_dec_len_small(n: nat)
    ensures
        n < 10 ==> dec_rec(n).len() == 1,
        10 <= n < 100 ==> dec_rec(n).len() == 2,
        100 <= n < 1000 ==> dec_rec(n).len() == 3,
        1000 <= n < 10000 ==> dec_rec(n).len() == 4,
        n >= 10000 ==> dec_rec(n).len() >= 5,
    decreases n,
{
    if n >= 10 {
        lemma_dec_len_small(n / 10);
    }
}

/// Appends the digits of `n` padded with zeros to at least two characters.
pub fn push_padded2(s: &mut String, n: u64)
    ensures
        final (s)@ == old(s)@ + padded_dec(n as nat, 2),
{
    proof {
        lemma_dec_len_small(n as nat);
    }
    if n < 10 {
        s.append(digit_str(0));
        push_dec(s, n);
        assert(Seq::new(1nat, |i: int| '0') =~= seq![digit_char(0)]);
        assert(old(s)@ + seq![digit_char(0)] + dec_rec(n as nat) =~= old(s)@ + padded_dec(
            n as nat,
            2,
        ));
    } else {
        push_dec(s, n);
    }
}

/// Appends the digits of `n` padded with zeros to at least four characters.
pub fn push_padded4(s: &mut String, n: u64)
    ensures
        final (s)@ == old(s)@ + padded_dec(n as nat, 4),
{
    proof {
        lemma_dec_len_small(n as nat);
    }
    let ghost s0 = s@;
    let mut zeros: u64 = 0;
    if n < 10 {
        zeros = 3;
        s.append(digit_str(0));
        s.append(digit_str(0));
        s.append(digit_str(0));
    } else if n < 100 {
        zeros = 2;
        s.append(digit_str(0));
        s.append(digit_str(0));
    } else if n < 1000 {
        zeros = 1;
        s.append(digit_str(0));
    }
    push_dec(s, n);
    proof {
        if n < 1000 {
            assert(Seq::new((4 - dec_rec(n as nat).len()) as nat, |i: int| '0') =~= if n < 10 {
                seq![digit_char(0), digit_char(0), digit_char(0)]
            } else if n < 100 {
                seq![digit_char(0), digit_char(0)]
            } else {
                seq![digit_char(0)]
            });
        }
        assert(s@ =~= s0 + padded_dec(n as nat, 4));
    }
}

// ---------------------------------------------------------------------------
// Decimal digits: parsing
// ---------------------------------------------------------------------------

/// Whether `c` is an ASCII decimal digit.
pub open spec fn is_digit(c: char) -> bool {
    48 <= (c as u32) <= 57
}

/// The numeric value of one digit character.
pub open spec fn digit_val(c: char) -> nat {
    ((c as u32) - 48) as nat
}

/// Every character of `s` is a decimal digit.
pub open spec fn all_digits(s: Seq<char>) -> bool {
    forall|i: int| 0 <= i < s.len() ==> is_digit(s[i])
}

/// The value of a digit string, most significant digit first.
pub open spec fn dec_val(s: Seq<char>) -> nat
    decreases s.len(),
{
    if s.len() == 0 {
        0
    } else {
        dec_val(s.drop_last()) * 10 + digit_val(s.last())
    }
}

proof fn lemma_dec_val_grows(s: Seq<char>, n: int)
    requires
        0 <= n <= s.len(),
    ensures
        dec_val(s) >= dec_val(s.subrange(0, n)),
    decreases s.len() - n,
{
    if n < s.len() {
        lemma_dec_val_grows(s, n + 1);
        assert(s.subrange(0, n + 1).drop_last() =~= s.subrange(0, n));
        assert(dec_val(s.subrange(0, n + 1)) >= dec_val(s.subrange(0, n)));
    } else {
        assert(s.subrange(0, n) =~= s);
    }
}

/// Parses `s` as an unsigned decimal number.  Returns the value exactly
/// when `s` is a non-empty digit string whose value is at most `max`;
/// returns `None` otherwise.
pub fn parse_digits(s: &str, max: u64) -> (r: Option<u64>)
    ensures
        match r {
            Some(v) => s@.len() > 0 && all_digits(s@) && dec_val(s@) == v && v <= max,
            None => s@.len() == 0 || !all_digits(s@) || dec_val(s@) > max,
        },
{
    let len = s.unicode_len();
    if len == 0 {
        return None;
    }
    let mut acc: u64 = 0;
    let mut i: usize = 0;
    while i < len
        invariant
            len == s@.len(),
            0 < len,
            i <= len,
            all_digits(s@.subrange(0, i as int)),
            acc == dec_val(s@.subrange(0, i as int)),
            acc <= max,
            max <= u64::MAX,
        decreases len - i,
    {
        let c = s.get_char(i);
        let cv = c as u32;
        if cv < 48 || cv > 57 {
            assert(!is_digit(s@[i as int]));
            return None;
        }
        let d = (cv - 48) as u64;
        // The next accumulated value, computed wide enough not to overflow.
        if acc > max / 10 || (acc == max / 10 && d > max % 10) {
            proof {
                assert(s@.subrange(0, i as int + 1).drop_last() =~= s@.subrange(0, i as int));
                assert(dec_val(s@.subrange(0, i as int + 1)) == acc * 10 + d);
                assert(acc * 10 + d > max) by (nonlinear_arith)
                    requires
                        acc > max / 10 || (acc == max / 10 && d > max % 10),
                        acc >= 0,
                        d >= 0,
                        max >= 0,
                ;
                lemma_dec_val_grows(s@, i + 1);
            }
            return None;
        }
        proof {
            assert(acc * 10 + d <= max) by (nonlinear_arith)
                requires
                    acc <= max / 10,
                    acc == max / 10 ==> d <= max % 10,
                    0 <= d <= 9,
                    acc >= 0,
                    max >= 0,
            ;
            assert(s@.subrange(0, i as int + 1).drop_last() =~= s@.subrange(0, i as int));
        }
        acc = acc * 10 + d;
        i = i + 1;
    }
    assert(s@.subrange(0, len as int) =~= s@);
    Some(acc)
}

} // verus!
