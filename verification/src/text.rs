//! Character-level text helpers: decimal rendering of integers, string
//! equality by characters, and whitespace tokenisation.

use vstd::prelude::*;
use vstd::string::StrSliceExecFns;
use vstd::string::StringExecFns;

verus! {

/// The character for one decimal digit.
pub open spec fn digit_char(d: nat) -> char {
    if d == 0 {
        '0'
    } else if d == 1 {
        '1'
    } else if d == 2 {
        '2'
    } else if d == 3 {
        '3'
    } else if d == 4 {
        '4'
    } else if d == 5 {
        '5'
    } else if d == 6 {
        '6'
    } else if d == 7 {
        '7'
    } else if d == 8 {
        '8'
    } else {
        '9'
    }
}

/// The decimal rendering of a natural number, most significant digit first.
pub open spec fn dec_digits(n: nat) -> Seq<char>
    decreases n,
{
    if n < 10 {
        seq![digit_char(n)]
    } else {
        dec_digits(n / 10) + seq![digit_char(n % 10)]
    }
}

/// The decimal rendering of an integer: a leading '-' for negative values.
pub open spec fn dec_digits_signed(n: int) -> Seq<char> {
    if n < 0 {
        seq!['-'] + dec_digits((-n) as nat)
    } else {
        dec_digits(n as nat)
    }
}

fn digit_str(d: u64) -> (r: &'static str)
    requires
        d < 10,
    ensures
        r@.len() == 1,
        r@[0] == digit_char(d as nat),
{
    if d == 0 {
        proof { reveal_strlit("0"); }
        "0"
    } else if d == 1 {
        proof { reveal_strlit("1"); }
        "1"
    } else if d == 2 {
        proof { reveal_strlit("2"); }
        "2"
    } else if d == 3 {
        proof { reveal_strlit("3"); }
        "3"
    } else if d == 4 {
        proof { reveal_strlit("4"); }
        "4"
    } else if d == 5 {
        proof { reveal_strlit("5"); }
        "5"
    } else if d == 6 {
        proof { reveal_strlit("6"); }
        "6"
    } else if d == 7 {
        proof { reveal_strlit("7"); }
        "7"
    } else if d == 8 {
        proof { reveal_strlit("8"); }
        "8"
    } else {
        proof { reveal_strlit("9"); }
        "9"
    }
}

/// Renders a `u64` in decimal.
pub fn u64_to_dec_string(n: u64) -> (r: String)
    ensures
        r@ == dec_digits(n as nat),
    decreases n,
{
    if n < 10 {
        let d = digit_str(n);
        let r = String::from_str(d);
        proof {
            assert(r@ =~= dec_digits(n as nat));
        }
        r
    } else {
        let mut r = u64_to_dec_string(n / 10);
        let d = digit_str(n % 10);
        r.append(d);
        proof {
            assert(r@ =~= dec_digits(n as nat));
        }
        r
    }
}

/// Renders an `i32` in decimal, with a leading '-' when negative.
pub fn i32_to_dec_string(n: i32) -> (r: String)
    ensures
        r@ == dec_digits_signed(n as int),
{
    if n < 0 {
        let wide: i64 = n as i64;
        let magnitude: u64 = (-wide) as u64;
        let mut r = String::from_str("-");
        let rest = u64_to_dec_string(magnitude);
        r.append(rest.as_str());
        proof {
            reveal_strlit("-");
            assert(r@ =~= dec_digits_signed(n as int));
        }
        r
    } else {
        let wide: u64 = n as u64;
        u64_to_dec_string(wide)
    }
}

/// Whether `c` has the Unicode white-space property, the separator that
/// `split_ws` breaks on.
pub open spec fn is_ws(c: char) -> bool {
    c == '\u{9}' || c == '\u{A}' || c == '\u{B}' || c == '\u{C}' || c == '\u{D}' || c == ' '
        || c == '\u{85}' || c == '\u{A0}' || c == '\u{1680}' || c == '\u{2000}' || c == '\u{2001}'
        || c == '\u{2002}' || c == '\u{2003}' || c == '\u{2004}' || c == '\u{2005}'
        || c == '\u{2006}' || c == '\u{2007}' || c == '\u{2008}' || c == '\u{2009}'
        || c == '\u{200A}' || c == '\u{2028}' || c == '\u{2029}' || c == '\u{202F}'
        || c == '\u{205F}' || c == '\u{3000}'
}

fn is_ws_char(c: char) -> (r: bool)
    ensures
        r == is_ws(c),
{
    c == '\u{9}' || c == '\u{A}' || c == '\u{B}' || c == '\u{C}' || c == '\u{D}' || c == ' '
        || c == '\u{85}' || c == '\u{A0}' || c == '\u{1680}' || c == '\u{2000}' || c == '\u{2001}'
        || c == '\u{2002}' || c == '\u{2003}' || c == '\u{2004}' || c == '\u{2005}'
        || c == '\u{2006}' || c == '\u{2007}' || c == '\u{2008}' || c == '\u{2009}'
        || c == '\u{200A}' || c == '\u{2028}' || c == '\u{2029}' || c == '\u{202F}'
        || c == '\u{205F}' || c == '\u{3000}'
}

/// The maximal white-space-free runs of `s`, in order: what splitting on
/// white space yields. Reading `s` from the end, a trailing separator adds
/// nothing, a letter after a letter extends the last run, and a letter after
/// a separator (or at the start) opens a new run.
pub open spec fn split_ws(s: Seq<char>) -> Seq<Seq<char>>
    decreases s.len(),
{
    if s.len() == 0 {
        Seq::empty()
    } else {
        let prefix = s.drop_last();
        let c = s.last();
        let prev = split_ws(prefix);
        if is_ws(c) {
            prev
        } else if prefix.len() > 0 && !is_ws(prefix.last()) {
            prev.update(prev.len() - 1, prev.last().push(c))
        } else {
            prev.push(seq![c])
        }
    }
}

/// The views of a sequence of owned strings.
pub open spec fn seq_views(v: Seq<String>) -> Seq<Seq<char>> {
    v.map_values(|p: String| p@)
}

/// Splits `s` at white space into its maximal non-white-space runs.
pub fn split_whitespace_strings(s: &str) -> (parts: Vec<String>)
    ensures
        seq_views(parts@) == split_ws(s@),
{
    let len: usize = s.unicode_len();
    let mut parts: Vec<String> = Vec::new();
    let mut start: usize = 0;
    let mut active: bool = false;
    let mut i: usize = 0;
    while i < len
        invariant
            len == s@.len(),
            i <= len,
            active <==> (i > 0 && !is_ws(s@[i - 1])),
            active ==> start < i,
            (if active {
                seq_views(parts@) + seq![s@.subrange(start as int, i as int)]
            } else {
                seq_views(parts@)
            }) == split_ws(s@.take(i as int)),
        decreases len - i,
    {
        let ghost pre_take = s@.take(i as int);
        let ghost post_take = s@.take(i + 1);
        proof {
            assert(post_take.drop_last() =~= pre_take);
            assert(post_take.last() == s@[i as int]);
        }
        let c = s.get_char(i);
        if is_ws_char(c) {
            if active {
                let tok = s.substring_char(start, i);
                let owned = String::from_str(tok);
                let ghost old_parts = parts@;
                parts.push(owned);
                proof {
                    assert(seq_views(parts@) =~~= seq_views(old_parts)
                        + seq![s@.subrange(start as int, i as int)]);
                }
                active = false;
            }
        } else {
            if active {
                proof {
                    let prev = split_ws(pre_take);
                    assert(prev == seq_views(parts@)
                        + seq![s@.subrange(start as int, i as int)]);
                    assert(prev.last() == s@.subrange(start as int, i as int));
                    assert(prev.update(prev.len() - 1, prev.last().push(s@[i as int]))
                        =~~= seq_views(parts@)
                        + seq![s@.subrange(start as int, i + 1)]);
                }
            } else {
                start = i;
                active = true;
                proof {
                    assert(s@.subrange(i as int, i + 1) =~= seq![s@[i as int]]);
                    assert(split_ws(post_take) =~~= seq_views(parts@)
                        + seq![s@.subrange(i as int, i + 1)]);
                }
            }
        }
        i = i + 1;
    }
    proof {
        assert(s@.take(len as int) =~= s@);
    }
    if active {
        let tok = s.substring_char(start, len);
        let owned = String::from_str(tok);
        let ghost old_parts = parts@;
        parts.push(owned);
        proof {
            assert(seq_views(parts@) =~~= seq_views(old_parts)
                + seq![s@.subrange(start as int, len as int)]);
        }
    }
    parts
}

/// Character-by-character string equality.
pub fn str_eq(a: &str, b: &str) -> (r: bool)
    ensures
        r <==> a@ == b@,
{
    let alen: usize = a.unicode_len();
    let blen: usize = b.unicode_len();
    if alen != blen {
        return false;
    }
    let mut i: usize = 0;
    while i < alen
        invariant
            alen == a@.len(),
            blen == b@.len(),
            alen == blen,
            i <= alen,
            forall|j: int| 0 <= j < i ==> a@[j] == b@[j],
        decreases alen - i,
    {
        if a.get_char(i) != b.get_char(i) {
            return false;
        }
        i = i + 1;
    }
    proof {
        assert(a@ =~= b@);
    }
    true
}

} // verus!
