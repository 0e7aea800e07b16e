//! Reading the raw text of case-row fields.
use vstd::prelude::*;

use crate::codes::names;

verus! {

/// A whitespace character, as Unicode's White_Space property lists them.
pub open spec fn white(c: char) -> bool {
    let n = c as u32;
    (9 <= n <= 13) || n == 32 || n == 0x85 || n == 0xA0 || n == 0x1680 || (0x2000 <= n <= 0x200A)
        || n == 0x2028 || n == 0x2029 || n == 0x202F || n == 0x205F || n == 0x3000
}

/// `s` without its leading whitespace.
pub open spec fn trim_start(s: Seq<char>) -> Seq<char>
    decreases s.len(),
{
    if s.len() > 0 && white(s[0]) {
        trim_start(s.drop_first())
    } else {
        s
    }
}

/// `s` without its trailing whitespace.
pub open spec fn trim_end(s: Seq<char>) -> Seq<char>
    decreases s.len(),
{
    if s.len() > 0 && white(s.last()) {
        trim_end(s.drop_last())
    } else {
        s
    }
}

/// `s` without leading and trailing whitespace.
pub open spec fn trim(s: Seq<char>) -> Seq<char> {
    trim_end(trim_start(s))
}

/// The pieces of `s` between the separators `sep`; an empty text is one
/// empty piece.
pub open spec fn split_on(s: Seq<char>, sep: char) -> Seq<Seq<char>>
    decreases s.len(),
{
    if s.len() == 0 {
        seq![Seq::empty()]
    } else {
        let init = split_on(s.drop_last(), sep);
        if s.last() == sep {
            init.push(Seq::empty())
        } else {
            init.update(init.len() - 1, init.last().push(s.last()))
        }
    }
}

/// The pieces trimmed, with the empty ones left out.
pub open spec fn kept(ps: Seq<Seq<char>>) -> Seq<Seq<char>>
    decreases ps.len(),
{
    if ps.len() == 0 {
        seq![]
    } else {
        let k = kept(ps.drop_last());
        let t = trim(ps.last());
        if t.len() > 0 {
            k.push(t)
        } else {
            k
        }
    }
}

/// Whether `c` is whitespace.
pub fn is_white(c: char) -> (r: bool)
    ensures
        r == white(c),
{
    let n = c as u32;
    (9 <= n && n <= 13) || n == 32 || n == 0x85 || n == 0xA0 || n == 0x1680 || (0x2000 <= n && n
        <= 0x200A) || n == 0x2028 || n == 0x2029 || n == 0x202F || n == 0x205F || n == 0x3000
}

/// The characters of a text.
pub fn chars_of(text: &str) -> (r: Vec<char>)
    ensures
        r@ == text@,
{
    let n = text.unicode_len();
    let mut r: Vec<char> = Vec::new();
    let mut i: usize = 0;
    while i < n
        invariant
            n == text@.len(),
            0 <= i <= n,
            r@ == text@.subrange(0, i as int),
        decreases n - i,
    {
        r.push(text.get_char(i));
        assert(r@ =~= text@.subrange(0, i + 1));
        i += 1;
    }
    assert(r@ =~= text@);
    r
}

/// The bounds, within `lo..hi`, of that stretch of `cs` with leading and
/// trailing whitespace removed.
pub fn trim_range(cs: &Vec<char>, lo: usize, hi: usize) -> (r: (usize, usize))
    requires
        lo <= hi <= cs@.len(),
    ensures
        lo <= r.0 <= r.1 <= hi,
        cs@.subrange(r.0 as int, r.1 as int) == trim(cs@.subrange(lo as int, hi as int)),
{
    let mut a = lo;
    while a < hi && is_white(cs[a])
        invariant
            lo <= a <= hi <= cs@.len(),
            trim_start(cs@.subrange(lo as int, hi as int)) == trim_start(
                cs@.subrange(a as int, hi as int),
            ),
        decreases hi - a,
    {
        assert(cs@.subrange(a as int, hi as int).drop_first() =~= cs@.subrange(a + 1, hi as int));
        a += 1;
    }
    assert(trim_start(cs@.subrange(lo as int, hi as int)) == cs@.subrange(a as int, hi as int));
    let mut b = hi;
    while b > a && is_white(cs[b - 1])
        invariant
            lo <= a <= b <= hi <= cs@.len(),
            trim_end(cs@.subrange(a as int, hi as int)) == trim_end(
                cs@.subrange(a as int, b as int),
            ),
        decreases b - a,
    {
        assert(cs@.subrange(a as int, b as int).drop_last() =~= cs@.subrange(a as int, b - 1));
        b -= 1;
    }
    (a, b)
}

/// Splits a multi-valued field at `|`, trims each value and leaves out the
/// empty ones.
pub fn deserialize_sep_str(text: &str) -> (r: Vec<String>)
    ensures
        names(r@) == kept(split_on(text@, '|')),
{
    let cs = chars_of(text);
    let n = cs.len();
    let mut out: Vec<String> = Vec::new();
    let mut start: usize = 0;
    let mut k: usize = 0;
    assert(text@.subrange(0, 0) =~= Seq::<char>::empty());
    while k < n
        invariant
            n == text@.len(),
            cs@ == text@,
            0 <= start <= k <= n,
            split_on(text@.subrange(0, k as int), '|').len() >= 1,
            split_on(text@.subrange(0, k as int), '|').last() == text@.subrange(
                start as int,
                k as int,
            ),
            kept(split_on(text@.subrange(0, k as int), '|').drop_last()) == names(out@),
        decreases n - k,
    {
        let ghost p = text@.subrange(0, k + 1);
        let ghost init = split_on(text@.subrange(0, k as int), '|');
        assert(p.drop_last() =~= text@.subrange(0, k as int));
        assert(p.last() == text@[k as int]);
        if cs[k] == '|' {
            let (a, b) = trim_range(&cs, start, k);
            assert(init =~= init.drop_last().push(init.last()));
            if a < b {
                let piece = String::from_str(text.substring_char(a, b));
                let ghost before = out@;
                out.push(piece);
                assert(names(out@) =~= names(before).push(piece@));
            }
            assert(split_on(p, '|').drop_last() =~= init);
            assert(text@.subrange(k + 1, k + 1) =~= Seq::<char>::empty());
            start = k + 1;
        } else {
            assert(split_on(p, '|').drop_last() =~= init.drop_last());
            assert(text@.subrange(start as int, k + 1) =~= text@.subrange(
                start as int,
                k as int,
            ).push(text@[k as int]));
        }
        k += 1;
    }
    assert(text@.subrange(0, n as int) =~= text@);
    let ghost all = split_on(text@, '|');
    assert(all =~= all.drop_last().push(all.last()));
    let (a, b) = trim_range(&cs, start, n);
    if a < b {
        let piece = String::from_str(text.substring_char(a, b));
        let ghost before = out@;
        out.push(piece);
        assert(names(out@) =~= names(before).push(piece@));
    }
    out
}

/// Splits a text at every `sep`, keeping the pieces as they are.
pub fn split_codes(text: &str, sep: char) -> (r: Vec<String>)
    ensures
        names(r@) == split_on(text@, sep),
{
    let cs = chars_of(text);
    let n = cs.len();
    let mut out: Vec<String> = Vec::new();
    let mut start: usize = 0;
    let mut k: usize = 0;
    assert(text@.subrange(0, 0) =~= Seq::<char>::empty());
    while k < n
        invariant
            n == text@.len(),
            cs@ == text@,
            0 <= start <= k <= n,
            split_on(text@.subrange(0, k as int), sep).len() >= 1,
            split_on(text@.subrange(0, k as int), sep).last() == text@.subrange(
                start as int,
                k as int,
            ),
            split_on(text@.subrange(0, k as int), sep).drop_last() == names(out@),
        decreases n - k,
    {
        let ghost p = text@.subrange(0, k + 1);
        let ghost init = split_on(text@.subrange(0, k as int), sep);
        assert(p.drop_last() =~= text@.subrange(0, k as int));
        assert(p.last() == text@[k as int]);
        if cs[k] == sep {
            let piece = String::from_str(text.substring_char(start, k));
            let ghost before = out@;
            out.push(piece);
            assert(names(out@) =~= names(before).push(piece@));
            assert(init =~= init.drop_last().push(init.last()));
            assert(split_on(p, sep).drop_last() =~= init);
            assert(text@.subrange(k + 1, k + 1) =~= Seq::<char>::empty());
            start = k + 1;
        } else {
            assert(split_on(p, sep).drop_last() =~= init.drop_last());
            assert(text@.subrange(start as int, k + 1) =~= text@.subrange(
                start as int,
                k as int,
            ).push(text@[k as int]));
        }
        k += 1;
    }
    assert(text@.subrange(0, n as int) =~= text@);
    let ghost all = split_on(text@, sep);
    assert(all =~= all.drop_last().push(all.last()));
    let piece = String::from_str(text.substring_char(start, n));
    let ghost before = out@;
    out.push(piece);
    assert(names(out@) =~= names(before).push(piece@));
    out
}

/// `c` is an ASCII digit.
pub open spec fn is_digit(c: char) -> bool {
    48 <= c as u32 <= 57
}

/// The value of the digit `c`.
pub open spec fn digit_value(c: char) -> int {
    c as u32 - 48
}

/// The value of a string of decimal digits.
pub open spec fn digits_value(s: Seq<char>) -> int
    decreases s.len(),
{
    if s.len() == 0 {
        0
    } else {
        digits_value(s.drop_last()) * 10 + digit_value(s.last())
    }
}

/// Every character of `s` is a digit.
pub open spec fn all_digits(s: Seq<char>) -> bool {
    forall|i: int| 0 <= i < s.len() ==> is_digit(#[trigger] s[i])
}

/// The integer that `s` writes: an optional sign, then one or more digits.
pub open spec fn int_of(s: Seq<char>) -> Option<int> {
    if s.len() > 0 && (s[0] == '-' || s[0] == '+') {
        let d = s.drop_first();
        if d.len() > 0 && all_digits(d) {
            Some(
                if s[0] == '-' {
                    -digits_value(d)
                } else {
                    digits_value(d)
                },
            )
        } else {
            None
        }
    } else if s.len() > 0 && all_digits(s) {
        Some(digits_value(s))
    } else {
        None
    }
}

/// `s` with its commas removed.
pub open spec fn drop_commas(s: Seq<char>) -> Seq<char>
    decreases s.len(),
{
    if s.len() == 0 {
        s
    } else {
        let r = drop_commas(s.drop_last());
        if s.last() == ',' {
            r
        } else {
            r.push(s.last())
        }
    }
}

/// The `i32` that a numeric field holds once its thousands separators and
/// surrounding whitespace are removed, if it holds one in range.
pub open spec fn i32_field(s: Seq<char>) -> Option<i32> {
    match int_of(trim(drop_commas(s))) {
        Some(v) => if i32::MIN <= v <= i32::MAX {
            Some(v as i32)
        } else {
            None
        },
        None => None,
    }
}

/// A digit string's value is at least that of any of its prefixes.
pub proof fn lemma_digits_grow(s: Seq<char>, j: int)
    requires
        0 <= j <= s.len(),
        all_digits(s),
    ensures
        digits_value(s.subrange(0, j)) <= digits_value(s),
        0 <= digits_value(s.subrange(0, j)),
    decreases s.len() - j,
{
    lemma_digits_nonneg(s.subrange(0, j));
    if j < s.len() {
        let t = s.subrange(0, j + 1);
        assert(t.drop_last() =~= s.subrange(0, j));
        assert(is_digit(s[j]));
        lemma_digits_grow(s, j + 1);
    } else {
        assert(s.subrange(0, j) =~= s);
    }
}

/// A digit string's value is not negative.
pub proof fn lemma_digits_nonneg(s: Seq<char>)
    requires
        all_digits(s),
    ensures
        digits_value(s) >= 0,
    decreases s.len(),
{
    if s.len() > 0 {
        assert(all_digits(s.drop_last()));
        lemma_digits_nonneg(s.drop_last());
        assert(is_digit(s.last()));
    }
}

/// Reads the digits `t[from..]` as a value not above 2147483648, or `None`
/// where a character is not a digit or the value is larger.
fn read_digits(t: &Vec<char>, from: usize) -> (r: Option<u64>)
    requires
        from <= t@.len(),
    ensures
        match r {
            Some(v) => all_digits(t@.subrange(from as int, t@.len() as int)) && v == digits_value(
                t@.subrange(from as int, t@.len() as int),
            ) && v <= 2147483648,
            None => !all_digits(t@.subrange(from as int, t@.len() as int)) || digits_value(
                t@.subrange(from as int, t@.len() as int),
            ) > 2147483648,
        },
{
    let ghost d = t@.subrange(from as int, t@.len() as int);
    let mut acc: u64 = 0;
    let mut j: usize = from;
    assert(d.subrange(0, 0) =~= Seq::<char>::empty());
    while j < t.len()
        invariant
            from <= j <= t@.len(),
            d == t@.subrange(from as int, t@.len() as int),
            all_digits(d.subrange(0, j - from)),
            acc == digits_value(d.subrange(0, j - from)),
            acc <= 2147483648,
        decreases t@.len() - j,
    {
        let c = t[j];
        let ghost pre = d.subrange(0, j - from);
        let ghost next = d.subrange(0, j - from + 1);
        assert(next.drop_last() =~= pre);
        assert(next.last() == c);
        if !(48 <= c as u32 && c as u32 <= 57) {
            assert(!is_digit(d[j - from]));
            return None;
        }
        let v = acc * 10 + (c as u32 - 48) as u64;
        assert(all_digits(next));
        if v > 2147483648 {
            proof {
                if all_digits(d) {
                    lemma_digits_grow(d, j - from + 1);
                }
            }
            return None;
        }
        acc = v;
        j += 1;
    }
    assert(d.subrange(0, j - from) =~= d);
    Some(acc)
}

/// Reads a numeric field as an `i32`: thousands separators (`,`) and
/// surrounding whitespace are removed, then an optional sign and decimal
/// digits are read.
pub fn deserialize_i32(text: &str) -> (r: Option<i32>)
    ensures
        r == i32_field(text@),
{
    let cs = chars_of(text);
    let mut clean: Vec<char> = Vec::new();
    let mut k: usize = 0;
    assert(text@.subrange(0, 0) =~= Seq::<char>::empty());
    while k < cs.len()
        invariant
            cs@ == text@,
            0 <= k <= cs@.len(),
            clean@ == drop_commas(text@.subrange(0, k as int)),
        decreases cs@.len() - k,
    {
        let ghost p = text@.subrange(0, k + 1);
        assert(p.drop_last() =~= text@.subrange(0, k as int));
        if cs[k] != ',' {
            clean.push(cs[k]);
        }
        k += 1;
    }
    assert(text@.subrange(0, k as int) =~= text@);
    let (a, b) = trim_range(&clean, 0, clean.len());
    assert(clean@.subrange(0, clean@.len() as int) =~= clean@);
    let mut t: Vec<char> = Vec::new();
    let mut i: usize = a;
    while i < b
        invariant
            a <= i <= b <= clean@.len(),
            t@ == clean@.subrange(a as int, i as int),
        decreases b - i,
    {
        t.push(clean[i]);
        assert(t@ =~= clean@.subrange(a as int, i + 1));
        i += 1;
    }
    let ghost s = t@;
    assert(s == trim(drop_commas(text@)));
    if t.len() == 0 {
        return None;
    }
    let negative = t[0] == '-';
    let from: usize = if t[0] == '-' || t[0] == '+' {
        1
    } else {
        0
    };
    if from == 1 && t.len() == 1 {
        return None;
    }
    assert(from == 1 ==> s.drop_first() =~= s.subrange(1, s.len() as int));
    assert(from == 0 ==> s =~= s.subrange(0, s.len() as int));
    match read_digits(&t, from) {
        None => None,
        Some(v) => {
            if negative {
                Some((0 - v as i64) as i32)
            } else if v <= 2147483647 {
                Some(v as i32)
            } else {
                None
            }
        },
    }
}

} // verus!
