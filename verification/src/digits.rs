//! Rendering and parsing of unsigned integers — decimal both ways, plus
//! fixed-width rendering in a chosen base — and the small text scanners
//! (blank trimming, line-feed search) the record format is built from,
//! together with the lemmas that make rendering and parsing inverse to
//! each other.

use vstd::prelude::*;

use vstd::string::StringExecFns;
use vstd::string::StrSliceExecFns;

verus! {

/// The value a decimal digit character stands for; ten for any other
/// character.
pub open spec fn char_digit_val(c: char) -> nat {
    if c == '0' {
        0
    } else if c == '1' {
        1
    } else if c == '2' {
        2
    } else if c == '3' {
        3
    } else if c == '4' {
        4
    } else if c == '5' {
        5
    } else if c == '6' {
        6
    } else if c == '7' {
        7
    } else if c == '8' {
        8
    } else if c == '9' {
        9
    } else {
        10
    }
}

/// Whether a character is a decimal digit.
pub open spec fn is_digit(c: char) -> bool {
    char_digit_val(c) < 10
}

/// The character standing for a value below ten.
pub open spec fn digit_char(d: nat) -> char {
    if d == 0 {
        '0'
    } else if d == 1 {
        '1'
    } else if d == 2 {
        '2'
    } else if d == 3 {
        '3'
    } else if d == 4 {
        '4'
    } else if d == 5 {
        '5'
    } else if d == 6 {
        '6'
    } else if d == 7 {
        '7'
    } else if d == 8 {
        '8'
    } else {
        '9'
    }
}

/// The usual decimal rendering of a number: no sign, no leading zero except
/// for zero itself.
pub open spec fn spec_dec(n: nat) -> Seq<char>
    decreases n,
{
    if n < 10 {
        seq![digit_char(n)]
    } else {
        spec_dec(n / 10).push(digit_char(n % 10))
    }
}

/// The value of a digit string, most significant digit first.
pub open spec fn digits_val(s: Seq<char>) -> nat
    decreases s.len(),
{
    if s.len() == 0 {
        0
    } else {
        digits_val(s.drop_last()) * 10 + char_digit_val(s.last())
    }
}

/// Whether every character of a string is a decimal digit.
pub open spec fn all_digits(s: Seq<char>) -> bool {
    forall|i: int| 0 <= i < s.len() ==> is_digit(s[i])
}

/// A digit character stands for the value it was chosen for.
proof fn lemma_digit_char_val(d: nat)
    requires
        d < 10,
    ensures
        char_digit_val(digit_char(d)) == d,
        is_digit(digit_char(d)),
{
}

/// Decimal rendering is left inverse to digit-string evaluation: the
/// rendering of `n` is a nonempty all-digit string whose value is `n`.
pub proof fn lemma_dec_round(n: nat)
    ensures
        spec_dec(n).len() >= 1,
        all_digits(spec_dec(n)),
        digits_val(spec_dec(n)) == n,
    decreases n,
{
    if n < 10 {
        lemma_digit_char_val(n);
        let s = spec_dec(n);
        assert(s =~= seq![digit_char(n)]);
        assert(s.drop_last() =~= Seq::<char>::empty());
        assert(digits_val(s) == digits_val(s.drop_last()) * 10 + char_digit_val(s.last()));
    } else {
        lemma_dec_round(n / 10);
        lemma_digit_char_val(n % 10);
        let s = spec_dec(n);
        assert(s.last() == digit_char(n % 10));
        assert(s.drop_last() =~= spec_dec(n / 10));
        assert(digits_val(s) == (n / 10) * 10 + (n % 10));
        assert(forall|i: int| 0 <= i < s.len() ==> is_digit(#[trigger] s[i])) by {
            assert(forall|i: int|
                0 <= i < s.len() - 1 ==> s[i] == #[trigger] spec_dec(n / 10)[i]);
        }
    }
}

/// A single decimal digit as a borrowed string.
fn digit_str(d: u64) -> (r: &'static str)
    requires
        d < 10,
    ensures
        r@ =~= seq![digit_char(d as nat)],
{
    proof {
        reveal_strlit("0");
        reveal_strlit("1");
        reveal_strlit("2");
        reveal_strlit("3");
        reveal_strlit("4");
        reveal_strlit("5");
        reveal_strlit("6");
        reveal_strlit("7");
        reveal_strlit("8");
        reveal_strlit("9");
    }
    if d == 0 {
        "0"
    } else if d == 1 {
        "1"
    } else if d == 2 {
        "2"
    } else if d == 3 {
        "3"
    } else if d == 4 {
        "4"
    } else if d == 5 {
        "5"
    } else if d == 6 {
        "6"
    } else if d == 7 {
        "7"
    } else if d == 8 {
        "8"
    } else {
        "9"
    }
}

/// Appends the decimal rendering of `n` to a string.
pub fn push_dec(s: &mut String, n: u64)
    ensures
        final(s)@ == old(s)@ + spec_dec(n as nat),
    decreases n,
{
    if n >= 10 {
        push_dec(s, n / 10);
        let d = digit_str(n % 10);
        s.append(d);
        proof {
            assert(old(s)@ + spec_dec((n / 10) as nat) + d@ =~= old(s)@ + spec_dec(n as nat));
        }
    } else {
        let d = digit_str(n);
        s.append(d);
        proof {
            assert(old(s)@ + d@ =~= old(s)@ + spec_dec(n as nat));
        }
    }
}

/// The character standing for a value below sixteen, lower case.
pub open spec fn radix_char(d: nat) -> char {
    if d < 10 {
        digit_char(d)
    } else if d == 10 {
        'a'
    } else if d == 11 {
        'b'
    } else if d == 12 {
        'c'
    } else if d == 13 {
        'd'
    } else if d == 14 {
        'e'
    } else {
        'f'
    }
}

/// The rendering of `n` in the given base, zero-padded on the left to
/// exactly `width` characters; digits above `width` are dropped.
pub open spec fn spec_radix_pad(n: nat, base: nat, width: nat) -> Seq<char>
    recommends
        base >= 2,
    decreases width,
{
    if width == 0 {
        Seq::empty()
    } else {
        spec_radix_pad(n / base, base, (width - 1) as nat).push(radix_char(n % base))
    }
}

/// A single base-sixteen digit as a borrowed string.
fn radix_str(d: u64) -> (r: &'static str)
    requires
        d < 16,
    ensures
        r@ =~= seq![radix_char(d as nat)],
{
    if d < 10 {
        digit_str(d)
    } else {
        proof {
            reveal_strlit("a");
            reveal_strlit("b");
            reveal_strlit("c");
            reveal_strlit("d");
            reveal_strlit("e");
            reveal_strlit("f");
        }
        if d == 10 {
            "a"
        } else if d == 11 {
            "b"
        } else if d == 12 {
            "c"
        } else if d == 13 {
            "d"
        } else if d == 14 {
            "e"
        } else {
            "f"
        }
    }
}

/// Appends the fixed-width rendering of `n` in the given base to a string.
pub fn push_radix_pad(s: &mut String, n: u64, base: u64, width: u64)
    requires
        base == 2 || base == 10 || base == 16,
    ensures
        final(s)@ == old(s)@ + spec_radix_pad(n as nat, base as nat, width as nat),
    decreases width,
{
    if width > 0 {
        push_radix_pad(s, n / base, base, width - 1);
        let d = radix_str(n % base);
        s.append(d);
        proof {
            assert(old(s)@ + spec_radix_pad((n / base) as nat, base as nat, (width - 1) as nat)
                + d@ =~= old(s)@ + spec_radix_pad(n as nat, base as nat, width as nat));
        }
    } else {
        proof {
            assert(old(s)@ + spec_radix_pad(n as nat, base as nat, 0) =~= old(s)@);
        }
    }
}

/// Whether a character is one the record format treats as blank: space,
/// tab, carriage return or line feed.
pub open spec fn is_space(c: char) -> bool {
    c == ' ' || c == '\t' || c == '\r' || c == '\n'
}

fn is_space_char(c: char) -> (b: bool)
    ensures
        b == is_space(c),
{
    c == ' ' || c == '\t' || c == '\r' || c == '\n'
}

/// The first position at or after `i` holding a character that is not
/// blank; the length if there is none.
pub open spec fn first_non_space(s: Seq<char>, i: int) -> int
    recommends
        0 <= i <= s.len(),
    decreases s.len() - i,
{
    if i < 0 || i >= s.len() {
        s.len() as int
    } else if is_space(s[i]) {
        first_non_space(s, i + 1)
    } else {
        i
    }
}

/// One past the last position below `j` holding a character that is not
/// blank; zero if there is none.
pub open spec fn end_non_space(s: Seq<char>, j: int) -> int
    recommends
        0 <= j <= s.len(),
    decreases j,
{
    if j <= 0 || j > s.len() {
        0
    } else if is_space(s[j - 1]) {
        end_non_space(s, j - 1)
    } else {
        j
    }
}

/// The string with blank characters removed from both ends.
pub open spec fn spec_trim(s: Seq<char>) -> Seq<char> {
    let lo = first_non_space(s, 0);
    let hi = end_non_space(s, s.len() as int);
    if lo < hi {
        s.subrange(lo, hi)
    } else {
        Seq::empty()
    }
}

/// The first position at or after `i` holding a line feed; the length if
/// there is none.
pub open spec fn first_nl(s: Seq<char>, i: int) -> int
    decreases s.len() - i,
{
    if i < 0 || i >= s.len() {
        s.len() as int
    } else if s[i] == '\n' {
        i
    } else {
        first_nl(s, i + 1)
    }
}

/// Where the line-feed scan stops: at a line feed or at the end, with none
/// skipped over.
proof fn lemma_first_nl_props(s: Seq<char>, i: int)
    requires
        0 <= i <= s.len(),
    ensures
        i <= first_nl(s, i) <= s.len(),
        first_nl(s, i) < s.len() ==> s[first_nl(s, i)] == '\n',
        forall|j: int| i <= j < first_nl(s, i) ==> s[j] != '\n',
    decreases s.len() - i,
{
    if i < s.len() && s[i] != '\n' {
        lemma_first_nl_props(s, i + 1);
    }
}

/// The line-feed scan finds a line feed known to be first.
pub proof fn lemma_first_nl_at(s: Seq<char>, i: int, k: int)
    requires
        0 <= i <= k <= s.len(),
        k < s.len() ==> s[k] == '\n',
        k == s.len() || forall|j: int| i <= j < k ==> s[j] != '\n',
    ensures
        k < s.len() ==> first_nl(s, i) == k,
        k == s.len() && (forall|j: int| i <= j < k ==> s[j] != '\n') ==> first_nl(s, i) == k,
    decreases k - i,
{
    if i < k {
        lemma_first_nl_at(s, i + 1, k);
    }
}

/// A string all of whose characters are digits is left untouched by
/// trimming: digits are not blank.
pub proof fn lemma_trim_digits(s: Seq<char>)
    requires
        all_digits(s),
    ensures
        spec_trim(s) == s,
{
    if s.len() > 0 {
        assert(is_digit(s[0]) && is_digit(s[s.len() - 1]));
        assert(!is_space(s[0]) && !is_space(s[s.len() - 1]));
        assert(first_non_space(s, 0) == 0);
        assert(end_non_space(s, s.len() as int) == s.len() as int);
        assert(s.subrange(0, s.len() as int) =~= s);
    } else {
        assert(spec_trim(s) =~= s);
    }
}

/// A digit character is neither blank nor a sign: digit strings survive
/// trimming, line splitting and the sign test untouched.
pub proof fn lemma_digit_not_marker(c: char)
    requires
        is_digit(c),
    ensures
        !is_space(c),
        c != '\n',
        c != '+',
{
}

/// Evaluating a prefix of a digit string never exceeds evaluating the whole:
/// appending digits only grows the value.
proof fn lemma_digits_val_prefix(s: Seq<char>, i: int)
    requires
        0 <= i <= s.len(),
    ensures
        digits_val(s.subrange(0, i)) <= digits_val(s),
    decreases s.len(),
{
    if i < s.len() {
        let t = s.drop_last();
        assert(s.subrange(0, i) =~= t.subrange(0, i));
        lemma_digits_val_prefix(t, i);
    } else {
        assert(s.subrange(0, i) =~= s);
    }
}

/// How Rust's `u64` parsing reads a trimmed field: an optional leading plus
/// sign, then at least one decimal digit, and a value that fits in 64 bits;
/// anything else is rejected.
pub open spec fn spec_parse_u64(s: Seq<char>) -> Option<u64> {
    let t = spec_trim(s);
    let d = if t.len() > 0 && t[0] == '+' {
        t.subrange(1, t.len() as int)
    } else {
        t
    };
    if d.len() > 0 && all_digits(d) && digits_val(d) <= u64::MAX {
        Some(digits_val(d) as u64)
    } else {
        None
    }
}

fn digit_val_char(c: char) -> (v: u64)
    ensures
        v == char_digit_val(c),
{
    if c == '0' {
        0
    } else if c == '1' {
        1
    } else if c == '2' {
        2
    } else if c == '3' {
        3
    } else if c == '4' {
        4
    } else if c == '5' {
        5
    } else if c == '6' {
        6
    } else if c == '7' {
        7
    } else if c == '8' {
        8
    } else if c == '9' {
        9
    } else {
        10
    }
}

/// The input with blank characters removed from both ends.
pub fn trim_str<'a>(s: &'a str) -> (r: &'a str)
    ensures
        r@ == spec_trim(s@),
{
    let n = s.unicode_len();
    let mut lo: usize = 0;
    loop
        invariant
            0 <= lo <= n,
            n == s@.len(),
            first_non_space(s@, 0) == first_non_space(s@, lo as int),
        ensures
            0 <= lo <= n,
            first_non_space(s@, 0) == lo as int,
        decreases n - lo,
    {
        if lo < n {
            let c = s.get_char(lo);
            if is_space_char(c) {
                lo = lo + 1;
            } else {
                assert(first_non_space(s@, lo as int) == lo as int);
                break ;
            }
        } else {
            assert(first_non_space(s@, lo as int) == lo as int);
            break ;
        }
    }
    let mut hi: usize = n;
    loop
        invariant
            0 <= hi <= n,
            n == s@.len(),
            end_non_space(s@, n as int) == end_non_space(s@, hi as int),
        ensures
            0 <= hi <= n,
            end_non_space(s@, n as int) == hi as int,
        decreases hi,
    {
        if hi > 0 {
            let c = s.get_char(hi - 1);
            if is_space_char(c) {
                hi = hi - 1;
            } else {
                assert(end_non_space(s@, hi as int) == hi as int);
                break ;
            }
        } else {
            assert(end_non_space(s@, hi as int) == hi as int);
            break ;
        }
    }
    if lo < hi {
        s.substring_char(lo, hi)
    } else {
        let r = "";
        proof {
            reveal_strlit("");
            assert(r@ =~= spec_trim(s@));
        }
        r
    }
}

/// The position of the first line feed at or after `from`; the length if
/// there is none.
pub fn find_nl(s: &str, from: usize) -> (r: usize)
    requires
        from <= s@.len(),
    ensures
        r as int == first_nl(s@, from as int),
        from <= r <= s@.len(),
        r < s@.len() ==> s@[r as int] == '\n',
        forall|j: int| from <= j < r ==> s@[j] != '\n',
{
    let n = s.unicode_len();
    let mut i: usize = from;
    loop
        invariant
            from <= i <= n,
            n == s@.len(),
            first_nl(s@, from as int) == first_nl(s@, i as int),
        ensures
            from <= i <= n,
            first_nl(s@, from as int) == i as int,
        decreases n - i,
    {
        if i < n {
            let c = s.get_char(i);
            if c == '\n' {
                assert(first_nl(s@, i as int) == i as int);
                break ;
            } else {
                i = i + 1;
            }
        } else {
            assert(first_nl(s@, i as int) == i as int);
            break ;
        }
    }
    proof {
        lemma_first_nl_props(s@, from as int);
    }
    i
}

/// Parses a field as Rust's `u64` parsing would after trimming: an optional
/// leading plus sign, then decimal digits that fit in 64 bits.
pub fn parse_u64_field(s: &str) -> (r: Option<u64>)
    ensures
        r == spec_parse_u64(s@),
{
    let t = trim_str(s);
    let n = t.unicode_len();
    if n == 0 {
        return None;
    }
    let start: usize = if t.get_char(0) == '+' {
        1
    } else {
        0
    };
    let ghost d: Seq<char> = if t@.len() > 0 && t@[0] == '+' {
        t@.subrange(1, t@.len() as int)
    } else {
        t@
    };
    if start == n {
        assert(d.len() == 0);
        return None;
    }
    proof {
        assert(d =~= t@.subrange(start as int, n as int));
    }
    let mut i: usize = start;
    let mut acc: u64 = 0;
    loop
        invariant
            start <= i <= n,
            n == t@.len(),
            start == 0 || start == 1,
            t@ == spec_trim(s@),
            d == (if t@.len() > 0 && t@[0] == '+' {
                t@.subrange(1, t@.len() as int)
            } else {
                t@
            }),
            d == t@.subrange(start as int, n as int),
            d.len() > 0,
            acc == digits_val(t@.subrange(start as int, i as int)),
            all_digits(t@.subrange(start as int, i as int)),
        ensures
            i == n,
            acc == digits_val(d),
            all_digits(d),
        decreases n - i,
    {
        if i < n {
            let c = t.get_char(i);
            let v = digit_val_char(c);
            if v >= 10 {
                proof {
                    assert(d[i - start] == c);
                    assert(!all_digits(d));
                }
                return None;
            }
            let ghost pre = t@.subrange(start as int, i as int);
            let ghost ext = t@.subrange(start as int, i as int + 1);
            proof {
                assert(ext.drop_last() =~= pre);
                assert(ext.last() == c);
                assert(digits_val(ext) == digits_val(pre) * 10 + char_digit_val(c));
                assert(all_digits(ext)) by {
                    assert(forall|j: int| 0 <= j < ext.len() - 1 ==> #[trigger] ext[j] == pre[j]);
                }
            }
            let stepped = match acc.checked_mul(10) {
                Some(x) => x.checked_add(v),
                None => None,
            };
            match stepped {
                Some(y) => {
                    acc = y;
                },
                None => {
                    proof {
                        assert(digits_val(ext) > u64::MAX);
                        assert(d.subrange(0, i - start + 1) =~= ext);
                        lemma_digits_val_prefix(d, i - start + 1);
                    }
                    return None;
                },
            }
            i = i + 1;
        } else {
            assert(t@.subrange(start as int, i as int) =~= d);
            break ;
        }
    }
    Some(acc)
}

} // verus!
