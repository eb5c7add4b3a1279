use vstd::prelude::*;

verus! {

/// Characters with the Unicode `White_Space` property, which `str::trim` removes.
pub open spec fn is_white_space(c: char) -> bool {
    ('\u{9}' <= c && c <= '\u{d}') || c == ' ' || c == '\u{85}' || c == '\u{a0}' || c == '\u{1680}'
        || ('\u{2000}' <= c && c <= '\u{200a}') || c == '\u{2028}' || c == '\u{2029}' || c
        == '\u{202f}' || c == '\u{205f}' || c == '\u{3000}'
}

/// Index of the first character at or after `i` that is not white space, or
/// the length of `s`.
pub open spec fn first_non_space(s: Seq<char>, i: int) -> int
    decreases s.len() - i,
{
    if i >= s.len() || i < 0 {
        s.len() as int
    } else if is_white_space(s[i]) {
        first_non_space(s, i + 1)
    } else {
        i
    }
}

/// End of the text before `j` once trailing white space is cut, not going
/// below `lo`.
pub open spec fn end_non_space(s: Seq<char>, j: int, lo: int) -> int
    decreases j - lo,
{
    if j <= lo {
        lo
    } else if is_white_space(s[j - 1]) {
        end_non_space(s, j - 1, lo)
    } else {
        j
    }
}

/// `s` without leading and trailing white space.
pub open spec fn trimmed(s: Seq<char>) -> Seq<char> {
    let lo = first_non_space(s, 0);
    s.subrange(lo, end_non_space(s, s.len() as int, lo))
}

/// Value of the digit `c` in base `radix` (10 or 16; both letter cases).
pub open spec fn digit_value(c: char, radix: nat) -> Option<nat> {
    if '0' <= c && c <= '9' {
        Some((c as nat - '0' as nat) as nat)
    } else if radix == 16 && 'a' <= c && c <= 'f' {
        Some((c as nat - 'a' as nat + 10) as nat)
    } else if radix == 16 && 'A' <= c && c <= 'F' {
        Some((c as nat - 'A' as nat + 10) as nat)
    } else {
        None
    }
}

/// Value of the digits `s` in base `radix`; `None` if one is not a digit.
pub open spec fn digits_value(s: Seq<char>, radix: nat) -> Option<nat>
    decreases s.len(),
{
    if s.len() == 0 {
        Some(0)
    } else {
        match (digits_value(s.drop_last(), radix), digit_value(s.last(), radix)) {
            (Some(a), Some(d)) => Some(a * radix + d),
            _ => None,
        }
    }
}

/// How the standard library parses an unsigned integer of largest value `max`
/// in base `radix`: an optional `+`, then at least one digit, and a value that
/// fits.
pub open spec fn unsigned_value(s: Seq<char>, radix: nat, max: nat) -> Option<nat> {
    let body = if s.len() > 0 && s[0] == '+' {
        s.drop_first()
    } else {
        s
    };
    if body.len() == 0 {
        None
    } else {
        match digits_value(body, radix) {
            Some(v) => if v <= max {
                Some(v)
            } else {
                None
            },
            None => None,
        }
    }
}

/// The number that `s` denotes, or 0 when it denotes none.
pub open spec fn value_or_zero(s: Seq<char>, radix: nat, max: nat) -> nat {
    match unsigned_value(s, radix, max) {
        Some(v) => v,
        None => 0,
    }
}

/// A prefix that is already too large stays too large, or the whole is no number.
proof fn lemma_digits_grow(s: Seq<char>, radix: nat, i: int)
    requires
        0 <= i <= s.len(),
        radix >= 1,
    ensures
        digits_value(s.take(i), radix) matches Some(a) ==> (digits_value(s, radix) matches Some(
            v,
        ) ==> v >= a),
    decreases s.len() - i,
{
    if i == s.len() {
        assert(s.take(i) =~= s);
    } else {
        let t = s.drop_last();
        assert(t.take(i) =~= s.take(i));
        lemma_digits_grow(t, radix, i);
        if let Some(v) = digits_value(s, radix) {
            let vt = digits_value(t, radix)->Some_0;
            assert(vt * radix >= vt) by (nonlinear_arith)
                requires
                    radix >= 1,
            ;
        }
    }
}

/// The characters of `s`.
pub fn chars_of(s: &str) -> (r: Vec<char>)
    ensures
        r@ == s@,
{
    let n = s.unicode_len();
    let mut r: Vec<char> = Vec::new();
    let mut i: usize = 0;
    while i < n
        invariant
            n == s@.len(),
            i <= n,
            r@ == s@.take(i as int),
        decreases n - i,
    {
        r.push(s.get_char(i));
        i = i + 1;
        assert(r@ =~= s@.take(i as int));
    }
    assert(r@ =~= s@);
    r
}

/// Bounds of `s` once leading and trailing white space is cut.
pub fn trim_bounds(s: &Vec<char>) -> (r: (usize, usize))
    ensures
        r.0 == first_non_space(s@, 0),
        r.1 == end_non_space(s@, s@.len() as int, r.0 as int),
        r.0 <= r.1 <= s@.len(),
        s@.subrange(r.0 as int, r.1 as int) == trimmed(s@),
{
    let mut lo: usize = 0;
    while lo < s.len() && is_space(s[lo])
        invariant
            lo <= s@.len(),
            first_non_space(s@, lo as int) == first_non_space(s@, 0),
        decreases s@.len() - lo,
    {
        lo = lo + 1;
    }
    let mut hi: usize = s.len();
    while hi > lo && is_space(s[hi - 1])
        invariant
            lo <= hi <= s@.len(),
            end_non_space(s@, hi as int, lo as int) == end_non_space(s@, s@.len() as int, lo as int),
        decreases hi - lo,
    {
        hi = hi - 1;
    }
    (lo, hi)
}

/// Whether `c` is white space.
fn is_space(c: char) -> (r: bool)
    ensures
        r == is_white_space(c),
{
    ('\u{9}' <= c && c <= '\u{d}') || c == ' ' || c == '\u{85}' || c == '\u{a0}' || c == '\u{1680}'
        || ('\u{2000}' <= c && c <= '\u{200a}') || c == '\u{2028}' || c == '\u{2029}' || c
        == '\u{202f}' || c == '\u{205f}' || c == '\u{3000}'
}

/// Value of the digit `c` in base `radix`.
fn digit(c: char, radix: u32) -> (r: Option<u32>)
    requires
        radix == 10 || radix == 16,
    ensures
        r matches Some(d) ==> digit_value(c, radix as nat) == Some(d as nat) && d < radix,
        r is None ==> digit_value(c, radix as nat) is None,
{
    if '0' <= c && c <= '9' {
        Some(c as u32 - '0' as u32)
    } else if radix == 16 && 'a' <= c && c <= 'f' {
        Some(c as u32 - 'a' as u32 + 10)
    } else if radix == 16 && 'A' <= c && c <= 'F' {
        Some(c as u32 - 'A' as u32 + 10)
    } else {
        None
    }
}

/// Parse `s[lo..hi]` as an unsigned integer in base `radix` no larger than
/// `max`, as the standard library does; 0 when it is no such number.
pub fn parse_or_zero(s: &Vec<char>, lo: usize, hi: usize, radix: u32, max: usize) -> (r: usize)
    requires
        lo <= hi <= s@.len(),
        radix == 10 || radix == 16,
    ensures
        r as nat == value_or_zero(s@.subrange(lo as int, hi as int), radix as nat, max as nat),
{
    let ghost text = s@.subrange(lo as int, hi as int);
    let mut start = lo;
    if start < hi && s[start] == '+' {
        start = start + 1;
    }
    let ghost body = s@.subrange(start as int, hi as int);
    assert(body == (if text.len() > 0 && text[0] == '+' {
        text.drop_first()
    } else {
        text
    }));
    if start == hi {
        return 0;
    }
    let mut acc: usize = 0;
    let mut i: usize = start;
    while i < hi
        invariant
            start <= i <= hi <= s@.len(),
            body == s@.subrange(start as int, hi as int),
            body.len() > 0,
            text == s@.subrange(lo as int, hi as int),
            body == (if text.len() > 0 && text[0] == '+' {
                text.drop_first()
            } else {
                text
            }),
            radix == 10 || radix == 16,
            acc <= max,
            digits_value(body.take(i - start), radix as nat) == Some(acc as nat),
        decreases hi - i,
    {
        let ghost prefix = body.take(i - start);
        let ghost next = body.take(i - start + 1);
        assert(next.drop_last() =~= prefix);
        assert(next.last() == s@[i as int]);
        let d = match digit(s[i], radix) {
            Some(d) => d,
            None => {
                proof {
                    assert(digits_value(next, radix as nat) is None);
                    lemma_none_stays_none(body, radix as nat, i - start + 1);
                }
                return 0;
            },
        };
        assert(digits_value(next, radix as nat) == Some((acc * radix + d) as nat));
        if d as usize > max || acc > (max - d as usize) / radix as usize {
            proof {
                if d <= max {
                    assert(acc * radix + d > max) by (nonlinear_arith)
                        requires
                            acc > (max - d) / radix as int,
                            radix > 0,
                            d <= max,
                    ;
                }
                lemma_digits_grow(body, radix as nat, i - start + 1);
            }
            return 0;
        }
        proof {
            assert(acc * radix + d <= max) by (nonlinear_arith)
                requires
                    acc <= (max - d) / radix as int,
                    radix > 0,
                    d <= max,
            ;
        }
        acc = acc * radix as usize + d as usize;
        i = i + 1;
    }
    assert(body.take(hi - start) =~= body);
    acc
}

/// A prefix that is no number makes the whole no number.
proof fn lemma_none_stays_none(s: Seq<char>, radix: nat, i: int)
    requires
        0 <= i <= s.len(),
        digits_value(s.take(i), radix) is None,
    ensures
        digits_value(s, radix) is None,
    decreases s.len() - i,
{
    if i == s.len() {
        assert(s.take(i) =~= s);
    } else {
        let t = s.drop_last();
        assert(t.take(i) =~= s.take(i));
        lemma_none_stays_none(t, radix, i);
    }
}

} // verus!
