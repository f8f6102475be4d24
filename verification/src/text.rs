use vstd::prelude::*;

verus! {

/// The whitespace characters that field trimming removes.
pub open spec fn is_space_char(c: char) -> bool {
    c == ' ' || c == '\t' || c == '\n' || c == '\r'
}

/// Splitting, one separator occurrence at a time: `acc` holds the finished
/// fields, `cur` the field being read, `rest` what is still unread.
pub open spec fn split_go(
    acc: Seq<Seq<char>>,
    cur: Seq<char>,
    rest: Seq<char>,
    sep: char,
) -> Seq<Seq<char>>
    decreases rest.len(),
{
    if rest.len() == 0 {
        acc.push(cur)
    } else if rest[0] == sep {
        split_go(acc.push(cur), Seq::empty(), rest.drop_first(), sep)
    } else {
        split_go(acc, cur.push(rest[0]), rest.drop_first(), sep)
    }
}

/// The fields of `s` between occurrences of `sep`; an empty `s` yields one
/// empty field, as the standard splitter does.
pub open spec fn spec_split(s: Seq<char>, sep: char) -> Seq<Seq<char>> {
    split_go(Seq::empty(), Seq::empty(), s, sep)
}

/// `s` without leading whitespace.
pub open spec fn spec_trim_start(s: Seq<char>) -> Seq<char>
    decreases s.len(),
{
    if s.len() > 0 && is_space_char(s[0]) {
        spec_trim_start(s.drop_first())
    } else {
        s
    }
}

/// `s` without trailing whitespace.
pub open spec fn spec_trim_end(s: Seq<char>) -> Seq<char>
    decreases s.len(),
{
    if s.len() > 0 && is_space_char(s.last()) {
        spec_trim_end(s.drop_last())
    } else {
        s
    }
}

/// `s` without leading and trailing whitespace.
pub open spec fn spec_trim(s: Seq<char>) -> Seq<char> {
    spec_trim_end(spec_trim_start(s))
}

/// An upper-case ASCII letter folded to lower case; anything else unchanged.
pub open spec fn lower_char(c: char) -> char {
    if 'A' <= c && c <= 'Z' {
        (((c as u8) + 32) as char)
    } else {
        c
    }
}

/// `s` with every upper-case ASCII letter folded to lower case.
pub open spec fn spec_to_lower(s: Seq<char>) -> Seq<char> {
    Seq::new(s.len(), |i: int| lower_char(s[i]))
}

/// A decimal digit.
pub open spec fn is_digit(c: char) -> bool {
    '0' <= c && c <= '9'
}

/// The numeric value of a digit character.
pub open spec fn digit_val(c: char) -> int {
    (c as u8) - 48
}

/// Whether every character of `s` is a decimal digit.
pub open spec fn all_digits(s: Seq<char>) -> bool {
    forall|i: int| 0 <= i < s.len() ==> is_digit(#[trigger] s[i])
}

/// The number written by the digits of `s`, most significant first.
pub open spec fn digits_val(s: Seq<char>) -> int
    decreases s.len(),
{
    if s.len() == 0 {
        0
    } else {
        digits_val(s.drop_last()) * 10 + digit_val(s.last())
    }
}

/// What parsing an unsigned decimal number returns: the value, if `s` is one
/// or more digits whose value fits a `u64`.
pub open spec fn spec_parse_digits(s: Seq<char>) -> Option<u64> {
    if s.len() > 0 && all_digits(s) && digits_val(s) <= u64::MAX {
        Some(digits_val(s) as u64)
    } else {
        None
    }
}

/// `s` with one leading plus sign removed, as decimal parsing accepts it.
pub open spec fn strip_plus(s: Seq<char>) -> Seq<char> {
    if s.len() > 0 && s[0] == '+' {
        s.drop_first()
    } else {
        s
    }
}

/// What parsing a `u8` from text returns.
pub open spec fn spec_parse_u8(s: Seq<char>) -> Option<u8> {
    match spec_parse_digits(strip_plus(s)) {
        Some(v) => if v <= u8::MAX {
            Some(v as u8)
        } else {
            None
        },
        None => None,
    }
}

/// What parsing an `i64` from text returns: one optional sign, then digits,
/// within the signed range.
pub open spec fn spec_parse_i64(s: Seq<char>) -> Option<i64> {
    if s.len() > 0 && s[0] == '-' {
        let body = s.drop_first();
        if body.len() > 0 && all_digits(body) && digits_val(body) <= 0x8000_0000_0000_0000 {
            Some((-digits_val(body)) as i64)
        } else {
            None
        }
    } else {
        match spec_parse_digits(strip_plus(s)) {
            Some(v) => if v <= i64::MAX {
                Some(v as i64)
            } else {
                None
            },
            None => None,
        }
    }
}

/// Under `all_digits`, a prefix never writes a larger number than the whole.
pub proof fn lemma_digits_val_prefix_le(s: Seq<char>, i: int)
    requires
        all_digits(s),
        0 <= i <= s.len(),
    ensures
        0 <= digits_val(s.subrange(0, i)),
        digits_val(s.subrange(0, i)) <= digits_val(s),
    decreases s.len(),
{
    lemma_digits_val_nonneg(s);
    if i == s.len() {
        assert(s.subrange(0, i) =~= s);
    } else {
        let t = s.drop_last();
        assert(all_digits(t));
        assert(s.subrange(0, i) =~= t.subrange(0, i));
        lemma_digits_val_prefix_le(t, i);
        lemma_digits_val_nonneg(t);
    }
}

/// Under `all_digits`, the written number is not negative.
pub proof fn lemma_digits_val_nonneg(s: Seq<char>)
    requires
        all_digits(s),
    ensures
        digits_val(s) >= 0,
    decreases s.len(),
{
    if s.len() > 0 {
        assert(all_digits(s.drop_last()));
        lemma_digits_val_nonneg(s.drop_last());
    }
}

/// The characters of `s`, one slot each.
pub fn as_chars(s: &str) -> (v: Vec<char>)
    ensures
        v@ == s@,
{
    let n: usize = s.unicode_len();
    let mut v: Vec<char> = Vec::new();
    let mut i: usize = 0;
    while i < n
        invariant
            n == s@.len(),
            i <= n,
            v@ == s@.subrange(0, i as int),
        decreases n - i,
    {
        v.push(s.get_char(i));
        i = i + 1;
        proof {
            assert(v@ =~= s@.subrange(0, i as int));
        }
    }
    proof {
        assert(v@ =~= s@);
    }
    v
}

/// Relies on `String::from_iter`: the returned string holds exactly the given
/// characters, in order.
#[verifier::external_body]
pub fn string_from_chars(v: &Vec<char>) -> (s: String)
    ensures
        s@ == v@,
{
    String::from_iter(v.iter().copied())
}

/// Whether the characters of `v` spell exactly `s`.
pub fn chars_eq_str(v: &Vec<char>, s: &str) -> (r: bool)
    ensures
        r == (v@ == s@),
{
    let n: usize = s.unicode_len();
    if v.len() != n {
        proof {
            assert(v@ != s@);
        }
        return false;
    }
    let mut i: usize = 0;
    while i < n
        invariant
            n == s@.len(),
            v@.len() == n,
            i <= n,
            forall|j: int| 0 <= j < i ==> v@[j] == s@[j],
        decreases n - i,
    {
        if v[i] != s.get_char(i) {
            proof {
                assert(v@ != s@);
            }
            return false;
        }
        i = i + 1;
    }
    proof {
        assert(v@ =~= s@);
    }
    true
}

/// Whether two pieces of text hold the same characters.
pub fn str_eq(a: &str, b: &str) -> (r: bool)
    ensures
        r == (a@ == b@),
{
    let av = as_chars(a);
    chars_eq_str(&av, b)
}

/// The fields of `v` between occurrences of `sep`.
pub fn split_chars(v: &Vec<char>, sep: char) -> (r: Vec<Vec<char>>)
    ensures
        r.deep_view() == spec_split(v@, sep),
        r@.len() >= 1,
{
    let mut acc: Vec<Vec<char>> = Vec::new();
    let mut cur: Vec<char> = Vec::new();
    let mut i: usize = 0;
    proof {
        assert(v@.subrange(0, v@.len() as int) =~= v@);
        assert(acc.deep_view() =~= Seq::<Seq<char>>::empty());
    }
    while i < v.len()
        invariant
            i <= v@.len(),
            split_go(acc.deep_view(), cur@, v@.subrange(i as int, v@.len() as int), sep)
                == spec_split(v@, sep),
        decreases v@.len() - i,
    {
        let ghost rest = v@.subrange(i as int, v@.len() as int);
        let ghost acc_dv = acc.deep_view();
        let ghost cur_v = cur@;
        let c = v[i];
        if c == sep {
            acc.push(cur);
            cur = Vec::new();
            proof {
                assert(acc.deep_view() =~~= acc_dv.push(cur_v));
            }
        } else {
            cur.push(c);
        }
        i = i + 1;
        proof {
            assert(rest.drop_first() =~= v@.subrange(i as int, v@.len() as int));
        }
    }
    proof {
        assert(v@.subrange(v@.len() as int, v@.len() as int) =~= Seq::<char>::empty());
    }
    let ghost acc_dv = acc.deep_view();
    let ghost cur_v = cur@;
    acc.push(cur);
    proof {
        assert(acc.deep_view() =~~= acc_dv.push(cur_v));
    }
    acc
}

/// `v` without leading and trailing whitespace.
pub fn trim_chars(v: &Vec<char>) -> (r: Vec<char>)
    ensures
        r@ == spec_trim(v@),
{
    let n: usize = v.len();
    let mut start: usize = 0;
    proof {
        assert(v@.subrange(0, n as int) =~= v@);
    }
    while start < n && is_space(v[start])
        invariant
            n == v@.len(),
            start <= n,
            spec_trim_start(v@.subrange(start as int, n as int)) == spec_trim_start(v@),
        decreases n - start,
    {
        let ghost before = v@.subrange(start as int, n as int);
        start = start + 1;
        proof {
            assert(before.drop_first() =~= v@.subrange(start as int, n as int));
        }
    }
    proof {
        assert(spec_trim_start(v@) =~= v@.subrange(start as int, n as int));
    }
    let mut end: usize = n;
    while end > start && is_space(v[end - 1])
        invariant
            n == v@.len(),
            start <= end <= n,
            spec_trim_start(v@) == v@.subrange(start as int, n as int),
            spec_trim_end(v@.subrange(start as int, end as int)) == spec_trim_end(
                v@.subrange(start as int, n as int),
            ),
        decreases end,
    {
        let ghost before = v@.subrange(start as int, end as int);
        end = end - 1;
        proof {
            assert(before.drop_last() =~= v@.subrange(start as int, end as int));
        }
    }
    proof {
        assert(spec_trim(v@) =~= v@.subrange(start as int, end as int));
    }
    let mut r: Vec<char> = Vec::new();
    let mut i: usize = start;
    while i < end
        invariant
            start <= i <= end <= v@.len(),
            r@ == v@.subrange(start as int, i as int),
        decreases end - i,
    {
        r.push(v[i]);
        i = i + 1;
        proof {
            assert(r@ =~= v@.subrange(start as int, i as int));
        }
    }
    proof {
        assert(r@ =~= spec_trim(v@));
    }
    r
}

/// Whether `c` is whitespace that trimming removes.
pub fn is_space(c: char) -> (r: bool)
    ensures
        r == is_space_char(c),
{
    c == ' ' || c == '\t' || c == '\n' || c == '\r'
}

/// `v` with every upper-case ASCII letter folded to lower case.
pub fn lower_chars(v: &Vec<char>) -> (r: Vec<char>)
    ensures
        r@ == spec_to_lower(v@),
{
    let mut r: Vec<char> = Vec::new();
    let mut i: usize = 0;
    while i < v.len()
        invariant
            i <= v@.len(),
            r@.len() == i,
            forall|j: int| 0 <= j < i ==> r@[j] == lower_char(#[trigger] v@[j]),
        decreases v@.len() - i,
    {
        let c = v[i];
        if 'A' <= c && c <= 'Z' {
            r.push(((c as u8) + 32) as char);
        } else {
            r.push(c);
        }
        i = i + 1;
    }
    proof {
        assert(r@ =~= spec_to_lower(v@));
    }
    r
}

/// Parses the digits of `v` from `from` to the end as an unsigned number.
fn parse_digits_from(v: &Vec<char>, from: usize) -> (r: Option<u64>)
    requires
        from <= v@.len(),
    ensures
        r == spec_parse_digits(v@.subrange(from as int, v@.len() as int)),
{
    let ghost s = v@.subrange(from as int, v@.len() as int);
    let n: usize = v.len();
    if from == n {
        return None;
    }
    let mut acc: u64 = 0;
    let mut i: usize = from;
    while i < n
        invariant
            from <= i <= n,
            n == v@.len(),
            n > from,
            s == v@.subrange(from as int, n as int),
            all_digits(s.subrange(0, (i - from) as int)),
            acc as int == digits_val(s.subrange(0, (i - from) as int)),
        decreases n - i,
    {
        let c = v[i];
        let ghost pref = s.subrange(0, (i - from) as int);
        if !('0' <= c && c <= '9') {
            proof {
                assert(s[(i - from) as int] == c);
                assert(!all_digits(s));
            }
            return None;
        }
        let d: u64 = ((c as u8) - 48) as u64;
        proof {
            assert(pref.push(c) =~= s.subrange(0, (i + 1 - from) as int));
            assert(pref.push(c).drop_last() =~= pref);
        }
        if acc > (u64::MAX - d) / 10 {
            proof {
                let ext = s.subrange(0, (i + 1 - from) as int);
                assert(digits_val(ext) == acc * 10 + d);
                assert(acc * 10 + d > u64::MAX) by (nonlinear_arith)
                    requires
                        acc > (u64::MAX - d) / 10,
                        0 <= d <= 9,
                        acc <= u64::MAX,
                ;
                if all_digits(s) {
                    lemma_digits_val_prefix_le(s, (i + 1 - from) as int);
                }
            }
            return None;
        }
        proof {
            assert(acc * 10 + d <= u64::MAX) by (nonlinear_arith)
                requires
                    acc <= (u64::MAX - d) / 10,
                    0 <= d <= 9,
                    acc >= 0,
            ;
        }
        acc = acc * 10 + d;
        i = i + 1;
    }
    proof {
        assert(s.subrange(0, (n - from) as int) =~= s);
    }
    Some(acc)
}

/// Parses `v` as a `u8`, exactly as decimal text parsing does.
pub fn parse_u8_chars(v: &Vec<char>) -> (r: Option<u8>)
    ensures
        r == spec_parse_u8(v@),
{
    let from: usize = if v.len() > 0 && v[0] == '+' {
        1
    } else {
        0
    };
    proof {
        assert(strip_plus(v@) =~= v@.subrange(from as int, v@.len() as int));
    }
    match parse_digits_from(v, from) {
        Some(val) => if val <= 255 {
            Some(val as u8)
        } else {
            None
        },
        None => None,
    }
}

/// Parses `v` as an `i64`, exactly as decimal text parsing does.
pub fn parse_i64_chars(v: &Vec<char>) -> (r: Option<i64>)
    ensures
        r == spec_parse_i64(v@),
{
    if v.len() > 0 && v[0] == '-' {
        proof {
            assert(v@.drop_first() =~= v@.subrange(1, v@.len() as int));
        }
        match parse_digits_from(v, 1) {
            Some(val) => {
                proof {
                    let body = v@.drop_first();
                    assert(spec_parse_digits(body) == Some(val));
                    assert(body.len() > 0 && all_digits(body));
                    lemma_digits_val_nonneg(body);
                    assert(val as int == digits_val(body));
                }
                if val <= 0x8000_0000_0000_0000 {
                    let neg: i128 = -(val as i128);
                    Some(neg as i64)
                } else {
                    None
                }
            },
            None => None,
        }
    } else {
        let from: usize = if v.len() > 0 && v[0] == '+' {
            1
        } else {
            0
        };
        proof {
            assert(strip_plus(v@) =~= v@.subrange(from as int, v@.len() as int));
        }
        match parse_digits_from(v, from) {
            Some(val) => {
                proof {
                    let body = strip_plus(v@);
                    assert(spec_parse_digits(body) == Some(val));
                    assert(body.len() > 0 && all_digits(body));
                    lemma_digits_val_nonneg(body);
                    assert(val as int == digits_val(body));
                }
                if val <= i64::MAX as u64 {
                    Some(val as i64)
                } else {
                    None
                }
            },
            None => None,
        }
    }
}

} // verus!
