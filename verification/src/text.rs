//! Text helpers over `char` sequences, the views of `&str` and `String`:
//! prefixes and suffixes, splitting, whitespace, and decimal numbers.
use vstd::prelude::*;

verus! {

broadcast use vstd::string::group_string_axioms;

/// The characters of `s`.
pub fn chars_of(s: &str) -> (v: Vec<char>)
    ensures
        v@ == s@,
{
    let mut v: Vec<char> = Vec::new();
    for c in it: s.chars()
        invariant
            v@ == it.seq().take(it.index() as int),
    {
        v.push(c);
    }
    v
}

/// Calls `String::push`. Claimed: the character is appended at the end.
#[verifier::external_body]
fn push_char(s: &mut String, c: char)
    ensures
        final(s)@ == old(s)@.push(c),
{
    s.push(c);
}

/// The string made of the characters `cs`.
pub fn string_of(cs: &[char]) -> (s: String)
    ensures
        s@ == cs@,
{
    let mut s = String::new();
    let mut i: usize = 0;
    while i < cs.len()
        invariant
            i <= cs@.len(),
            s@ == cs@.take(i as int),
        decreases cs@.len() - i,
    {
        push_char(&mut s, cs[i]);
        i = i + 1;
        assert(s@ == cs@.take(i as int));
    }
    assert(cs@.take(cs@.len() as int) == cs@);
    s
}

/// `s` followed by `t`.
pub fn concat(s: &str, t: &str) -> (r: String)
    ensures
        r@ == s@ + t@,
{
    let mut r = String::from_str(s);
    r.append(t);
    r
}

/// Whether `s` begins with `p`.
pub open spec fn has_prefix(s: Seq<char>, p: Seq<char>) -> bool {
    p.len() <= s.len() && s.subrange(0, p.len() as int) == p
}

/// Whether `s` ends with `p`.
pub open spec fn has_suffix(s: Seq<char>, p: Seq<char>) -> bool {
    p.len() <= s.len() && s.subrange(s.len() - p.len(), s.len() as int) == p
}

/// Whether `p` occurs in `s` at position `i`.
pub open spec fn occurs_at(s: Seq<char>, p: Seq<char>, i: int) -> bool {
    0 <= i && i + p.len() <= s.len() && s.subrange(i, i + p.len()) == p
}

/// Whether `p` occurs somewhere in `s`.
pub open spec fn has_infix(s: Seq<char>, p: Seq<char>) -> bool {
    exists|i: int| occurs_at(s, p, i)
}

/// Whether `p` occurs in `s` at position `i`.
fn matches_at(s: &Vec<char>, p: &Vec<char>, i: usize) -> (b: bool)
    ensures
        b == occurs_at(s@, p@, i as int),
{
    if i > s.len() || p.len() > s.len() - i {
        return false;
    }
    let mut j: usize = 0;
    while j < p.len()
        invariant
            i + p@.len() <= s@.len(),
            s@.len() == s.len(),
            j <= p@.len(),
            forall|k: int| 0 <= k < j ==> s@[i + k] == p@[k],
        decreases p@.len() - j,
    {
        if s[i + j] != p[j] {
            assert(s@.subrange(i as int, i + p@.len())[j as int] != p@[j as int]);
            return false;
        }
        j = j + 1;
    }
    assert(s@.subrange(i as int, i + p@.len()) == p@);
    true
}

/// Whether `s` begins with `prefix`.
pub fn starts_with(s: &str, prefix: &str) -> (b: bool)
    ensures
        b == has_prefix(s@, prefix@),
{
    let sv = chars_of(s);
    let pv = chars_of(prefix);
    matches_at(&sv, &pv, 0)
}

/// Whether `s` ends with `suffix`.
pub fn ends_with(s: &str, suffix: &str) -> (b: bool)
    ensures
        b == has_suffix(s@, suffix@),
{
    let sv = chars_of(s);
    let pv = chars_of(suffix);
    if pv.len() > sv.len() {
        return false;
    }
    matches_at(&sv, &pv, sv.len() - pv.len())
}

/// Whether `needle` occurs in `s`.
pub fn contains(s: &str, needle: &str) -> (b: bool)
    ensures
        b == has_infix(s@, needle@),
{
    let sv = chars_of(s);
    let pv = chars_of(needle);
    if pv.len() > sv.len() {
        proof {
            assert forall|i: int| !occurs_at(s@, needle@, i) by {}
        }
        return false;
    }
    let last: usize = sv.len() - pv.len();
    let mut i: usize = 0;
    loop
        invariant_except_break
            i <= last,
        invariant
            last == sv@.len() - pv@.len(),
            sv@ == s@,
            pv@ == needle@,
            forall|k: int| 0 <= k < i ==> !occurs_at(s@, needle@, k),
        ensures
            i == last,
            forall|k: int| 0 <= k <= last ==> !occurs_at(s@, needle@, k),
        decreases last - i,
    {
        if matches_at(&sv, &pv, i) {
            return true;
        }
        if i == last {
            break;
        }
        i = i + 1;
    }
    proof {
        assert forall|k: int| !occurs_at(s@, needle@, k) by {
            if 0 <= k <= last {
            }
        }
    }
    false
}

} // verus!

verus! {


/// Rust's `split` on one character: the pieces between separators, empty
/// pieces included, so that `n` separators give `n + 1` pieces.
pub open spec fn split_on(s: Seq<char>, sep: char) -> Seq<Seq<char>>
    decreases s.len(),
{
    if s.len() == 0 {
        seq![Seq::<char>::empty()]
    } else {
        let pieces = split_on(s.drop_last(), sep);
        if s.last() == sep {
            pieces.push(Seq::<char>::empty())
        } else {
            pieces.update(pieces.len() - 1, pieces.last().push(s.last()))
        }
    }
}

/// Splitting gives at least one piece.
pub proof fn lemma_split_on_nonempty(s: Seq<char>, sep: char)
    ensures
        split_on(s, sep).len() >= 1,
    decreases s.len(),
{
    if s.len() > 0 {
        lemma_split_on_nonempty(s.drop_last(), sep);
    }
}

/// The text views of a sequence of strings.
pub open spec fn views(v: Seq<String>) -> Seq<Seq<char>> {
    v.map_values(|x: String| x@)
}

/// Split `s` at every occurrence of `sep`.
pub fn split_char(s: &str, sep: char) -> (pieces: Vec<String>)
    ensures
        views(pieces@) == split_on(s@, sep),
{
    let cs = chars_of(s);
    let mut done: Vec<String> = Vec::new();
    let mut cur: Vec<char> = Vec::new();
    let mut i: usize = 0;
    assert(views(done@) + seq![cur@] =~= split_on(cs@.take(0), sep));
    while i < cs.len()
        invariant
            cs@ == s@,
            i <= cs@.len(),
            views(done@) + seq![cur@] == split_on(cs@.take(i as int), sep),
        decreases cs@.len() - i,
    {
        let c = cs[i];
        let ghost before = views(done@) + seq![cur@];
        proof {
            assert(cs@.take(i + 1).drop_last() == cs@.take(i as int));
            assert(cs@.take(i + 1).last() == c);
        }
        if c == sep {
            let piece = string_of(cur.as_slice());
            let ghost old_done = done@;
            done.push(piece);
            cur = Vec::new();
            assert(views(done@) + seq![cur@] =~= before.push(Seq::<char>::empty())) by {
                assert(views(done@) =~= views(old_done).push(piece@));
            }
        } else {
            let ghost old_cur = cur@;
            cur.push(c);
            assert(views(done@) + seq![cur@] =~= before.update(
                before.len() - 1,
                before.last().push(c),
            ));
        }
        i = i + 1;
    }
    assert(cs@.take(cs@.len() as int) == cs@);
    let last_piece = string_of(cur.as_slice());
    let ghost old_done = done@;
    done.push(last_piece);
    assert(views(done@) =~= views(old_done).push(last_piece@));
    done
}

} // verus!

verus! {

/// Unicode `White_Space`, the property that `char::is_whitespace` tests.
pub open spec fn is_whitespace(c: char) -> bool {
    let u = c as u32;
    (9 <= u <= 13) || u == 32 || u == 0x85 || u == 0xA0 || u == 0x1680 || (0x2000 <= u <= 0x200A)
        || u == 0x2028 || u == 0x2029 || u == 0x202F || u == 0x205F || u == 0x3000
}

/// Whether `c` is white space.
pub fn is_whitespace_char(c: char) -> (b: bool)
    ensures
        b == is_whitespace(c),
{
    let u: u32 = c as u32;
    (9 <= u && u <= 13) || u == 32 || u == 0x85 || u == 0xA0 || u == 0x1680 || (0x2000 <= u && u
        <= 0x200A) || u == 0x2028 || u == 0x2029 || u == 0x202F || u == 0x205F || u == 0x3000
}

/// Rust's `split_whitespace`: the maximal runs of characters that are not
/// white space, in order.
pub open spec fn ws_tokens(s: Seq<char>) -> Seq<Seq<char>>
    decreases s.len(),
{
    if s.len() == 0 {
        Seq::<Seq<char>>::empty()
    } else {
        let t = ws_tokens(s.drop_last());
        let c = s.last();
        if is_whitespace(c) {
            t
        } else if s.len() >= 2 && !is_whitespace(s[s.len() - 2]) {
            t.update(t.len() - 1, t.last().push(c))
        } else {
            t.push(seq![c])
        }
    }
}

proof fn lemma_ws_tokens_nonempty(s: Seq<char>)
    requires
        s.len() >= 1,
        !is_whitespace(s.last()),
    ensures
        ws_tokens(s).len() >= 1,
    decreases s.len(),
{
    if s.len() >= 2 && !is_whitespace(s[s.len() - 2]) {
        assert(s.drop_last().last() == s[s.len() - 2]);
        lemma_ws_tokens_nonempty(s.drop_last());
    }
}

/// The words of `s`: its maximal runs of non-white-space characters.
pub fn split_whitespace(s: &str) -> (words: Vec<String>)
    ensures
        views(words@) == ws_tokens(s@),
{
    let cs = chars_of(s);
    let mut done: Vec<String> = Vec::new();
    let mut cur: Vec<char> = Vec::new();
    let mut i: usize = 0;
    assert(views(done@) =~= ws_tokens(cs@.take(0)));
    while i < cs.len()
        invariant
            cs@ == s@,
            i <= cs@.len(),
            cur@.len() > 0 ==> views(done@) + seq![cur@] == ws_tokens(cs@.take(i as int)),
            cur@.len() == 0 ==> views(done@) == ws_tokens(cs@.take(i as int)),
            cur@.len() > 0 <==> (i > 0 && !is_whitespace(cs@[i - 1])),
        decreases cs@.len() - i,
    {
        let c = cs[i];
        let ghost prefix = cs@.take(i + 1);
        proof {
            assert(prefix.drop_last() == cs@.take(i as int));
            assert(prefix.last() == c);
            if i >= 1 {
                assert(prefix[prefix.len() - 2] == cs@[i - 1]);
            }
        }
        if is_whitespace_char(c) {
            if cur.len() > 0 {
                let piece = string_of(cur.as_slice());
                let ghost old_done = done@;
                done.push(piece);
                cur = Vec::new();
                assert(views(done@) =~= views(old_done).push(piece@));
            }
        } else {
            let ghost old_cur = cur@;
            cur.push(c);
            proof {
                if old_cur.len() > 0 {
                    assert(views(done@) + seq![cur@] =~= (views(done@) + seq![old_cur]).update(
                        views(done@).len() as int,
                        old_cur.push(c),
                    ));
                } else {
                    assert(cur@ =~= seq![c]);
                    assert(views(done@) + seq![cur@] =~= views(done@).push(seq![c]));
                }
            }
        }
        i = i + 1;
    }
    assert(cs@.take(cs@.len() as int) == cs@);
    if cur.len() > 0 {
        let last_piece = string_of(cur.as_slice());
        let ghost old_done = done@;
        done.push(last_piece);
        assert(views(done@) =~= views(old_done).push(last_piece@));
    }
    done
}

/// `s` without its leading white space.
pub open spec fn trim_start_ws(s: Seq<char>) -> Seq<char>
    decreases s.len(),
{
    if s.len() > 0 && is_whitespace(s[0]) {
        trim_start_ws(s.drop_first())
    } else {
        s
    }
}

/// `s` without its trailing white space.
pub open spec fn trim_end_ws(s: Seq<char>) -> Seq<char>
    decreases s.len(),
{
    if s.len() > 0 && is_whitespace(s.last()) {
        trim_end_ws(s.drop_last())
    } else {
        s
    }
}

/// Rust's `trim`: `s` without leading and trailing white space.
pub open spec fn trim_ws(s: Seq<char>) -> Seq<char> {
    trim_end_ws(trim_start_ws(s))
}

/// `s` without leading and trailing white space.
pub fn trim(s: &str) -> (t: String)
    ensures
        t@ == trim_ws(s@),
{
    let cs = chars_of(s);
    let mut start: usize = 0;
    assert(cs@.subrange(0, cs@.len() as int) == cs@);
    while start < cs.len() && is_whitespace_char(cs[start])
        invariant
            start <= cs@.len(),
            trim_start_ws(cs@) == trim_start_ws(cs@.subrange(start as int, cs@.len() as int)),
        decreases cs@.len() - start,
    {
        let ghost rest = cs@.subrange(start as int, cs@.len() as int);
        assert(rest.drop_first() == cs@.subrange(start + 1, cs@.len() as int));
        start = start + 1;
    }
    let ghost mid = cs@.subrange(start as int, cs@.len() as int);
    assert(trim_start_ws(mid) == mid);
    let mut end: usize = cs.len();
    while end > start && is_whitespace_char(cs[end - 1])
        invariant
            start <= end <= cs@.len(),
            trim_end_ws(mid) == trim_end_ws(cs@.subrange(start as int, end as int)),
        decreases end,
    {
        let ghost part = cs@.subrange(start as int, end as int);
        assert(part.drop_last() == cs@.subrange(start as int, end - 1));
        end = end - 1;
    }
    let ghost kept = cs@.subrange(start as int, end as int);
    assert(trim_end_ws(kept) == kept);
    string_of(vstd::slice::slice_subrange(cs.as_slice(), start, end))
}

} // verus!

verus! {

/// The character of decimal digit `d`.
pub open spec fn digit_char(d: nat) -> char {
    (d + 48) as char
}

/// Whether `c` is one of '0' to '9'.
pub open spec fn is_digit(c: char) -> bool {
    48 <= c as u32 <= 57
}

/// The decimal digits of `n`, without leading zeros.
pub open spec fn nat_decimal(n: nat) -> Seq<char>
    decreases n,
{
    if n < 10 {
        seq![digit_char(n)]
    } else {
        nat_decimal(n / 10).push(digit_char(n % 10))
    }
}

/// How Rust's `Display` writes the integer `i`.
pub open spec fn int_decimal(i: int) -> Seq<char> {
    if i < 0 {
        seq!['-'] + nat_decimal((-i) as nat)
    } else {
        nat_decimal(i as nat)
    }
}

fn push_decimal(out: &mut Vec<char>, n: u128)
    ensures
        final(out)@ == old(out)@ + nat_decimal(n as nat),
    decreases n,
{
    if n >= 10 {
        push_decimal(out, n / 10);
    }
    let d: u8 = (n % 10) as u8;
    let c: char = (d + 48) as char;
    out.push(c);
}

/// The decimal text of an unsigned number.
pub fn format_u64(n: u64) -> (s: String)
    ensures
        s@ == nat_decimal(n as nat),
{
    let mut out: Vec<char> = Vec::new();
    push_decimal(&mut out, n as u128);
    string_of(out.as_slice())
}

/// The decimal text of an unsigned 128-bit number.
pub fn format_u128(n: u128) -> (s: String)
    ensures
        s@ == nat_decimal(n as nat),
{
    let mut out: Vec<char> = Vec::new();
    push_decimal(&mut out, n);
    string_of(out.as_slice())
}

/// The decimal text of a signed number, with a leading '-' when negative.
pub fn format_i64(n: i64) -> (s: String)
    ensures
        s@ == int_decimal(n as int),
{
    let mut out: Vec<char> = Vec::new();
    if n < 0 {
        out.push('-');
        let magnitude: u128 = ((-(n + 1)) as u128) + 1;
        push_decimal(&mut out, magnitude);
    } else {
        push_decimal(&mut out, n as u128);
    }
    string_of(out.as_slice())
}

/// The value of a run of decimal digits.
pub open spec fn digits_value(s: Seq<char>) -> nat
    decreases s.len(),
{
    if s.len() == 0 {
        0
    } else {
        digits_value(s.drop_last()) * 10 + ((s.last() as u32) - 48) as nat
    }
}

/// Whether `s` is a non-empty run of decimal digits.
pub open spec fn all_digits(s: Seq<char>) -> bool {
    s.len() > 0 && forall|i: int| 0 <= i < s.len() ==> is_digit(#[trigger] s[i])
}

/// What Rust's `FromStr` for signed integers accepts, before the range check:
/// an optional '+' or '-', then at least one decimal digit, nothing else.
pub open spec fn parse_signed(s: Seq<char>) -> Option<int> {
    if s.len() > 0 && (s[0] == '+' || s[0] == '-') {
        let digits = s.drop_first();
        if all_digits(digits) {
            if s[0] == '-' {
                Some(-digits_value(digits))
            } else {
                Some(digits_value(digits) as int)
            }
        } else {
            None
        }
    } else if all_digits(s) {
        Some(digits_value(s) as int)
    } else {
        None
    }
}

/// What Rust's `FromStr` for unsigned integers accepts, before the range
/// check: an optional '+', then at least one decimal digit, nothing else.
pub open spec fn parse_unsigned(s: Seq<char>) -> Option<nat> {
    if s.len() > 0 && s[0] == '+' {
        if all_digits(s.drop_first()) {
            Some(digits_value(s.drop_first()))
        } else {
            None
        }
    } else if all_digits(s) {
        Some(digits_value(s))
    } else {
        None
    }
}

/// Cap used while reading digits: above every value the parsers accept.
const DIGITS_CAP: u128 = 0x1_0000_0000_0000_0000_0000_0000;

/// Reads `cs[start..]` as decimal digits: the value, capped at
/// `DIGITS_CAP`, when they are all digits and there is at least one.
fn read_digits(cs: &Vec<char>, start: usize) -> (res: Option<u128>)
    requires
        start <= cs@.len(),
    ensures
        match res {
            Some(v) => all_digits(cs@.subrange(start as int, cs@.len() as int)) && v == (if digits_value(
                cs@.subrange(start as int, cs@.len() as int),
            ) < DIGITS_CAP {
                digits_value(cs@.subrange(start as int, cs@.len() as int))
            } else {
                DIGITS_CAP as nat
            }),
            None => !all_digits(cs@.subrange(start as int, cs@.len() as int)),
        },
{
    if start >= cs.len() {
        return None;
    }
    let mut acc: u128 = 0;
    let mut i: usize = start;
    while i < cs.len()
        invariant
            start <= i <= cs@.len(),
            forall|k: int| start <= k < i ==> is_digit(#[trigger] cs@[k]),
            acc == (if digits_value(cs@.subrange(start as int, i as int)) < DIGITS_CAP {
                digits_value(cs@.subrange(start as int, i as int))
            } else {
                DIGITS_CAP as nat
            }),
        decreases cs@.len() - i,
    {
        let c = cs[i];
        let u: u32 = c as u32;
        if u < 48 || u > 57 {
            assert(cs@.subrange(start as int, cs@.len() as int)[i - start] == c);
            return None;
        }
        let ghost before = cs@.subrange(start as int, i as int);
        let ghost after = cs@.subrange(start as int, i + 1);
        assert(after.drop_last() == before);
        assert(after.last() == c);
        let d: u128 = (u - 48) as u128;
        if acc < DIGITS_CAP {
            let next: u128 = acc * 10 + d;
            if next < DIGITS_CAP {
                acc = next;
            } else {
                acc = DIGITS_CAP;
            }
        } else {
            assert(digits_value(after) >= digits_value(before)) by (nonlinear_arith)
                requires
                    digits_value(after) == digits_value(before) * 10 + d,
            ;
        }
        i = i + 1;
    }
    assert(all_digits(cs@.subrange(start as int, cs@.len() as int)));
    Some(acc)
}

/// Rust's `str::parse::<i64>`, with the number's range given by `lo` and `hi`.
fn parse_signed_in_range(s: &str, lo: i64, hi: i64) -> (res: Option<i64>)
    requires
        i64::MIN < lo <= 0 <= hi,
    ensures
        match parse_signed(s@) {
            Some(v) => if lo <= v <= hi {
                res == Some(v as i64)
            } else {
                res is None
            },
            None => res is None,
        },
{
    let cs = chars_of(s);
    if cs.len() > 0 && (cs[0] == '+' || cs[0] == '-') {
        assert(cs@.subrange(1, cs@.len() as int) == s@.drop_first());
        match read_digits(&cs, 1) {
            Some(v) => {
                if cs[0] == '-' {
                    if v <= (-lo) as u128 {
                        Some(-(v as i64))
                    } else {
                        None
                    }
                } else {
                    if v <= hi as u128 {
                        Some(v as i64)
                    } else {
                        None
                    }
                }
            },
            None => None,
        }
    } else {
        assert(cs@.subrange(0, cs@.len() as int) == s@);
        match read_digits(&cs, 0) {
            Some(v) => {
                if v <= hi as u128 {
                    Some(v as i64)
                } else {
                    None
                }
            },
            None => None,
        }
    }
}

/// Rust's `str::parse::<u64>`, with the largest accepted value `hi`.
fn parse_unsigned_in_range(s: &str, hi: u64) -> (res: Option<u64>)
    ensures
        match parse_unsigned(s@) {
            Some(v) => if v <= hi {
                res == Some(v as u64)
            } else {
                res is None
            },
            None => res is None,
        },
{
    let cs = chars_of(s);
    let start: usize = if cs.len() > 0 && cs[0] == '+' {
        1
    } else {
        0
    };
    assert(cs@.subrange(1, cs@.len() as int) == s@.drop_first());
    assert(cs@.subrange(0, cs@.len() as int) == s@);
    match read_digits(&cs, start) {
        Some(v) => if v <= hi as u128 {
            Some(v as u64)
        } else {
            None
        },
        None => None,
    }
}

/// Rust's `str::parse::<i32>`.
pub fn parse_i32(s: &str) -> (res: Option<i32>)
    ensures
        res == spec_parse_i32(s@),
{
    match parse_signed_in_range(s, i32::MIN as i64, i32::MAX as i64) {
        Some(v) => Some(v as i32),
        None => None,
    }
}

/// What `str::parse::<i32>` gives.
pub open spec fn spec_parse_i32(s: Seq<char>) -> Option<i32> {
    match parse_signed(s) {
        Some(v) => if i32::MIN <= v <= i32::MAX {
            Some(v as i32)
        } else {
            None
        },
        None => None,
    }
}

/// What `str::parse::<usize>` gives.
pub open spec fn spec_parse_usize(s: Seq<char>) -> Option<usize> {
    match parse_unsigned(s) {
        Some(v) => if v <= usize::MAX {
            Some(v as usize)
        } else {
            None
        },
        None => None,
    }
}

/// What `str::parse::<u32>` gives.
pub open spec fn spec_parse_u32(s: Seq<char>) -> Option<u32> {
    match parse_unsigned(s) {
        Some(v) => if v <= u32::MAX {
            Some(v as u32)
        } else {
            None
        },
        None => None,
    }
}

/// Rust's `str::parse::<usize>`.
pub fn parse_usize(s: &str) -> (res: Option<usize>)
    ensures
        res == spec_parse_usize(s@),
{
    match parse_unsigned_in_range(s, usize::MAX as u64) {
        Some(v) => Some(v as usize),
        None => None,
    }
}

/// Rust's `str::parse::<u32>`.
pub fn parse_u32(s: &str) -> (res: Option<u32>)
    ensures
        res == spec_parse_u32(s@),
{
    match parse_unsigned_in_range(s, u32::MAX as u64) {
        Some(v) => Some(v as u32),
        None => None,
    }
}

} // verus!

verus! {

/// The words joined with `sep` between each two, as `join` does.
pub open spec fn join_with(words: Seq<Seq<char>>, sep: Seq<char>) -> Seq<char>
    decreases words.len(),
{
    if words.len() == 0 {
        Seq::<char>::empty()
    } else if words.len() == 1 {
        words[0]
    } else {
        join_with(words.drop_last(), sep) + sep + words.last()
    }
}

/// The strings `words[from..]` joined with `sep`.
pub fn join_from(words: &Vec<String>, from: usize, sep: &str) -> (r: String)
    requires
        from <= words@.len(),
    ensures
        r@ == join_with(views(words@).subrange(from as int, words@.len() as int), sep@),
{
    let mut r = String::new();
    let mut i: usize = from;
    let ghost all = views(words@);
    assert(all.subrange(from as int, from as int) =~= Seq::<Seq<char>>::empty());
    while i < words.len()
        invariant
            from <= i <= words@.len(),
            all == views(words@),
            r@ == join_with(all.subrange(from as int, i as int), sep@),
        decreases words@.len() - i,
    {
        let ghost done = all.subrange(from as int, i as int);
        let ghost next = all.subrange(from as int, i + 1);
        assert(next.drop_last() == done);
        assert(next.last() == words@[i as int]@);
        if i > from {
            r.append(sep);
        } else {
            assert(next =~= seq![words@[i as int]@]);
        }
        r.append(words[i].as_str());
        i = i + 1;
    }
    r
}

/// Whether two strings are equal.
pub fn str_eq(a: &str, b: &str) -> (r: bool)
    ensures
        r == (a@ == b@),
{
    let av = chars_of(a);
    let bv = chars_of(b);
    if av.len() != bv.len() {
        return false;
    }
    let mut i: usize = 0;
    while i < av.len()
        invariant
            av@ == a@,
            bv@ == b@,
            av@.len() == bv@.len(),
            i <= av@.len(),
            forall|k: int| 0 <= k < i ==> av@[k] == bv@[k],
        decreases av@.len() - i,
    {
        if av[i] != bv[i] {
            assert(a@[i as int] != b@[i as int]);
            return false;
        }
        i = i + 1;
    }
    assert(av@ == bv@);
    true
}

} // verus!

verus! {

/// `s` with every non-overlapping occurrence of `pat`, found from the left,
/// replaced by `rep`, as `str::replace` does for a non-empty pattern.
pub open spec fn replace_all(s: Seq<char>, pat: Seq<char>, rep: Seq<char>) -> Seq<char>
    decreases s.len(),
{
    if pat.len() == 0 || s.len() == 0 {
        s
    } else if has_prefix(s, pat) {
        rep + replace_all(s.subrange(pat.len() as int, s.len() as int), pat, rep)
    } else {
        seq![s[0]] + replace_all(s.drop_first(), pat, rep)
    }
}

/// Replacing leaves a text without the pattern as it is, and a text that
/// starts with the pattern gets the replacement for it and then has the rest
/// replaced in turn: every occurrence is replaced, not only the first.
pub proof fn law_replace_all_every_occurrence(s: Seq<char>, pat: Seq<char>, rep: Seq<char>)
    requires
        pat.len() > 0,
    ensures
        !has_infix(s, pat) ==> replace_all(s, pat, rep) == s,
        replace_all(pat + s, pat, rep) == rep + replace_all(s, pat, rep),
    decreases s.len(),
{
    let ps = pat + s;
    assert(ps.subrange(0, pat.len() as int) =~= pat);
    assert(ps.subrange(pat.len() as int, ps.len() as int) =~= s);
    if !has_infix(s, pat) && s.len() > 0 {
        assert(!has_prefix(s, pat)) by {
            if has_prefix(s, pat) {
                assert(occurs_at(s, pat, 0));
            }
        }
        let t = s.drop_first();
        assert(!has_infix(t, pat)) by {
            if has_infix(t, pat) {
                let i = choose|i: int| occurs_at(t, pat, i);
                assert(s.subrange(i + 1, i + 1 + pat.len()) =~= t.subrange(i, i + pat.len()));
                assert(occurs_at(s, pat, i + 1));
            }
        }
        law_replace_all_every_occurrence(t, pat, rep);
        assert(seq![s[0]] + t =~= s);
    }
}

/// Replace every occurrence of the non-empty `pat` in `s` with `rep`.
pub fn replace(s: &str, pat: &str, rep: &str) -> (r: String)
    requires
        pat@.len() > 0,
    ensures
        r@ == replace_all(s@, pat@, rep@),
{
    let sv = chars_of(s);
    let pv = chars_of(pat);
    let mut r = String::new();
    let mut i: usize = 0;
    assert(sv@.subrange(0, sv@.len() as int) == sv@);
    while i < sv.len()
        invariant
            sv@ == s@,
            pv@ == pat@,
            pat@.len() > 0,
            i <= sv@.len(),
            r@ + replace_all(sv@.subrange(i as int, sv@.len() as int), pat@, rep@) == replace_all(
                s@,
                pat@,
                rep@,
            ),
        decreases sv@.len() - i,
    {
        let ghost rest = sv@.subrange(i as int, sv@.len() as int);
        if matches_at(&sv, &pv, i) {
            assert(has_prefix(rest, pat@)) by {
                assert(rest.subrange(0, pat@.len() as int) == sv@.subrange(i as int, i + pat@.len()));
            }
            assert(rest.subrange(pat@.len() as int, rest.len() as int) == sv@.subrange(
                i + pat@.len(),
                sv@.len() as int,
            ));
            r.append(rep);
            i = i + pv.len();
        } else {
            assert(!has_prefix(rest, pat@)) by {
                if has_prefix(rest, pat@) {
                    assert(sv@.subrange(i as int, i + pat@.len()) == rest.subrange(0, pat@.len() as int));
                }
            }
            assert(rest.drop_first() == sv@.subrange(i + 1, sv@.len() as int));
            let ghost before = r@;
            let mut one = String::new();
            push_char(&mut one, sv[i]);
            r.append(one.as_str());
            assert(r@ == before + seq![rest[0]]);
            i = i + 1;
        }
    }
    r
}

} // verus!
