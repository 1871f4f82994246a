//! Client identities: the MQTT client ids, and the client number that a
//! player id carries (used to place test windows side by side).
use vstd::prelude::*;
use crate::text::{
    chars_of, concat, digit_char, format_u128, format_u64, is_digit, nat_decimal, parse_u32,
    split_char, split_on, spec_parse_u32, string_of, views,
};

verus! {

broadcast use vstd::string::group_string_axioms;

/// The longest run of decimal digits that ends `s`.
pub open spec fn trailing_digits(s: Seq<char>) -> Seq<char>
    decreases s.len(),
{
    if s.len() > 0 && is_digit(s.last()) {
        trailing_digits(s.drop_last()).push(s.last())
    } else {
        Seq::empty()
    }
}

/// The client number of a player id: the number after its last '-'; else
/// the whole id read as a number; else the digits it ends with.
pub open spec fn spec_client_number(id: Seq<char>) -> Option<u32> {
    let pieces = split_on(id, '-');
    match spec_parse_u32(pieces.last()) {
        Some(n) => Some(n),
        None => match spec_parse_u32(id) {
            Some(n) => Some(n),
            None => {
                let t = trailing_digits(id);
                if t.len() > 0 {
                    spec_parse_u32(t)
                } else {
                    None
                }
            },
        },
    }
}

/// The client number of a player id such as "player-2", "2" or "client7".
pub fn extract_client_number(player_id: &str) -> (n: Option<u32>)
    ensures
        n == spec_client_number(player_id@),
{
    let pieces = split_char(player_id, '-');
    proof {
        crate::text::lemma_split_on_nonempty(player_id@, '-');
        assert(views(pieces@)[pieces@.len() - 1] == pieces@[pieces@.len() - 1]@);
    }
    let last = pieces.len() - 1;
    if let Some(num) = parse_u32(pieces[last].as_str()) {
        return Some(num);
    }
    if let Some(num) = parse_u32(player_id) {
        return Some(num);
    }
    let cs = chars_of(player_id);
    let mut start: usize = cs.len();
    assert(cs@.take(cs@.len() as int) == cs@);
    assert(cs@.subrange(cs@.len() as int, cs@.len() as int) =~= Seq::<char>::empty());
    assert(cs@ + Seq::<char>::empty() =~= cs@);
    while start > 0 && is_ascii_digit(cs[start - 1])
        invariant
            start <= cs@.len(),
            cs@ == player_id@,
            trailing_digits(cs@) == trailing_digits(cs@.take(start as int)) + cs@.subrange(
                start as int,
                cs@.len() as int,
            ),
        decreases start,
    {
        let ghost before = cs@.take(start as int);
        assert(before.drop_last() == cs@.take(start - 1));
        assert(before.last() == cs@[start - 1]);
        assert(cs@.subrange(start - 1, cs@.len() as int) == seq![cs@[start - 1]] + cs@.subrange(
            start as int,
            cs@.len() as int,
        ));
        start = start - 1;
    }
    proof {
        let before = cs@.take(start as int);
        if start > 0 {
            assert(before.last() == cs@[start - 1]);
        }
        assert(trailing_digits(before) == Seq::<char>::empty());
    }
    let digits = string_of(vstd::slice::slice_subrange(cs.as_slice(), start, cs.len()));
    assert(digits@ == trailing_digits(player_id@));
    if start < cs.len() {
        parse_u32(digits.as_str())
    } else {
        None
    }
}

fn is_ascii_digit(c: char) -> (b: bool)
    ensures
        b == is_digit(c),
{
    let u: u32 = c as u32;
    48 <= u && u <= 57
}

/// How a client id is made: "{prefix}-{milliseconds}-{process id}-{random}".
pub open spec fn spec_client_id(prefix: Seq<char>, millis: u128, pid: u32, random: u16) -> Seq<char> {
    prefix + "-"@ + nat_decimal(millis as nat) + "-"@ + nat_decimal(pid as nat) + "-"@ + nat_decimal(
        random as nat,
    )
}

/// The client id for this prefix, time (milliseconds since the epoch),
/// process id and random number.
pub fn format_client_id(prefix: &str, millis: u128, pid: u32, random: u16) -> (id: String)
    ensures
        id@ == spec_client_id(prefix@, millis, pid, random),
{
    let mut id = concat(prefix, "-");
    id.append(format_u128(millis).as_str());
    id.append("-");
    id.append(format_u64(pid as u64).as_str());
    id.append("-");
    id.append(format_u64(random as u64).as_str());
    id
}

/// Calls `rand::random::<u16>()`. Nothing is claimed of the number.
#[verifier::external_body]
fn random_u16() -> (r: u16) {
    rand::random::<u16>()
}

/// A fresh client id for this prefix, time and process: the random part
/// keeps ids of one process apart.
pub fn generate_unique_client_id(prefix: &str, millis: u128, pid: u32) -> (id: String)
    ensures
        exists|r: u16| id@ == spec_client_id(prefix@, millis, pid, r),
{
    let random = random_u16();
    format_client_id(prefix, millis, pid, random)
}

proof fn lemma_decimal_digits(n: nat)
    ensures
        nat_decimal(n).len() >= 1,
        n >= 10 ==> nat_decimal(n).len() >= 2,
        forall|i: int| 0 <= i < nat_decimal(n).len() ==> is_digit(#[trigger] nat_decimal(n)[i]),
    decreases n,
{
    if n >= 10 {
        lemma_decimal_digits(n / 10);
        let d = nat_decimal(n / 10);
        assert forall|i: int| 0 <= i < nat_decimal(n).len() implies is_digit(#[trigger] nat_decimal(n)[i]) by {
            if i < d.len() {
                assert(nat_decimal(n)[i] == d[i]);
            }
        }
    }
}

proof fn lemma_decimal_injective(a: nat, b: nat)
    requires
        nat_decimal(a) == nat_decimal(b),
    ensures
        a == b,
    decreases a,
{
    lemma_decimal_digits(a);
    lemma_decimal_digits(b);
    if a >= 10 && b >= 10 {
        let da = nat_decimal(a / 10);
        let db = nat_decimal(b / 10);
        assert(nat_decimal(a).last() == digit_char(a % 10));
        assert(nat_decimal(b).last() == digit_char(b % 10));
        assert(nat_decimal(a).drop_last() =~= da);
        assert(nat_decimal(b).drop_last() =~= db);
        lemma_decimal_injective(a / 10, b / 10);
    } else if a < 10 && b < 10 {
        assert(nat_decimal(a)[0] == digit_char(a));
        assert(nat_decimal(b)[0] == digit_char(b));
    }
}

/// Digit runs split the same way: a run of digits, '-', and the rest.
proof fn lemma_split_after_digits(a: Seq<char>, r: Seq<char>, b: Seq<char>, t: Seq<char>)
    requires
        forall|i: int| 0 <= i < a.len() ==> is_digit(#[trigger] a[i]),
        forall|i: int| 0 <= i < b.len() ==> is_digit(#[trigger] b[i]),
        a + seq!['-'] + r == b + seq!['-'] + t,
    ensures
        a == b,
        r == t,
{
    let x = a + seq!['-'] + r;
    let y = b + seq!['-'] + t;
    if a.len() < b.len() {
        assert(x[a.len() as int] == '-');
        assert(y[a.len() as int] == b[a.len() as int]);
        assert(false);
    } else if b.len() < a.len() {
        assert(y[b.len() as int] == '-');
        assert(x[b.len() as int] == a[b.len() as int]);
        assert(false);
    }
    assert(a =~= x.subrange(0, a.len() as int));
    assert(b =~= y.subrange(0, b.len() as int));
    assert(r =~= x.subrange((a.len() + 1) as int, x.len() as int));
    assert(t =~= y.subrange((b.len() + 1) as int, y.len() as int));
}

/// Ids made with one prefix differ whenever their times, process ids or
/// random numbers differ: each part is written in decimal, which holds no
/// '-', so the id can be read back into its parts.
pub proof fn law_client_ids_distinct(
    prefix: Seq<char>,
    millis1: u128,
    pid1: u32,
    random1: u16,
    millis2: u128,
    pid2: u32,
    random2: u16,
)
    requires
        millis1 != millis2 || pid1 != pid2 || random1 != random2,
    ensures
        spec_client_id(prefix, millis1, pid1, random1) != spec_client_id(prefix, millis2, pid2, random2),
{
    reveal_strlit("-");
    let dash = seq!['-'];
    assert("-"@ == dash);
    let (m1, p1, r1) = (nat_decimal(millis1 as nat), nat_decimal(pid1 as nat), nat_decimal(random1 as nat));
    let (m2, p2, r2) = (nat_decimal(millis2 as nat), nat_decimal(pid2 as nat), nat_decimal(random2 as nat));
    lemma_decimal_digits(millis1 as nat);
    lemma_decimal_digits(pid1 as nat);
    lemma_decimal_digits(millis2 as nat);
    lemma_decimal_digits(pid2 as nat);
    let id1 = spec_client_id(prefix, millis1, pid1, random1);
    let id2 = spec_client_id(prefix, millis2, pid2, random2);
    if id1 == id2 {
        let k = prefix.len() + 1;
        let rest1 = m1 + dash + (p1 + dash + r1);
        let rest2 = m2 + dash + (p2 + dash + r2);
        assert(id1.subrange(k as int, id1.len() as int) =~= rest1);
        assert(id2.subrange(k as int, id2.len() as int) =~= rest2);
        lemma_split_after_digits(m1, p1 + dash + r1, m2, p2 + dash + r2);
        lemma_split_after_digits(p1, r1, p2, r2);
        lemma_decimal_injective(millis1 as nat, millis2 as nat);
        lemma_decimal_injective(pid1 as nat, pid2 as nat);
        lemma_decimal_injective(random1 as nat, random2 as nat);
    }
}

} // verus!
