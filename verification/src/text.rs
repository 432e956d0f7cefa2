//! String building, comparison and search, stated over sequences of characters.

use vstd::prelude::*;
use vstd::string::*;
use vstd::utf8::{encode_utf8_decode_utf8, encode_utf8};

verus! {

/// The character between the segments of a Redis key.
pub const REDIS_DELIMITER: char = ':';

/// Two key segments with the delimiter between them.
pub open spec fn joined(head: Seq<char>, tail: Seq<char>) -> Seq<char> {
    head + seq![REDIS_DELIMITER] + tail
}

/// Whether `pattern` stands in `s` at position `i`.
pub open spec fn occurs_at(s: Seq<char>, pattern: Seq<char>, i: int) -> bool {
    &&& 0 <= i
    &&& i + pattern.len() <= s.len()
    &&& s.subrange(i, i + pattern.len()) == pattern
}

/// Whether position `i` is the first at which `pattern` stands in `s`.
pub open spec fn first_occurrence(s: Seq<char>, pattern: Seq<char>, i: int) -> bool {
    &&& occurs_at(s, pattern, i)
    &&& forall|j: int| 0 <= j < i ==> !occurs_at(s, pattern, j)
}

/// The decimal digit with value `d`.
pub open spec fn digit(d: int) -> char {
    ('0' as int + d) as char
}

/// The decimal digits of `n`, most significant first.
pub open spec fn decimal(n: nat) -> Seq<char>
    decreases n,
{
    if n < 10 {
        seq![digit(n as int)]
    } else {
        decimal(n / 10).push(digit((n % 10) as int))
    }
}

/// Whether two strings hold the same characters.
pub fn str_eq(a: &str, b: &str) -> (r: bool)
    ensures
        r == (a@ == b@),
{
    let x = a.as_bytes();
    let y = b.as_bytes();
    proof {
        encode_utf8_decode_utf8(a@);
        encode_utf8_decode_utf8(b@);
    }
    if x.len() != y.len() {
        return false;
    }
    let n: usize = x.len();
    for i in 0..n
        invariant
            n == x@.len(),
            n == y@.len(),
            x@ == encode_utf8(a@),
            y@ == encode_utf8(b@),
            forall|j: int| 0 <= j < i ==> x@[j] == y@[j],
    {
        if x[i] != y[i] {
            return false;
        }
    }
    assert(x@ =~= y@);
    true
}

/// The characters of `a` followed by those of `b`.
pub fn concat(a: &str, b: &str) -> (r: String)
    ensures
        r@ == a@ + b@,
{
    let mut r = a.to_owned();
    r.append(b);
    r
}

/// The characters of `a`, `b` and `c` in turn.
pub fn concat3(a: &str, b: &str, c: &str) -> (r: String)
    ensures
        r@ == a@ + b@ + c@,
{
    let mut r = a.to_owned();
    r.append(b);
    r.append(c);
    r
}

/// The two segments as one key.
pub fn join(head: &str, tail: &str) -> (r: String)
    ensures
        r@ == joined(head@, tail@),
{
    proof {
        reveal_strlit(":");
    }
    let r = concat3(head, ":", tail);
    assert(":"@ =~= seq![REDIS_DELIMITER]);
    r
}

/// The position of the first `c` in `s`.
pub fn find_char(s: &str, c: char) -> (r: Option<usize>)
    ensures
        match r {
            Some(i) => {
                &&& i < s@.len()
                &&& s@[i as int] == c
                &&& forall|j: int| 0 <= j < i ==> s@[j] != c
            },
            None => !s@.contains(c),
        },
{
    let n: usize = s.unicode_len();
    let mut i: usize = 0;
    for x in it: s.chars()
        invariant
            n == s@.len(),
            it.seq() == s@,
            i == it.index(),
            forall|j: int| 0 <= j < i ==> s@[j] != c,
    {
        if x == c {
            return Some(i);
        }
        i = i + 1;
    }
    None
}

/// The first position at which `pattern` stands in `s`.
pub fn find_str(s: &str, pattern: &str) -> (r: Option<usize>)
    ensures
        match r {
            Some(i) => first_occurrence(s@, pattern@, i as int),
            None => forall|j: int| !occurs_at(s@, pattern@, j),
        },
{
    let n: usize = s.unicode_len();
    let m: usize = pattern.unicode_len();
    if m > n {
        return None;
    }
    let last: usize = n - m;
    let mut i: usize = 0;
    while i <= last
        invariant
            n == s@.len(),
            m == pattern@.len(),
            last == n - m,
            m <= n,
            i <= last + 1,
            forall|j: int| 0 <= j < i ==> !occurs_at(s@, pattern@, j),
        decreases last + 1 - i,
    {
        let window = s.substring_char(i, i + m);
        if str_eq(window, pattern) {
            return Some(i);
        }
        if i == last {
            assert forall|j: int| !occurs_at(s@, pattern@, j) by {
                if occurs_at(s@, pattern@, j) {
                    assert(j <= last);
                }
            }
            return None;
        }
        i = i + 1;
    }
    None
}

/// What follows `prefix` in `s`, if `s` starts with it.
pub fn strip_prefix(s: &str, prefix: &str) -> (r: Option<String>)
    ensures
        match r {
            Some(rest) => s@ == prefix@ + rest@,
            None => !occurs_at(s@, prefix@, 0),
        },
{
    let n: usize = s.unicode_len();
    let m: usize = prefix.unicode_len();
    if m > n {
        return None;
    }
    if str_eq(s.substring_char(0, m), prefix) {
        let rest = s.substring_char(m, n);
        assert(s@ =~= prefix@ + rest@);
        Some(rest.to_owned())
    } else {
        None
    }
}

fn digit_str(d: u64) -> (r: &'static str)
    requires
        d < 10,
    ensures
        r@ == seq![digit(d as int)],
{
    proof {
        reveal_strlit("0");
        reveal_strlit("1");
        reveal_strlit("2");
        reveal_strlit("3");
        reveal_strlit("4");
        reveal_strlit("5");
        reveal_strlit("6");
        reveal_strlit("7");
        reveal_strlit("8");
        reveal_strlit("9");
    }
    if d == 0 {
        "0"
    } else if d == 1 {
        "1"
    } else if d == 2 {
        "2"
    } else if d == 3 {
        "3"
    } else if d == 4 {
        "4"
    } else if d == 5 {
        "5"
    } else if d == 6 {
        "6"
    } else if d == 7 {
        "7"
    } else if d == 8 {
        "8"
    } else {
        "9"
    }
}

/// The decimal text of `n`.
pub fn u64_to_string(n: u64) -> (r: String)
    ensures
        r@ == decimal(n as nat),
    decreases n,
{
    if n < 10 {
        digit_str(n).to_owned()
    } else {
        let mut r = u64_to_string(n / 10);
        r.append(digit_str(n % 10));
        proof {
            let d = digit((n % 10) as int);
            assert(decimal(n as nat / 10).push(d) =~= decimal(n as nat / 10) + seq![d]);
        }
        r
    }
}

/// Joining to one head tells tails apart.
pub proof fn lemma_joined_injective(head: Seq<char>, a: Seq<char>, b: Seq<char>)
    ensures
        joined(head, a) == joined(head, b) <==> a == b,
{
    if joined(head, a) == joined(head, b) {
        assert(a =~= joined(head, a).skip(head.len() as int + 1));
        assert(b =~= joined(head, b).skip(head.len() as int + 1));
    }
}

/// The number that decimal digits stand for.
pub open spec fn digits_value(digits: Seq<char>) -> int
    decreases digits.len(),
{
    if digits.len() == 0 {
        0
    } else {
        digits_value(digits.drop_last()) * 10 + (digits.last() as int - '0' as int)
    }
}

/// The decimal text of a number is made of digits that stand for that number, without a leading
/// zero.
pub proof fn law_decimal_is_the_number(n: nat)
    ensures
        digits_value(decimal(n)) == n,
        decimal(n).len() > 0,
        decimal(n).len() > 1 ==> decimal(n)[0] != '0',
        n > 0 ==> decimal(n)[0] != '0',
        forall|i: int| 0 <= i < decimal(n).len() ==> '0' <= #[trigger] decimal(n)[i] <= '9',
    decreases n,
{
    if n < 10 {
        reveal_with_fuel(digits_value, 2);
    } else {
        law_decimal_is_the_number(n / 10);
        assert(decimal(n).drop_last() =~= decimal(n / 10));
    }
}

/// A pattern stands in a text at a position exactly if the text is what comes before, the pattern,
/// and what comes behind.
pub proof fn law_occurrence_splits_text(
    before: Seq<char>,
    pattern: Seq<char>,
    behind: Seq<char>,
    s: Seq<char>,
    i: int,
)
    ensures
        occurs_at(before + pattern + behind, pattern, before.len() as int),
        occurs_at(s, pattern, i) ==> s == s.take(i) + pattern + s.skip(i + pattern.len()),
        occurs_at(s, pattern, i) ==> 0 <= i <= s.len() - pattern.len(),
{
    let n = before.len() as int;
    assert((before + pattern + behind).subrange(n, n + pattern.len()) =~= pattern);
    if occurs_at(s, pattern, i) {
        assert(s =~= s.take(i) + s.subrange(i, i + pattern.len()) + s.skip(i + pattern.len()));
    }
}

/// A joined key is its two segments with one colon between them.
pub proof fn law_joined_by_a_colon(head: Seq<char>, tail: Seq<char>)
    ensures
        joined(head, tail) == head + seq![':'] + tail,
        joined(head, tail).len() == head.len() + 1 + tail.len(),
{
}

} // verus!
