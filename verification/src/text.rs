//! Text helpers over sequences of characters: substring search, splitting at the
//! first line break, and decimal numerals.

use vstd::prelude::*;
use vstd::string::*;

verus! {

/// `needle` stands in `hay` at position `at`.
pub open spec fn occurs_at(hay: Seq<char>, needle: Seq<char>, at: int) -> bool {
    &&& 0 <= at
    &&& at + needle.len() <= hay.len()
    &&& hay.subrange(at, at + needle.len()) == needle
}

/// `needle` is a contiguous, case-sensitive part of `hay`.
pub open spec fn contains_text(hay: Seq<char>, needle: Seq<char>) -> bool {
    exists|at: int| occurs_at(hay, needle, at)
}

/// The characters of `s`, in order.
pub fn chars_of(s: &str) -> (out: Vec<char>)
    ensures
        out@ == s@,
{
    let n: usize = s.unicode_len();
    let mut out: Vec<char> = Vec::new();
    let mut i: usize = 0;
    while i < n
        invariant
            n == s@.len(),
            i <= n,
            out@ == s@.subrange(0, i as int),
        decreases n - i,
    {
        let c: char = s.get_char(i);
        out.push(c);
        i = i + 1;
        assert(out@ =~= s@.subrange(0, i as int));
    }
    assert(s@.subrange(0, n as int) =~= s@);
    out
}

/// Whether `needle` stands in `hay` at `at`.
pub fn matches_at(hay: &Vec<char>, needle: &Vec<char>, at: usize) -> (r: bool)
    requires
        at + needle.len() <= hay.len(),
    ensures
        r == occurs_at(hay@, needle@, at as int),
{
    let m: usize = needle.len();
    let mut k: usize = 0;
    while k < m
        invariant
            m == needle.len(),
            at + m <= hay.len(),
            k <= m,
            forall|j: int| 0 <= j < k ==> hay@[at + j] == needle@[j],
        decreases m - k,
    {
        if hay[at + k] != needle[k] {
            assert(hay@.subrange(at as int, at + m)[k as int] == hay@[at + k]);
            return false;
        }
        k = k + 1;
    }
    assert(hay@.subrange(at as int, at + m) =~= needle@);
    true
}

/// The first position at which `needle` stands in `hay`, if there is one.
pub fn find_in(hay: &Vec<char>, needle: &Vec<char>) -> (r: Option<usize>)
    ensures
        match r {
            Some(at) => occurs_at(hay@, needle@, at as int) && forall|j: int|
                0 <= j < at ==> !occurs_at(hay@, needle@, j),
            None => !contains_text(hay@, needle@),
        },
{
    if needle.len() > hay.len() {
        return None;
    }
    let last: usize = hay.len() - needle.len();
    let mut at: usize = 0;
    while at < last
        invariant
            last == hay.len() - needle.len(),
            at <= last,
            forall|j: int| 0 <= j < at ==> !occurs_at(hay@, needle@, j),
        decreases last - at,
    {
        if matches_at(hay, needle, at) {
            return Some(at);
        }
        at = at + 1;
    }
    if matches_at(hay, needle, last) {
        Some(last)
    } else {
        None
    }
}

/// Whether `needle` is a contiguous part of `hay`, compared character by
/// character with no folding of case.
pub fn contains(hay: &str, needle: &str) -> (r: bool)
    ensures
        r == contains_text(hay@, needle@),
{
    let h: Vec<char> = chars_of(hay);
    let n: Vec<char> = chars_of(needle);
    match find_in(&h, &n) {
        Some(at) => {
            assert(occurs_at(hay@, needle@, at as int));
            true
        },
        None => false,
    }
}

/// The line break.
pub open spec fn line_break() -> char {
    '\n'
}

/// Where the first line break of `text` stands; the length of `text` where
/// it holds none.
pub open spec fn first_break(text: Seq<char>) -> int
    decreases text.len(),
{
    if text.len() == 0 {
        0
    } else if text[0] == line_break() {
        0
    } else {
        1 + first_break(text.drop_first())
    }
}

/// What stands before the first line break.
pub open spec fn first_line(text: Seq<char>) -> Seq<char> {
    text.subrange(0, first_break(text))
}

/// What follows the first line break.
pub open spec fn after_first_line(text: Seq<char>) -> Seq<char> {
    text.subrange(first_break(text) + 1, text.len() as int)
}

/// The first line break is the position before which no line break stands
/// and at which one does, or the text ends.
pub proof fn lemma_first_break(text: Seq<char>, at: int)
    requires
        0 <= at <= text.len(),
        forall|j: int| 0 <= j < at ==> text[j] != line_break(),
        at == text.len() || text[at] == line_break(),
    ensures
        first_break(text) == at,
    decreases at,
{
    if at > 0 {
        let tail = text.drop_first();
        assert forall|j: int| 0 <= j < at - 1 implies tail[j] != line_break() by {
            assert(tail[j] == text[j + 1]);
        }
        lemma_first_break(tail, at - 1);
    }
}

/// A text holds no line break exactly where its first line break is its end.
pub proof fn lemma_no_break(text: Seq<char>)
    ensures
        !text.contains(line_break()) <==> first_break(text) == text.len(),
    decreases text.len(),
{
    if text.len() > 0 {
        let tail = text.drop_first();
        lemma_no_break(tail);
        if text[0] == line_break() {
            assert(text.contains(line_break()));
        } else if tail.contains(line_break()) {
            let j = choose|j: int| 0 <= j < tail.len() && tail[j] == line_break();
            assert(text[j + 1] == line_break());
        } else if text.contains(line_break()) {
            let j = choose|j: int| 0 <= j < text.len() && text[j] == line_break();
            assert(tail[j - 1] == line_break());
        }
    }
}

/// Splits `text` at its first line break: the line before it and all that
/// follows it. `None` where `text` holds no line break.
pub fn split_first_line(text: &str) -> (r: Option<(String, String)>)
    ensures
        match r {
            Some((head, rest)) => {
                &&& first_break(text@) < text@.len()
                &&& head@ == first_line(text@)
                &&& rest@ == after_first_line(text@)
                &&& text@ == head@ + seq![line_break()] + rest@
                &&& !head@.contains(line_break())
            },
            None => first_break(text@) == text@.len() && !text@.contains(line_break()),
        },
{
    let n: usize = text.unicode_len();
    let mut i: usize = 0;
    while i < n
        invariant
            n == text@.len(),
            i <= n,
            forall|j: int| 0 <= j < i ==> text@[j] != line_break(),
        decreases n - i,
    {
        if text.get_char(i) == '\n' {
            let head: String = String::from_str(text.substring_char(0, i));
            let rest: String = String::from_str(text.substring_char(i + 1, n));
            proof {
                lemma_first_break(text@, i as int);
                assert(text@ =~= head@ + seq![line_break()] + rest@);
            }
            return Some((head, rest));
        }
        i = i + 1;
    }
    proof {
        lemma_first_break(text@, n as int);
    }
    None
}

/// The character of one decimal digit.
pub open spec fn digit_char(d: int) -> char {
    if d == 0 {
        '0'
    } else if d == 1 {
        '1'
    } else if d == 2 {
        '2'
    } else if d == 3 {
        '3'
    } else if d == 4 {
        '4'
    } else if d == 5 {
        '5'
    } else if d == 6 {
        '6'
    } else if d == 7 {
        '7'
    } else if d == 8 {
        '8'
    } else {
        '9'
    }
}

/// The decimal numeral of `n`, without leading zeros.
pub open spec fn decimal(n: nat) -> Seq<char>
    decreases n,
{
    if n < 10 {
        seq![digit_char(n as int)]
    } else {
        decimal(n / 10).push(digit_char((n % 10) as int))
    }
}

/// A numeral has at least one digit, and more than one from ten on.
pub proof fn lemma_decimal_len(n: nat)
    ensures
        decimal(n).len() >= 1,
        n >= 10 ==> decimal(n).len() >= 2,
    decreases n,
{
    if n >= 10 {
        lemma_decimal_len(n / 10);
    }
}

/// Different numbers have different numerals.
pub proof fn lemma_decimal_injective(a: nat, b: nat)
    requires
        decimal(a) == decimal(b),
    ensures
        a == b,
    decreases a,
{
    lemma_decimal_len(a);
    lemma_decimal_len(b);
    if a < 10 && b < 10 {
        assert(decimal(a)[0] == digit_char(a as int));
        assert(decimal(b)[0] == digit_char(b as int));
    } else if a < 10 || b < 10 {
        assert(decimal(a).len() == 1 || decimal(b).len() == 1);
    } else {
        let x = decimal(a / 10);
        let y = decimal(b / 10);
        let da = digit_char((a % 10) as int);
        let db = digit_char((b % 10) as int);
        assert(x.push(da).drop_last() =~= x);
        assert(y.push(db).drop_last() =~= y);
        assert(x.push(da).last() == da);
        assert(y.push(db).last() == db);
        assert(decimal(a) == x.push(da));
        assert(decimal(b) == y.push(db));
        assert(x == y);
        assert(da == db);
        lemma_decimal_injective(a / 10, b / 10);
        assert(a % 10 == b % 10);
    }
}

/// The text of one decimal digit.
fn digit_text(d: u64) -> (r: &'static str)
    requires
        d < 10,
    ensures
        r@ == seq![digit_char(d as int)],
{
    proof {
        reveal_strlit("0");
        reveal_strlit("1");
        reveal_strlit("2");
        reveal_strlit("3");
        reveal_strlit("4");
        reveal_strlit("5");
        reveal_strlit("6");
        reveal_strlit("7");
        reveal_strlit("8");
        reveal_strlit("9");
    }
    let r: &'static str = if d == 0 {
        "0"
    } else if d == 1 {
        "1"
    } else if d == 2 {
        "2"
    } else if d == 3 {
        "3"
    } else if d == 4 {
        "4"
    } else if d == 5 {
        "5"
    } else if d == 6 {
        "6"
    } else if d == 7 {
        "7"
    } else if d == 8 {
        "8"
    } else {
        "9"
    };
    assert(r@ =~= seq![digit_char(d as int)]);
    r
}

/// The decimal numeral of `n` as a string.
pub fn decimal_string(n: u64) -> (s: String)
    ensures
        s@ == decimal(n as nat),
    decreases n,
{
    if n < 10 {
        String::from_str(digit_text(n))
    } else {
        let front: String = decimal_string(n / 10);
        let s: String = front.concat(digit_text(n % 10));
        assert(s@ =~= decimal(n as nat));
        s
    }
}

} // verus!
