//! Text as sequences of characters: searching and decimal numerals.

use vstd::prelude::*;

verus! {

/// `needle` stands in `hay` at position `i`.
pub open spec fn occurs_at(hay: Seq<char>, needle: Seq<char>, i: int) -> bool {
    &&& 0 <= i
    &&& i + needle.len() <= hay.len()
    &&& hay.subrange(i, i + needle.len()) == needle
}

/// `needle` stands somewhere in `hay`.
pub open spec fn occurs_in(hay: Seq<char>, needle: Seq<char>) -> bool {
    exists|i: int| occurs_at(hay, needle, i)
}

/// `i` is the first position at which `needle` stands in `hay`.
pub open spec fn first_at(hay: Seq<char>, needle: Seq<char>, i: int) -> bool {
    &&& occurs_at(hay, needle, i)
    &&& forall|j: int| 0 <= j < i ==> !occurs_at(hay, needle, j)
}

/// `needle` holds none of the characters of `sep`.
pub open spec fn apart_from(needle: Seq<char>, sep: Seq<char>) -> bool {
    forall|i: int, j: int| 0 <= i < needle.len() && 0 <= j < sep.len() ==> needle[i] != sep[j]
}

/// A text that shares no character with a separator stands in two parts
/// joined by the separator exactly where it stands in one of the parts: it
/// cannot lie across the separator.
pub proof fn lemma_occurs_across_separator(
    a: Seq<char>,
    sep: Seq<char>,
    b: Seq<char>,
    needle: Seq<char>,
)
    requires
        sep.len() > 0,
        apart_from(needle, sep),
    ensures
        occurs_in(a + sep + b, needle) <==> occurs_in(a, needle) || occurs_in(b, needle),
{
    let whole = a + sep + b;
    let n = needle.len() as int;
    let la = a.len() as int;
    let ls = sep.len() as int;
    if n == 0 {
        assert(a.subrange(0, 0) =~= needle);
        assert(occurs_at(a, needle, 0));
        assert(whole.subrange(0, 0) =~= needle);
        assert(occurs_at(whole, needle, 0));
    } else if occurs_in(whole, needle) {
        let i = choose|i: int| occurs_at(whole, needle, i);
        if i + n <= la {
            assert(a.subrange(i, i + n) =~= whole.subrange(i, i + n));
            assert(occurs_at(a, needle, i));
        } else if i >= la + ls {
            assert(b.subrange(i - la - ls, i - la - ls + n) =~= whole.subrange(i, i + n));
            assert(occurs_at(b, needle, i - la - ls));
        } else {
            let p = if i >= la {
                i
            } else {
                la
            };
            assert(whole.subrange(i, i + n)[p - i] == whole[p]);
            assert(whole[p] == sep[p - la]);
            assert(needle[p - i] == sep[p - la]);
            assert(false);
        }
    }
    if occurs_in(a, needle) {
        let i = choose|i: int| occurs_at(a, needle, i);
        assert(a.subrange(i, i + n) =~= whole.subrange(i, i + n));
        assert(occurs_at(whole, needle, i));
    }
    if occurs_in(b, needle) {
        let j = choose|j: int| occurs_at(b, needle, j);
        assert(b.subrange(j, j + n) =~= whole.subrange(la + ls + j, la + ls + j + n));
        assert(occurs_at(whole, needle, la + ls + j));
    }
}

/// The characters of `s`, one by one.
pub fn chars_of(s: &str) -> (chars: Vec<char>)
    ensures
        chars@ == s@,
{
    let n = s.unicode_len();
    let mut chars: Vec<char> = Vec::new();
    let mut i: usize = 0;
    while i < n
        invariant
            n == s@.len(),
            i <= n,
            chars@ == s@.subrange(0, i as int),
        decreases n - i,
    {
        chars.push(s.get_char(i));
        i += 1;
    }
    chars
}

/// Whether `needle` stands in `hay` at position `i`.
pub fn matches_at(hay: &Vec<char>, needle: &Vec<char>, i: usize) -> (found: bool)
    ensures
        found == occurs_at(hay@, needle@, i as int),
{
    if needle.len() > hay.len() || i > hay.len() - needle.len() {
        return false;
    }
    let mut k: usize = 0;
    while k < needle.len()
        invariant
            k <= needle.len(),
            i + needle.len() <= hay.len(),
            forall|j: int| 0 <= j < k ==> hay@[i + j] == needle@[j],
        decreases needle.len() - k,
    {
        if hay[i + k] != needle[k] {
            assert(hay@.subrange(i as int, i + needle@.len())[k as int] == hay@[i + k]);
            return false;
        }
        k += 1;
    }
    assert(hay@.subrange(i as int, i + needle@.len()) =~= needle@);
    true
}

/// The first position at which `needle` stands in `hay`, if there is one.
pub fn find_first(hay: &Vec<char>, needle: &Vec<char>) -> (found: Option<usize>)
    ensures
        match found {
            Some(i) => first_at(hay@, needle@, i as int),
            None => !occurs_in(hay@, needle@),
        },
{
    if needle.len() > hay.len() {
        return None;
    }
    let last = hay.len() - needle.len();
    let mut i: usize = 0;
    loop
        invariant
            last == hay.len() - needle.len(),
            i <= last,
            forall|j: int| 0 <= j < i ==> !occurs_at(hay@, needle@, j),
        decreases last - i,
    {
        if matches_at(hay, needle, i) {
            return Some(i);
        }
        if i == last {
            return None;
        }
        i += 1;
    }
}

/// The character that stands for the digit `d`.
pub open spec fn digit_char(d: int) -> char {
    if d == 0 {
        '0'
    } else if d == 1 {
        '1'
    } else if d == 2 {
        '2'
    } else if d == 3 {
        '3'
    } else if d == 4 {
        '4'
    } else if d == 5 {
        '5'
    } else if d == 6 {
        '6'
    } else if d == 7 {
        '7'
    } else if d == 8 {
        '8'
    } else {
        '9'
    }
}

/// The decimal numeral of `n`, without leading zeros.
pub open spec fn decimal(n: nat) -> Seq<char>
    decreases n,
{
    if n < 10 {
        seq![digit_char(n as int)]
    } else {
        decimal(n / 10) + seq![digit_char((n % 10) as int)]
    }
}

/// The decimal numeral of `n`, with a zero in front where it has one digit.
pub open spec fn two_digits(n: nat) -> Seq<char> {
    if n < 10 {
        seq!['0'] + decimal(n)
    } else {
        decimal(n)
    }
}

/// The decimal numeral of `i`, with a minus sign where it is negative.
pub open spec fn signed_decimal(i: int) -> Seq<char> {
    if i < 0 {
        seq!['-'] + decimal((-i) as nat)
    } else {
        decimal(i as nat)
    }
}

/// The numeral of one digit.
fn digit_str(d: u64) -> (s: &'static str)
    requires
        d < 10,
    ensures
        s@ == seq![digit_char(d as int)],
{
    proof {
        reveal_strlit("0");
        reveal_strlit("1");
        reveal_strlit("2");
        reveal_strlit("3");
        reveal_strlit("4");
        reveal_strlit("5");
        reveal_strlit("6");
        reveal_strlit("7");
        reveal_strlit("8");
        reveal_strlit("9");
    }
    let s = if d == 0 {
        "0"
    } else if d == 1 {
        "1"
    } else if d == 2 {
        "2"
    } else if d == 3 {
        "3"
    } else if d == 4 {
        "4"
    } else if d == 5 {
        "5"
    } else if d == 6 {
        "6"
    } else if d == 7 {
        "7"
    } else if d == 8 {
        "8"
    } else {
        "9"
    };
    assert(s@ =~= seq![digit_char(d as int)]);
    s
}

/// Writes the decimal numeral of `n` at the end of `out`.
pub fn append_decimal(out: &mut String, n: u64)
    ensures
        final(out)@ == old(out)@ + decimal(n as nat),
    decreases n,
{
    if n >= 10 {
        append_decimal(out, n / 10);
    }
    out.append(digit_str(n % 10));
    assert(final(out)@ == old(out)@ + decimal(n as nat)) by {
        if n >= 10 {
            assert(old(out)@ + decimal((n / 10) as nat) + seq![digit_char((n % 10) as int)]
                == old(out)@ + (decimal((n / 10) as nat) + seq![digit_char((n % 10) as int)]));
        }
    }
}

/// Writes the decimal numeral of `n` at the end of `out`, with a zero in
/// front where it has one digit.
pub fn append_two_digits(out: &mut String, n: u64)
    ensures
        final(out)@ == old(out)@ + two_digits(n as nat),
{
    if n < 10 {
        proof {
            reveal_strlit("0");
        }
        out.append("0");
        assert("0"@ =~= seq!['0']);
        append_decimal(out, n);
        assert(old(out)@ + seq!['0'] + decimal(n as nat) == old(out)@ + (seq!['0'] + decimal(
            n as nat,
        )));
    } else {
        append_decimal(out, n);
    }
}

/// Writes the decimal numeral of `i` at the end of `out`, with a minus sign
/// where it is negative.
pub fn append_signed(out: &mut String, i: i64)
    ensures
        final(out)@ == old(out)@ + signed_decimal(i as int),
{
    if i < 0 {
        proof {
            reveal_strlit("-");
        }
        out.append("-");
        assert("-"@ =~= seq!['-']);
        let magnitude: u64 = if i == i64::MIN {
            9_223_372_036_854_775_808u64
        } else {
            (-i) as u64
        };
        append_decimal(out, magnitude);
        assert(old(out)@ + seq!['-'] + decimal((-i) as nat) == old(out)@ + (seq!['-'] + decimal(
            (-i) as nat,
        )));
    } else {
        append_decimal(out, i as u64);
    }
}

} // verus!
