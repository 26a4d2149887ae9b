//! Verified string helpers for the preview renderer: glyph repetition,
//! decimal item counters, zero padding, and splitting text runs into
//! physical lines.

use vstd::prelude::*;
use vstd::string::StringExecFns;

verus! {

/// `piece` concatenated `n` times.
pub open spec fn repeat_seq(piece: Seq<char>, n: nat) -> Seq<char>
    decreases n,
{
    if n == 0 {
        Seq::empty()
    } else {
        repeat_seq(piece, (n - 1) as nat) + piece
    }
}

pub fn repeat_str(piece: &str, n: usize) -> (r: String)
    ensures
        r@ == repeat_seq(piece@, n as nat),
{
    let mut out = String::new();
    let mut i: usize = 0;
    while i < n
        invariant
            i <= n,
            out@ == repeat_seq(piece@, i as nat),
        decreases n - i,
    {
        out.append(piece);
        i = i + 1;
    }
    out
}

/// The character for a single decimal digit.
pub open spec fn spec_digit_char(d: nat) -> char {
    if d == 0 {
        '0'
    } else if d == 1 {
        '1'
    } else if d == 2 {
        '2'
    } else if d == 3 {
        '3'
    } else if d == 4 {
        '4'
    } else if d == 5 {
        '5'
    } else if d == 6 {
        '6'
    } else if d == 7 {
        '7'
    } else if d == 8 {
        '8'
    } else {
        '9'
    }
}

/// The usual decimal rendering of `n`, most significant digit first,
/// with no leading zeros (except for `n == 0` itself).
pub open spec fn spec_decimal(n: nat) -> Seq<char>
    decreases n,
{
    if n < 10 {
        seq![spec_digit_char(n)]
    } else {
        spec_decimal(n / 10) + seq![spec_digit_char(n % 10)]
    }
}

fn digit_str(d: u64) -> (s: &'static str)
    requires
        d < 10,
    ensures
        s@ == seq![spec_digit_char(d as nat)],
{
    if d == 0 {
        proof {
            reveal_strlit("0");
            assert("0"@ =~= seq![spec_digit_char(0)]);
        }
        "0"
    } else if d == 1 {
        proof {
            reveal_strlit("1");
            assert("1"@ =~= seq![spec_digit_char(1)]);
        }
        "1"
    } else if d == 2 {
        proof {
            reveal_strlit("2");
            assert("2"@ =~= seq![spec_digit_char(2)]);
        }
        "2"
    } else if d == 3 {
        proof {
            reveal_strlit("3");
            assert("3"@ =~= seq![spec_digit_char(3)]);
        }
        "3"
    } else if d == 4 {
        proof {
            reveal_strlit("4");
            assert("4"@ =~= seq![spec_digit_char(4)]);
        }
        "4"
    } else if d == 5 {
        proof {
            reveal_strlit("5");
            assert("5"@ =~= seq![spec_digit_char(5)]);
        }
        "5"
    } else if d == 6 {
        proof {
            reveal_strlit("6");
            assert("6"@ =~= seq![spec_digit_char(6)]);
        }
        "6"
    } else if d == 7 {
        proof {
            reveal_strlit("7");
            assert("7"@ =~= seq![spec_digit_char(7)]);
        }
        "7"
    } else if d == 8 {
        proof {
            reveal_strlit("8");
            assert("8"@ =~= seq![spec_digit_char(8)]);
        }
        "8"
    } else {
        proof {
            reveal_strlit("9");
            assert("9"@ =~= seq![spec_digit_char(9)]);
        }
        "9"
    }
}

/// Renders `n` in decimal.
pub fn u64_to_decimal(n: u64) -> (r: String)
    ensures
        r@ == spec_decimal(n as nat),
{
    let d0 = digit_str(n % 10);
    let mut out = <String as StringExecFns>::from_str(d0);
    let mut m: u64 = n / 10;
    proof {
        if n >= 10 {
            assert(spec_decimal(n as nat) == spec_decimal((n / 10) as nat) + seq![
                spec_digit_char((n % 10) as nat),
            ]);
        }
    }
    while m > 0
        invariant
            m > 0 ==> spec_decimal(n as nat) == spec_decimal(m as nat) + out@,
            m == 0 ==> spec_decimal(n as nat) == out@,
        decreases m,
    {
        let d = digit_str(m % 10);
        let ghost prev = out@;
        let ghost mprev = m as nat;
        out = <String as StringExecFns>::from_str(d).concat(out.as_str());
        m = m / 10;
        proof {
            if mprev >= 10 {
                assert(spec_decimal(mprev) == spec_decimal(mprev / 10) + seq![
                    spec_digit_char(mprev % 10),
                ]);
                assert(spec_decimal(mprev / 10) + (seq![spec_digit_char(mprev % 10)] + prev)
                    =~= (spec_decimal(mprev / 10) + seq![spec_digit_char(mprev % 10)]) + prev);
            } else {
                assert(spec_decimal(mprev) == seq![spec_digit_char(mprev)]);
            }
        }
    }
    out
}

/// `s` left-padded with zeros up to width `w` (unchanged if already wide enough).
pub open spec fn spec_zero_pad(s: Seq<char>, w: nat) -> Seq<char> {
    if s.len() >= w {
        s
    } else {
        repeat_seq("0"@, (w - s.len()) as nat) + s
    }
}

/// Renders `n` in decimal, zero-padded on the left to `width` characters.
pub fn zero_padded_decimal(n: u64, width: usize) -> (r: String)
    ensures
        r@ == spec_zero_pad(spec_decimal(n as nat), width as nat),
{
    let digits = u64_to_decimal(n);
    let len = digits.as_str().unicode_len();
    if len >= width {
        digits
    } else {
        repeat_str("0", width - len).concat(digits.as_str())
    }
}

/// Index of the first line feed in `s`, or `s.len()` if there is none.
pub open spec fn first_nl(s: Seq<char>) -> nat
    decreases s.len(),
{
    if s.len() == 0 {
        0
    } else if s.first() == '\n' {
        0
    } else {
        1 + first_nl(s.drop_first())
    }
}

pub proof fn lemma_first_nl(s: Seq<char>)
    ensures
        first_nl(s) <= s.len(),
        forall|j: int| 0 <= j < first_nl(s) ==> s[j] != '\n',
        first_nl(s) < s.len() ==> s[first_nl(s) as int] == '\n',
    decreases s.len(),
{
    if s.len() > 0 && s.first() != '\n' {
        lemma_first_nl(s.drop_first());
        assert forall|j: int| 0 <= j < first_nl(s) implies s[j] != '\n' by {
            if j > 0 {
                assert(s.drop_first()[j - 1] != '\n');
            }
        }
    }
}

pub proof fn lemma_first_nl_at(s: Seq<char>, k: int)
    requires
        0 <= k <= s.len(),
        forall|j: int| 0 <= j < k ==> s[j] != '\n',
        k < s.len() ==> s[k] == '\n',
    ensures
        first_nl(s) == k,
    decreases s.len(),
{
    if s.len() > 0 && s.first() != '\n' {
        assert forall|j: int| 0 <= j < k - 1 implies s.drop_first()[j] != '\n' by {
            assert(s[j + 1] != '\n');
        }
        lemma_first_nl_at(s.drop_first(), k - 1);
    }
}

/// A line segment with a trailing carriage return removed, as happens
/// to segments that end at a CRLF line ending.
pub open spec fn strip_cr(s: Seq<char>) -> Seq<char> {
    if s.len() > 0 && s.last() == '\r' {
        s.drop_last()
    } else {
        s
    }
}

/// The physical lines of `s`: segments split at line feeds, each with a
/// trailing carriage return removed; a final trailing line feed yields
/// no extra empty segment. This matches how a text run is broken into
/// lines for emission.
pub open spec fn spec_split_lines(s: Seq<char>) -> Seq<Seq<char>>
    decreases s.len(),
{
    if s.len() == 0 {
        Seq::empty()
    } else {
        let i = first_nl(s);
        if i >= s.len() {
            seq![s]
        } else {
            seq![strip_cr(s.subrange(0, i as int))] + spec_split_lines(
                s.subrange(i as int + 1, s.len() as int),
            )
        }
    }
}

/// The views of a sequence of owned strings.
pub open spec fn strs_view(v: Seq<String>) -> Seq<Seq<char>> {
    v.map_values(|x: String| x@)
}

pub fn split_lines(s: &str) -> (r: Vec<String>)
    ensures
        strs_view(r@) == spec_split_lines(s@),
{
    let n = s.unicode_len();
    let mut out: Vec<String> = Vec::new();
    let mut start: usize = 0;
    let mut i: usize = 0;
    proof {
        assert(s@.subrange(0, n as int) =~= s@);
        assert(strs_view(out@) =~= Seq::<Seq<char>>::empty());
        assert(strs_view(out@) + spec_split_lines(s@) =~= spec_split_lines(s@));
    }
    while i < n
        invariant
            start <= i <= n,
            n == s@.len(),
            forall|j: int| start <= j < i ==> s@[j] != '\n',
            spec_split_lines(s@) == strs_view(out@) + spec_split_lines(
                s@.subrange(start as int, n as int),
            ),
        decreases n - i,
    {
        if s.get_char(i) == '\n' {
            let end = if i > start && s.get_char(i - 1) == '\r' {
                i - 1
            } else {
                i
            };
            let seg = s.substring_char(start, end).to_owned();
            proof {
                let tail = s@.subrange(start as int, n as int);
                lemma_first_nl_at(tail, i - start);
                assert(strip_cr(tail.subrange(0, i - start)) =~= s@.subrange(
                    start as int,
                    end as int,
                ));
                assert(tail.subrange(i - start + 1, tail.len() as int) =~= s@.subrange(
                    i as int + 1,
                    n as int,
                ));
                assert(strs_view(out@.push(seg)) =~= strs_view(out@) + seq![seg@]);
                assert((strs_view(out@) + seq![seg@]) + spec_split_lines(
                    s@.subrange(i as int + 1, n as int),
                ) =~= strs_view(out@) + (seq![seg@] + spec_split_lines(
                    s@.subrange(i as int + 1, n as int),
                )));
            }
            out.push(seg);
            start = i + 1;
        }
        i = i + 1;
    }
    if start < n {
        let seg = s.substring_char(start, n).to_owned();
        proof {
            let tail = s@.subrange(start as int, n as int);
            lemma_first_nl_at(tail, n - start);
            assert(tail =~= seg@);
            assert(strs_view(out@.push(seg)) =~= strs_view(out@) + seq![seg@]);
        }
        out.push(seg);
    } else {
        proof {
            assert(s@.subrange(start as int, n as int) =~= Seq::<char>::empty());
            assert(strs_view(out@) + spec_split_lines(Seq::<char>::empty()) =~= strs_view(out@));
        }
    }
    out
}

/// A stack pop that tolerates an empty stack.
pub open spec fn drop_last_safe<A>(s: Seq<A>) -> Seq<A> {
    if s.len() > 0 {
        s.drop_last()
    } else {
        s
    }
}

/// Relies on std's `String::push`: appends exactly one character.
#[verifier::external_body]
pub fn push_char(s: &mut String, c: char)
    ensures
        final(s)@ == old(s)@.push(c),
{
    s.push(c);
}

/// Relies on std's `String::pop`: removes and returns the last
/// character, or returns nothing if the string is empty.
#[verifier::external_body]
pub fn pop_char(s: &mut String) -> (r: Option<char>)
    ensures
        old(s)@.len() == 0 ==> r is None && final(s)@ == old(s)@,
        old(s)@.len() > 0 ==> r == Some(old(s)@.last()) && final(s)@ == old(s)@.drop_last(),
{
    s.pop()
}

} // verus!
