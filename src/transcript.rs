//! Transcript segments and their rendering as text.
use vstd::prelude::*;

verus! {

/// One span of recognised text, with its bounds in centiseconds.
pub struct TranscriptSegment {
    pub start: i64,
    pub end: i64,
    pub text: String,
}

/// Unicode's White_Space property, the set that `char::is_whitespace` tests.
pub open spec fn is_white_space(c: char) -> bool {
    let x = c as u32;
    (0x9 <= x <= 0xd) || x == 0x20 || x == 0x85 || x == 0xa0 || x == 0x1680 || (0x2000 <= x
        <= 0x200a) || x == 0x2028 || x == 0x2029 || x == 0x202f || x == 0x205f || x == 0x3000
}

/// `s` without its leading white space.
pub open spec fn trim_front(s: Seq<char>) -> Seq<char>
    decreases s.len(),
{
    if s.len() > 0 && is_white_space(s[0]) {
        trim_front(s.drop_first())
    } else {
        s
    }
}

/// `s` without its trailing white space.
pub open spec fn trim_back(s: Seq<char>) -> Seq<char>
    decreases s.len(),
{
    if s.len() > 0 && is_white_space(s.last()) {
        trim_back(s.drop_last())
    } else {
        s
    }
}

/// `s` without white space at either end.
pub open spec fn trimmed(s: Seq<char>) -> Seq<char> {
    trim_back(trim_front(s))
}

/// Whether `c` is white space.
pub fn is_space(c: char) -> (r: bool)
    ensures
        r == is_white_space(c),
{
    let x = c as u32;
    (0x9 <= x && x <= 0xd) || x == 0x20 || x == 0x85 || x == 0xa0 || x == 0x1680 || (0x2000 <= x
        && x <= 0x200a) || x == 0x2028 || x == 0x2029 || x == 0x202f || x == 0x205f || x == 0x3000
}

/// The text with white space removed from both ends.
pub fn trim_text(text: &str) -> (r: String)
    ensures
        r@ == trimmed(text@),
{
    let n = text.unicode_len();
    let ghost s = text@;
    let mut i: usize = 0;
    assert(s.subrange(0, n as int) =~= s);
    while i < n && is_space(text.get_char(i))
        invariant
            n == s.len(),
            s == text@,
            i <= n,
            trim_front(s) == trim_front(s.subrange(i as int, n as int)),
        decreases n - i,
    {
        assert(s.subrange(i as int, n as int).drop_first() =~= s.subrange(i + 1, n as int));
        i = i + 1;
    }
    assert(trim_front(s) == s.subrange(i as int, n as int));
    let mut j: usize = n;
    while j > i && is_space(text.get_char(j - 1))
        invariant
            n == s.len(),
            s == text@,
            i <= j <= n,
            trimmed(s) == trim_back(s.subrange(i as int, j as int)),
        decreases j,
    {
        assert(s.subrange(i as int, j as int).drop_last() =~= s.subrange(i as int, j - 1));
        j = j - 1;
    }
    let kept = text.substring_char(i, j);
    String::from_str(kept)
}

/// The decimal digit `d`.
pub open spec fn digit_char(d: int) -> char {
    if d == 0 {
        '0'
    } else if d == 1 {
        '1'
    } else if d == 2 {
        '2'
    } else if d == 3 {
        '3'
    } else if d == 4 {
        '4'
    } else if d == 5 {
        '5'
    } else if d == 6 {
        '6'
    } else if d == 7 {
        '7'
    } else if d == 8 {
        '8'
    } else {
        '9'
    }
}

/// The decimal digits of `n`, without leading zeros.
pub open spec fn decimal(n: nat) -> Seq<char>
    decreases n,
{
    if n < 10 {
        seq![digit_char(n as int)]
    } else {
        decimal(n / 10) + seq![digit_char((n % 10) as int)]
    }
}

/// A time given in centiseconds, written in seconds: the whole seconds, then
/// the fraction without trailing zeros (none at all when it is zero).
pub open spec fn seconds_text(cs: int) -> Seq<char> {
    let a = if cs < 0 { -cs } else { cs };
    let sign = if cs < 0 { seq!['-'] } else { Seq::<char>::empty() };
    let f = a % 100;
    let frac = if f == 0 {
        Seq::<char>::empty()
    } else if f % 10 == 0 {
        seq!['.', digit_char(f / 10)]
    } else {
        seq!['.', digit_char(f / 10), digit_char(f % 10)]
    };
    sign + decimal((a / 100) as nat) + frac
}

/// The transcript line of a segment: `[start - end]: text` and a line break.
pub open spec fn line_text(start: int, end: int, text: Seq<char>) -> Seq<char> {
    seq!['['] + seconds_text(start) + seq![' ', '-', ' '] + seconds_text(end) + seq![']', ':', ' ']
        + trimmed(text) + seq!['\n']
}

fn digit_str(d: u64) -> (r: &'static str)
    requires
        d < 10,
    ensures
        r@ == seq![digit_char(d as int)],
{
    proof {
        reveal_strlit("0");
        reveal_strlit("1");
        reveal_strlit("2");
        reveal_strlit("3");
        reveal_strlit("4");
        reveal_strlit("5");
        reveal_strlit("6");
        reveal_strlit("7");
        reveal_strlit("8");
        reveal_strlit("9");
    }
    let r = if d == 0 {
        "0"
    } else if d == 1 {
        "1"
    } else if d == 2 {
        "2"
    } else if d == 3 {
        "3"
    } else if d == 4 {
        "4"
    } else if d == 5 {
        "5"
    } else if d == 6 {
        "6"
    } else if d == 7 {
        "7"
    } else if d == 8 {
        "8"
    } else {
        "9"
    };
    assert(r@ =~= seq![digit_char(d as int)]);
    r
}

fn push_decimal(out: &mut String, n: u64)
    ensures
        final(out)@ == old(out)@ + decimal(n as nat),
    decreases n,
{
    if n >= 10 {
        push_decimal(out, n / 10);
    }
    out.append(digit_str(n % 10));
    proof {
        if n >= 10 {
            assert(decimal(n as nat) == decimal((n / 10) as nat) + seq![digit_char((n % 10) as int)]);
        }
    }
    assert(final(out)@ =~= old(out)@ + decimal(n as nat));
}

fn push_seconds(out: &mut String, cs: i64)
    ensures
        final(out)@ == old(out)@ + seconds_text(cs as int),
{
    proof {
        reveal_strlit("-");
        reveal_strlit(".");
    }
    let a: u64 = if cs < 0 {
        out.append("-");
        ((-(cs + 1)) as u64) + 1
    } else {
        cs as u64
    };
    assert(a as int == if cs < 0 { -cs } else { cs as int });
    push_decimal(out, a / 100);
    let f = a % 100;
    if f != 0 {
        out.append(".");
        out.append(digit_str(f / 10));
        if f % 10 != 0 {
            out.append(digit_str(f % 10));
        }
    }
    assert(final(out)@ =~= old(out)@ + seconds_text(cs as int));
}

/// Renders a segment as its transcript line, `[start - end]: text` with the
/// text trimmed and the times in seconds, ended by a line break.
pub fn transcript_line(segment: &TranscriptSegment) -> (r: String)
    ensures
        r@ == line_text(segment.start as int, segment.end as int, segment.text@),
{
    proof {
        reveal_strlit("[");
        reveal_strlit(" - ");
        reveal_strlit("]: ");
        reveal_strlit("\n");
    }
    let mut out = String::new();
    out.append("[");
    push_seconds(&mut out, segment.start);
    out.append(" - ");
    push_seconds(&mut out, segment.end);
    out.append("]: ");
    let t = trim_text(segment.text.as_str());
    out.append(t.as_str());
    out.append("\n");
    assert(out@ =~= line_text(segment.start as int, segment.end as int, segment.text@));
    out
}

} // verus!
