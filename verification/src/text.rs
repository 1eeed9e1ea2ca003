//! Text helpers: whitespace, blank names, trimming and decimal rendering.

use vstd::prelude::*;
use vstd::string::StringExecFns;

verus! {

/// The code points that carry the Unicode `White_Space` property.
pub open spec fn is_whitespace(c: char) -> bool {
    let n = c as u32;
    ||| 0x09 <= n <= 0x0D
    ||| n == 0x20
    ||| n == 0x85
    ||| n == 0xA0
    ||| n == 0x1680
    ||| 0x2000 <= n <= 0x200A
    ||| n == 0x2028
    ||| n == 0x2029
    ||| n == 0x202F
    ||| n == 0x205F
    ||| n == 0x3000
}

/// Tells whether `c` is a whitespace character.
pub fn char_is_whitespace(c: char) -> (r: bool)
    ensures
        r == is_whitespace(c),
{
    let n: u32 = c as u32;
    (0x09 <= n && n <= 0x0D) || n == 0x20 || n == 0x85 || n == 0xA0 || n == 0x1680 || (0x2000 <= n
        && n <= 0x200A) || n == 0x2028 || n == 0x2029 || n == 0x202F || n == 0x205F || n == 0x3000
}

/// A text is blank when it holds nothing but whitespace; the empty text is blank.
pub open spec fn is_blank(s: Seq<char>) -> bool {
    forall|i: int| 0 <= i < s.len() ==> is_whitespace(#[trigger] s[i])
}

/// Tells whether `s` is empty or holds whitespace only.
pub fn text_is_blank(s: &str) -> (r: bool)
    ensures
        r == is_blank(s@),
{
    for c in it: s.chars()
        invariant
            it.seq() == s@,
            forall|j: int| 0 <= j < it.index() ==> is_whitespace(#[trigger] s@[j]),
    {
        if !char_is_whitespace(c) {
            return false;
        }
    }
    true
}

/// The number of whitespace characters with which `s` starts.
pub open spec fn leading_whitespace(s: Seq<char>) -> nat
    decreases s.len(),
{
    if s.len() > 0 && is_whitespace(s[0]) {
        1 + leading_whitespace(s.drop_first())
    } else {
        0
    }
}

/// The number of whitespace characters with which `s` ends.
pub open spec fn trailing_whitespace(s: Seq<char>) -> nat
    decreases s.len(),
{
    if s.len() > 0 && is_whitespace(s.last()) {
        1 + trailing_whitespace(s.drop_last())
    } else {
        0
    }
}

/// `s` without the whitespace at its two ends. A blank text trims to the
/// empty text; whitespace between other characters stays.
pub open spec fn trimmed(s: Seq<char>) -> Seq<char> {
    if is_blank(s) {
        Seq::empty()
    } else {
        s.subrange(leading_whitespace(s) as int, s.len() - trailing_whitespace(s))
    }
}

/// The leading whitespace of `s` ends at the first position that holds
/// another character.
pub proof fn lemma_leading_whitespace(s: Seq<char>, a: int)
    requires
        0 <= a <= s.len(),
        forall|j: int| 0 <= j < a ==> is_whitespace(#[trigger] s[j]),
        a < s.len() ==> !is_whitespace(s[a]),
    ensures
        leading_whitespace(s) == a,
    decreases a,
{
    if a > 0 {
        let rest = s.drop_first();
        assert forall|j: int| 0 <= j < a - 1 implies is_whitespace(#[trigger] rest[j]) by {
            assert(rest[j] == s[j + 1]);
        }
        lemma_leading_whitespace(rest, a - 1);
    }
}

/// The trailing whitespace of `s` starts behind the last position that holds
/// another character.
pub proof fn lemma_trailing_whitespace(s: Seq<char>, b: int)
    requires
        0 <= b <= s.len(),
        forall|j: int| b <= j < s.len() ==> is_whitespace(#[trigger] s[j]),
        0 < b ==> !is_whitespace(s[b - 1]),
    ensures
        trailing_whitespace(s) == s.len() - b,
    decreases s.len() - b,
{
    if b < s.len() {
        let rest = s.drop_last();
        assert forall|j: int| b <= j < rest.len() implies is_whitespace(#[trigger] rest[j]) by {
            assert(rest[j] == s[j]);
        }
        lemma_trailing_whitespace(rest, b);
    }
}

/// A text trims to the empty text exactly when it is blank, and what is left
/// of any other text starts and ends with a character that is no whitespace.
pub proof fn lemma_trimmed_is_empty_iff_blank(s: Seq<char>)
    ensures
        trimmed(s).len() == 0 <==> is_blank(s),
        !is_blank(s) ==> !is_whitespace(trimmed(s).first()) && !is_whitespace(trimmed(s).last()),
{
    if !is_blank(s) {
        lemma_first_other(s, s.len() as int);
        lemma_last_other(s, 0);
        let a = choose|a: int| is_first_other(s, a) && a < s.len();
        let b = choose|b: int| is_last_other(s, b) && 0 <= b;
        lemma_leading_whitespace(s, a);
        lemma_trailing_whitespace(s, b + 1);
        assert(a <= b);
    }
}

/// Position `a` of `s` holds the first character that is no whitespace.
spec fn is_first_other(s: Seq<char>, a: int) -> bool {
    &&& 0 <= a < s.len()
    &&& !is_whitespace(s[a])
    &&& forall|j: int| 0 <= j < a ==> is_whitespace(#[trigger] s[j])
}

/// Position `b` of `s` holds the last character that is no whitespace.
spec fn is_last_other(s: Seq<char>, b: int) -> bool {
    &&& 0 <= b < s.len()
    &&& !is_whitespace(s[b])
    &&& forall|j: int| b < j < s.len() ==> is_whitespace(#[trigger] s[j])
}

/// Among the first `n` characters of `s`, if one is no whitespace then one
/// such character comes first.
proof fn lemma_first_other(s: Seq<char>, n: int)
    requires
        0 <= n <= s.len(),
    ensures
        (forall|j: int| 0 <= j < n ==> is_whitespace(#[trigger] s[j])) || exists|a: int|
            #[trigger] is_first_other(s, a) && a < n,
    decreases n,
{
    if n > 0 {
        lemma_first_other(s, n - 1);
        if forall|j: int| 0 <= j < n - 1 ==> is_whitespace(#[trigger] s[j]) {
            if !is_whitespace(s[n - 1]) {
                assert(is_first_other(s, n - 1));
            }
        } else {
            let a = choose|a: int| #[trigger] is_first_other(s, a) && a < n - 1;
            assert(is_first_other(s, a) && a < n);
        }
    }
}

/// From position `n` of `s` on, if one character is no whitespace then one
/// such character comes last.
proof fn lemma_last_other(s: Seq<char>, n: int)
    requires
        0 <= n <= s.len(),
    ensures
        (forall|j: int| n <= j < s.len() ==> is_whitespace(#[trigger] s[j])) || exists|b: int|
            #[trigger] is_last_other(s, b) && n <= b,
    decreases s.len() - n,
{
    if n < s.len() {
        lemma_last_other(s, n + 1);
        if forall|j: int| n + 1 <= j < s.len() ==> is_whitespace(#[trigger] s[j]) {
            if !is_whitespace(s[n]) {
                assert(is_last_other(s, n));
            }
        } else {
            let b = choose|b: int| #[trigger] is_last_other(s, b) && n + 1 <= b;
            assert(is_last_other(s, b) && n <= b);
        }
    }
}

/// Returns `s` without the whitespace at its two ends.
pub fn trim(s: &str) -> (r: String)
    ensures
        r@ == trimmed(s@),
{
    let n = s.unicode_len();
    let mut i: usize = 0;
    let mut first: usize = 0;
    let mut last: usize = 0;
    for c in it: s.chars()
        invariant
            it.seq() == s@,
            n == s@.len(),
            i == it.index(),
            first <= last <= i,
            first == last ==> first == 0 && forall|j: int|
                0 <= j < i ==> is_whitespace(#[trigger] s@[j]),
            first < last ==> !is_whitespace(s@[first as int]) && !is_whitespace(s@[last - 1]),
            forall|j: int| 0 <= j < first ==> is_whitespace(#[trigger] s@[j]),
            forall|j: int| last <= j < i ==> is_whitespace(#[trigger] s@[j]),
    {
        if !char_is_whitespace(c) {
            if first == last {
                first = i;
            }
            last = i + 1;
        }
        i += 1;
    }
    proof {
        if first < last {
            lemma_leading_whitespace(s@, first as int);
            lemma_trailing_whitespace(s@, last as int);
        } else {
            assert(s@.subrange(0, 0) =~= Seq::<char>::empty());
        }
    }
    s.substring_char(first, last).to_owned()
}

/// The character that stands for the digit `d`.
pub open spec fn digit_char(d: int) -> char {
    if d == 0 {
        '0'
    } else if d == 1 {
        '1'
    } else if d == 2 {
        '2'
    } else if d == 3 {
        '3'
    } else if d == 4 {
        '4'
    } else if d == 5 {
        '5'
    } else if d == 6 {
        '6'
    } else if d == 7 {
        '7'
    } else if d == 8 {
        '8'
    } else {
        '9'
    }
}

/// The decimal digits of `n`, most significant first, without leading zeros.
pub open spec fn decimal_digits(n: nat) -> Seq<char>
    decreases n,
{
    if n < 10 {
        seq![digit_char(n as int)]
    } else {
        decimal_digits(n / 10).push(digit_char((n % 10) as int))
    }
}

/// The decimal form of `n`, with a minus sign in front of a negative number.
pub open spec fn decimal(n: int) -> Seq<char> {
    if n < 0 {
        seq!['-'] + decimal_digits((-n) as nat)
    } else {
        decimal_digits(n as nat)
    }
}

/// The text of one decimal digit.
fn digit_text(d: u64) -> (r: &'static str)
    requires
        d < 10,
    ensures
        r@ == seq![digit_char(d as int)],
{
    proof {
        reveal_strlit("0");
        reveal_strlit("1");
        reveal_strlit("2");
        reveal_strlit("3");
        reveal_strlit("4");
        reveal_strlit("5");
        reveal_strlit("6");
        reveal_strlit("7");
        reveal_strlit("8");
        reveal_strlit("9");
    }
    let r = if d == 0 {
        "0"
    } else if d == 1 {
        "1"
    } else if d == 2 {
        "2"
    } else if d == 3 {
        "3"
    } else if d == 4 {
        "4"
    } else if d == 5 {
        "5"
    } else if d == 6 {
        "6"
    } else if d == 7 {
        "7"
    } else if d == 8 {
        "8"
    } else {
        "9"
    };
    assert(r@ =~= seq![digit_char(d as int)]);
    r
}

/// Appends the decimal digits of `n` to `out`.
fn push_digits(n: u64, out: &mut String)
    ensures
        final(out)@ == old(out)@ + decimal_digits(n as nat),
    decreases n,
{
    if n >= 10 {
        push_digits(n / 10, out);
    }
    out.append(digit_text(n % 10));
}

/// Renders `n` in decimal, as `{}` formats an integer.
pub fn render_decimal(n: i64) -> (r: String)
    ensures
        r@ == decimal(n as int),
{
    let mut out = String::new();
    let wide: i128 = n as i128;
    if wide < 0 {
        proof {
            reveal_strlit("-");
        }
        out.append("-");
        push_digits((-wide) as u64, &mut out);
    } else {
        push_digits(wide as u64, &mut out);
    }
    out
}

} // verus!
