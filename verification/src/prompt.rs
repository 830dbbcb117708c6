use vstd::prelude::*;
use vstd::string::*;

verus! {

/// Whether a character is white space: the characters of Unicode's
/// `White_Space` property.
pub open spec fn is_white_space(c: char) -> bool {
    ||| '\u{9}' <= c && c <= '\u{d}'
    ||| c == ' '
    ||| c == '\u{85}'
    ||| c == '\u{a0}'
    ||| c == '\u{1680}'
    ||| '\u{2000}' <= c && c <= '\u{200a}'
    ||| c == '\u{2028}'
    ||| c == '\u{2029}'
    ||| c == '\u{202f}'
    ||| c == '\u{205f}'
    ||| c == '\u{3000}'
}

/// Whether `t` is `s` without its leading and trailing white space.
pub open spec fn is_trimmed(s: Seq<char>, t: Seq<char>) -> bool {
    exists|a: int, b: int|
        #![trigger s.subrange(a, b)]
        {
            &&& 0 <= a <= b <= s.len()
            &&& t == s.subrange(a, b)
            &&& forall|i: int| 0 <= i < a ==> is_white_space(#[trigger] s[i])
            &&& forall|i: int| b <= i < s.len() ==> is_white_space(#[trigger] s[i])
            &&& a < b ==> !is_white_space(s[a]) && !is_white_space(s[b - 1])
        }
}

/// Whether a character is white space.
pub fn white_space(c: char) -> (r: bool)
    ensures
        r == is_white_space(c),
{
    ('\u{9}' <= c && c <= '\u{d}') || c == ' ' || c == '\u{85}' || c == '\u{a0}' || c == '\u{1680}' || (
    '\u{2000}' <= c && c <= '\u{200a}') || c == '\u{2028}' || c == '\u{2029}' || c == '\u{202f}' || c
        == '\u{205f}' || c == '\u{3000}'
}

/// The answer that a line typed at a prompt gives: the line without its
/// leading and trailing white space (the line break included).
pub fn trim_answer(line: &str) -> (r: String)
    ensures
        is_trimmed(line@, r@),
{
    let n = line.unicode_len();
    let mut a: usize = 0;
    while a < n && white_space(line.get_char(a))
        invariant
            n == line@.len(),
            a <= n,
            forall|i: int| 0 <= i < a ==> is_white_space(#[trigger] line@[i]),
        decreases n - a,
    {
        a = a + 1;
    }
    let mut b: usize = n;
    while b > a && white_space(line.get_char(b - 1))
        invariant
            n == line@.len(),
            a <= b <= n,
            forall|i: int| b <= i < n ==> is_white_space(#[trigger] line@[i]),
            a < n ==> !is_white_space(line@[a as int]),
        decreases b - a,
    {
        b = b - 1;
    }
    let r = String::from_str(line.substring_char(a, b));
    assert(line@.subrange(a as int, b as int) == r@);
    r
}

/// What trimming keeps and drops: the answer is a piece of the line with no
/// white space at either end, a line with none at its ends is its own
/// answer, and the line break, carriage return, tab and space that a
/// terminal line may carry count as white space.
pub proof fn lemma_answer_of_a_line(s: Seq<char>, t: Seq<char>)
    requires
        is_trimmed(s, t),
    ensures
        t.len() <= s.len(),
        t.len() > 0 ==> !is_white_space(t[0]) && !is_white_space(t[t.len() - 1]),
        s.len() > 0 && !is_white_space(s[0]) && !is_white_space(s[s.len() - 1]) ==> t == s,
        forall|c: char| c == '\n' || c == '\r' || c == '\t' || c == ' ' ==> is_white_space(c),
        forall|c: char| ('a' <= c <= 'z' || 'A' <= c <= 'Z' || '0' <= c <= '9' || c == '+') ==> !is_white_space(c),
{
    let (a, b) = choose|a: int, b: int|
        {
            &&& 0 <= a <= b <= s.len()
            &&& t == #[trigger] s.subrange(a, b)
            &&& forall|i: int| 0 <= i < a ==> is_white_space(#[trigger] s[i])
            &&& forall|i: int| b <= i < s.len() ==> is_white_space(#[trigger] s[i])
            &&& a < b ==> !is_white_space(s[a]) && !is_white_space(s[b - 1])
        };
    if s.len() > 0 && !is_white_space(s[0]) && !is_white_space(s[s.len() - 1]) {
        if a > 0 {
            assert(is_white_space(s[0]));
        }
        if b < s.len() {
            assert(is_white_space(s[s.len() - 1]));
        }
        assert(t =~= s);
    }
}

} // verus!
