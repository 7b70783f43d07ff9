//! Text helpers shared by the other modules.

use vstd::prelude::*;
use vstd::string::*;
use vstd::utf8::*;

verus! {

/// Whether two texts hold the same characters.
pub fn same_text(a: &str, b: &str) -> (same: bool)
    ensures
        same == (a@ == b@),
{
    let x: &[u8] = a.as_bytes();
    let y: &[u8] = b.as_bytes();
    proof {
        encode_utf8_decode_utf8(a@);
        encode_utf8_decode_utf8(b@);
    }
    if x.len() != y.len() {
        return false;
    }
    let mut i: usize = 0;
    while i < x.len()
        invariant
            i <= x.len(),
            x.len() == y.len(),
            x@ == encode_utf8(a@),
            y@ == encode_utf8(b@),
            forall|j: int| 0 <= j < i ==> x@[j] == y@[j],
        decreases x.len() - i,
    {
        if x[i] != y[i] {
            return false;
        }
        i += 1;
    }
    assert(x@ =~= y@);
    true
}

/// The characters of a text, one by one.
pub(crate) fn chars_of(text: &str) -> (chars: Vec<char>)
    ensures
        chars@ == text@,
{
    let mut chars: Vec<char> = Vec::new();
    for c in it: text.chars()
        invariant
            it.seq() == text@,
            chars@ == text@.take(it.index() as int),
    {
        chars.push(c);
    }
    assert(text@.take(text@.len() as int) =~= text@);
    chars
}

/// Whether a character is white space: whether it has the `White_Space` property of
/// Unicode.
pub open spec fn white_space(c: char) -> bool {
    ||| '\t' <= c <= '\r'
    ||| c == ' '
    ||| c == '\u{85}'
    ||| c == '\u{a0}'
    ||| c == '\u{1680}'
    ||| '\u{2000}' <= c <= '\u{200a}'
    ||| c == '\u{2028}'
    ||| c == '\u{2029}'
    ||| c == '\u{202f}'
    ||| c == '\u{205f}'
    ||| c == '\u{3000}'
}

/// Whether a character is white space.
fn is_white_space(c: char) -> (is: bool)
    ensures
        is == white_space(c),
{
    ('\t' <= c && c <= '\r') || c == ' ' || c == '\u{85}' || c == '\u{a0}' || c == '\u{1680}' || (
    '\u{2000}' <= c && c <= '\u{200a}') || c == '\u{2028}' || c == '\u{2029}' || c == '\u{202f}' || c
        == '\u{205f}' || c == '\u{3000}'
}

/// Whether a text is white space throughout.
pub open spec fn blank(text: Seq<char>) -> bool {
    forall|i: int| 0 <= i < text.len() ==> white_space(#[trigger] text[i])
}

/// A text without its leading white space.
pub open spec fn trimmed_start(text: Seq<char>) -> Seq<char>
    decreases text.len(),
{
    if text.len() > 0 && white_space(text.first()) {
        trimmed_start(text.drop_first())
    } else {
        text
    }
}

/// A text without its trailing white space.
pub open spec fn trimmed_end(text: Seq<char>) -> Seq<char>
    decreases text.len(),
{
    if text.len() > 0 && white_space(text.last()) {
        trimmed_end(text.drop_last())
    } else {
        text
    }
}

/// A text without its leading and trailing white space.
pub open spec fn trimmed(text: Seq<char>) -> Seq<char> {
    trimmed_end(trimmed_start(text))
}

/// Whether a text is white space throughout.
pub fn is_blank(text: &str) -> (is: bool)
    ensures
        is == blank(text@),
{
    let chars: Vec<char> = chars_of(text);
    let mut i: usize = 0;
    while i < chars.len()
        invariant
            chars@ == text@,
            i <= chars.len(),
            forall|j: int| 0 <= j < i ==> white_space(#[trigger] text@[j]),
        decreases chars.len() - i,
    {
        if !is_white_space(chars[i]) {
            return false;
        }
        i += 1;
    }
    true
}

/// A text is blank exactly where nothing is left of it without its white space at the
/// ends.
pub proof fn law_blank_is_trimmed_to_nothing(text: Seq<char>)
    ensures
        blank(text) <==> trimmed(text).len() == 0,
    decreases text.len(),
{
    if text.len() > 0 && white_space(text.first()) {
        let rest = text.drop_first();
        law_blank_is_trimmed_to_nothing(rest);
        assert(forall|i: int| 0 <= i < rest.len() ==> rest[i] == text[i + 1]);
        if blank(rest) {
            assert forall|i: int| 0 <= i < text.len() implies white_space(#[trigger] text[i]) by {
                if i > 0 {
                    assert(white_space(rest[i - 1]));
                }
            }
        } else {
            let i = choose|i: int| 0 <= i < rest.len() && !white_space(#[trigger] rest[i]);
            assert(!white_space(text[i + 1]));
        }
    } else if text.len() > 0 {
        assert(!white_space(text[0]));
        lemma_trimmed_end_keeps_first(text);
    }
}

/// A text that does not begin with white space keeps its beginning.
proof fn lemma_trimmed_end_keeps_first(text: Seq<char>)
    requires
        text.len() > 0,
        !white_space(text.first()),
    ensures
        trimmed_end(text).len() > 0,
    decreases text.len(),
{
    if white_space(text.last()) {
        assert(text.drop_last().first() == text.first());
        lemma_trimmed_end_keeps_first(text.drop_last());
    }
}

/// Leaves the leading and trailing white space off.
pub(crate) fn trim_chars(chars: Vec<char>) -> (kept: Vec<char>)
    ensures
        kept@ == trimmed(chars@),
{
    let mut start: usize = 0;
    assert(chars@.skip(0) =~= chars@);
    while start < chars.len() && is_white_space(chars[start])
        invariant
            start <= chars.len(),
            trimmed_start(chars@.skip(start as int)) == trimmed_start(chars@),
        decreases chars.len() - start,
    {
        assert(chars@.skip(start as int).drop_first() =~= chars@.skip(start + 1));
        start += 1;
    }
    let mut end: usize = chars.len();
    assert(chars@.subrange(start as int, end as int) =~= chars@.skip(start as int));
    assert(start < chars.len() ==> chars@.skip(start as int).first() == chars@[start as int]);
    assert(trimmed_start(chars@) == chars@.subrange(start as int, end as int));
    while end > start && is_white_space(chars[end - 1])
        invariant
            start <= end <= chars.len(),
            trimmed_end(chars@.subrange(start as int, end as int)) == trimmed(chars@),
        decreases end,
    {
        assert(chars@.subrange(start as int, end as int).drop_last() =~= chars@.subrange(
            start as int,
            end - 1,
        ));
        end -= 1;
    }
    assert(end > start ==> chars@.subrange(start as int, end as int).last() == chars@[end - 1]);
    let mut kept: Vec<char> = Vec::new();
    let mut i: usize = start;
    while i < end
        invariant
            start <= i <= end <= chars.len(),
            kept@ == chars@.subrange(start as int, i as int),
        decreases end - i,
    {
        kept.push(chars[i]);
        i += 1;
    }
    kept
}

/// What is left of a text without its white space at the ends stands in the text as it is:
/// around it is white space alone, and it neither begins nor ends with white space.
pub proof fn law_trimming_takes_white_space_alone(text: Seq<char>)
    ensures
        exists|i: int, j: int|
            {
                &&& 0 <= i <= j <= text.len()
                &&& trimmed(text) == #[trigger] text.subrange(i, j)
                &&& blank(text.take(i))
                &&& blank(text.skip(j))
            },
        trimmed(text).len() > 0 ==> !white_space(trimmed(text).first()) && !white_space(
            trimmed(text).last(),
        ),
        trimmed(trimmed(text)) == trimmed(text),
{
    let i = lemma_trimmed_start(text);
    let rest = trimmed_start(text);
    let k = lemma_trimmed_end(rest);
    let j = i + k;
    assert(text.subrange(i, j) =~= rest.take(k));
    assert(blank(text.skip(j))) by {
        assert(text.skip(j) =~= rest.skip(k));
    }
    let kept = trimmed(text);
    if kept.len() > 0 {
        assert(kept.first() == rest.first());
        assert(trimmed_start(kept) == kept);
        assert(trimmed_end(kept) == kept);
    }
}

/// Where a text without its leading white space begins.
proof fn lemma_trimmed_start(text: Seq<char>) -> (n: int)
    ensures
        0 <= n <= text.len(),
        trimmed_start(text) == text.skip(n),
        blank(text.take(n)),
        n < text.len() ==> !white_space(text[n]),
    decreases text.len(),
{
    if text.len() > 0 && white_space(text.first()) {
        let rest = text.drop_first();
        let m = lemma_trimmed_start(rest);
        assert(rest.skip(m) =~= text.skip(m + 1));
        assert forall|i: int| 0 <= i < m + 1 implies white_space(#[trigger] text.take(m + 1)[i]) by {
            if i > 0 {
                assert(white_space(rest.take(m)[i - 1]));
            }
        }
        if m < rest.len() {
            assert(rest[m] == text[m + 1]);
        }
        m + 1
    } else {
        assert(text.skip(0) =~= text);
        0
    }
}

/// Where a text without its trailing white space ends.
proof fn lemma_trimmed_end(text: Seq<char>) -> (n: int)
    ensures
        0 <= n <= text.len(),
        trimmed_end(text) == text.take(n),
        blank(text.skip(n)),
        n > 0 ==> !white_space(text[n - 1]),
    decreases text.len(),
{
    if text.len() > 0 && white_space(text.last()) {
        let front = text.drop_last();
        let n = lemma_trimmed_end(front);
        assert(front.take(n) =~= text.take(n));
        assert forall|i: int| 0 <= i < text.len() - n implies white_space(#[trigger] text.skip(n)[i]) by {
            if i < front.len() - n {
                assert(white_space(front.skip(n)[i]));
            }
        }
        n
    } else {
        assert(text.take(text.len() as int) =~= text);
        text.len() as int
    }
}

/// White space are the characters of these code points, and a text is blank where all of its
/// characters are, however many they are.
pub proof fn law_white_space_goes_by_the_code_point(c: char, text: Seq<char>, more: Seq<char>)
    ensures
        white_space(c) <==> {
            let code = c as u32;
            ||| code == 0x09 || code == 0x0a || code == 0x0b || code == 0x0c || code == 0x0d
            ||| code == 0x20 || code == 0x85 || code == 0xa0 || code == 0x1680
            ||| code >= 0x2000 && code < 0x200b
            ||| code == 0x2028 || code == 0x2029 || code == 0x202f || code == 0x205f
            ||| code == 0x3000
        },
        blank(Seq::empty()),
        blank(seq![c]) <==> white_space(c),
        blank(text + more) <==> blank(text) && blank(more),
{
    assert(seq![c][0] == c);
    let all = text + more;
    if blank(all) {
        assert forall|i: int| 0 <= i < text.len() implies white_space(#[trigger] text[i]) by {
            assert(all[i] == text[i]);
        }
        assert forall|i: int| 0 <= i < more.len() implies white_space(#[trigger] more[i]) by {
            assert(all[text.len() + i] == more[i]);
        }
    }
    if blank(text) && blank(more) {
        assert forall|i: int| 0 <= i < all.len() implies white_space(#[trigger] all[i]) by {
            if i < text.len() {
                assert(all[i] == text[i]);
            } else {
                assert(all[i] == more[i - text.len()]);
            }
        }
    }
}

} // verus!
