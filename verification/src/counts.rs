//! Line, word and byte counting of a text, one pass over its characters.

use vstd::prelude::*;
use vstd::string::StrSliceExecFns;

verus! {

/// The counts of one text: lines, words, bytes — and characters,
/// reported as the byte count.
#[derive(Debug, PartialEq, Eq, Structural)]
pub struct FileInfo {
    pub num_lines: usize,
    pub num_words: usize,
    pub num_bytes: usize,
    pub num_chars: usize,
}

/// Whether a character has the Unicode white-space property, the
/// separator that word splitting breaks on.
pub open spec fn is_space(c: char) -> bool {
    let u = c as u32;
    u == 0x09 || u == 0x0A || u == 0x0B || u == 0x0C || u == 0x0D || u == 0x20 || u == 0x85 || u
        == 0xA0 || u == 0x1680 || (0x2000 <= u && u <= 0x200A) || u == 0x2028 || u == 0x2029 || u
        == 0x202F || u == 0x205F || u == 0x3000
}

/// Decide the Unicode white-space property of a character.
pub fn is_space_char(c: char) -> (r: bool)
    ensures
        r == is_space(c),
{
    let u = c as u32;
    u == 0x09 || u == 0x0A || u == 0x0B || u == 0x0C || u == 0x0D || u == 0x20 || u == 0x85 || u
        == 0xA0 || u == 0x1680 || (0x2000 <= u && u <= 0x200A) || u == 0x2028 || u == 0x2029 || u
        == 0x202F || u == 0x205F || u == 0x3000
}

/// The number of bytes of the UTF-8 encoding of one character: one below
/// U+0080, two below U+0800, three below U+10000, four above.
pub open spec fn utf8_len(c: char) -> nat {
    let u = c as u32;
    if u < 0x80 {
        1
    } else if u < 0x800 {
        2
    } else if u < 0x10000 {
        3
    } else {
        4
    }
}

/// The number of bytes of the UTF-8 encoding of a text.
pub open spec fn byte_count(s: Seq<char>) -> nat
    decreases s.len(),
{
    if s.len() == 0 {
        0
    } else {
        byte_count(s.drop_last()) + utf8_len(s.last())
    }
}

/// Whether a word starts at position `i`: a non-space character at the
/// start of the text or right after a space.
pub open spec fn word_starts_at(s: Seq<char>, i: int) -> bool {
    !is_space(s[i]) && (i == 0 || is_space(s[i - 1]))
}

/// The number of white-space-separated words of a text.
pub open spec fn word_count(s: Seq<char>) -> nat
    decreases s.len(),
{
    if s.len() == 0 {
        0
    } else {
        word_count(s.drop_last()) + if word_starts_at(s, s.len() - 1) {
            1nat
        } else {
            0nat
        }
    }
}

/// The number of newline characters of a text.
pub open spec fn newline_count(s: Seq<char>) -> nat
    decreases s.len(),
{
    if s.len() == 0 {
        0
    } else {
        newline_count(s.drop_last()) + if s.last() == '\n' {
            1nat
        } else {
            0nat
        }
    }
}

/// The number of lines of a text: its newline-terminated chunks, and one
/// more for a final chunk that no newline terminates.
pub open spec fn line_count(s: Seq<char>) -> nat {
    newline_count(s) + if s.len() > 0 && s.last() != '\n' {
        1nat
    } else {
        0nat
    }
}

/// A prefix never holds more encoded bytes than the whole text.
proof fn lemma_byte_count_prefix(s: Seq<char>, j: int)
    requires
        0 <= j <= s.len(),
    ensures
        byte_count(s.take(j)) <= byte_count(s),
    decreases s.len() - j,
{
    if j == s.len() {
        assert(s.take(j) =~= s);
    } else {
        assert(s.take(j + 1).drop_last() =~= s.take(j));
        assert(s.take(j + 1).last() == s[j]);
        lemma_byte_count_prefix(s, j + 1);
    }
}

/// There are never more newlines than characters.
proof fn lemma_newline_count_le(s: Seq<char>)
    ensures
        newline_count(s) <= s.len(),
    decreases s.len(),
{
    if s.len() > 0 {
        lemma_newline_count_le(s.drop_last());
    }
}

/// Count the lines, words and bytes of a text: a line is a
/// newline-terminated chunk or a final unterminated one, a word is a
/// maximal run of non-space characters, and the character count repeats
/// the byte count.
pub fn count(text: &str) -> (info: FileInfo)
    requires
        byte_count(text@) <= usize::MAX,
    ensures
        info.num_lines == line_count(text@),
        info.num_words == word_count(text@),
        info.num_bytes == byte_count(text@),
        info.num_chars == byte_count(text@),
{
    let n = text.unicode_len();
    let mut num_words: usize = 0;
    let mut num_bytes: usize = 0;
    let mut newlines: usize = 0;
    let mut prev_space = true;
    let mut ends_nl = false;
    let mut i: usize = 0;
    while i < n
        invariant
            n == text@.len(),
            i <= n,
            byte_count(text@) <= usize::MAX,
            num_words == word_count(text@.take(i as int)),
            num_words <= i,
            newlines == newline_count(text@.take(i as int)),
            newlines <= i,
            num_bytes == byte_count(text@.take(i as int)),
            prev_space == (i == 0 || is_space(text@[i as int - 1])),
            i > 0 ==> ends_nl == (text@[i as int - 1] == '\n'),
        decreases n - i,
    {
        let c = text.get_char(i);
        proof {
            assert(text@.take(i as int + 1).drop_last() =~= text@.take(i as int));
            assert(text@.take(i as int + 1).last() == text@[i as int]);
            lemma_byte_count_prefix(text@, i as int + 1);
        }
        let u = c as u32;
        let width: usize = if u < 0x80 {
            1
        } else if u < 0x800 {
            2
        } else if u < 0x10000 {
            3
        } else {
            4
        };
        num_bytes = num_bytes + width;
        let sp = is_space_char(c);
        if !sp && prev_space {
            num_words = num_words + 1;
        }
        if c == '\n' {
            newlines = newlines + 1;
        }
        prev_space = sp;
        ends_nl = c == '\n';
        i = i + 1;
    }
    proof {
        assert(text@.take(n as int) =~= text@);
        lemma_newline_count_le(text@);
        if text@.len() > 0 && text@.last() != '\n' {
            assert(newline_count(text@) == newline_count(text@.drop_last()));
            lemma_newline_count_le(text@.drop_last());
        }
    }
    let num_lines = if n > 0 && !ends_nl {
        newlines + 1
    } else {
        newlines
    };
    FileInfo { num_lines, num_words, num_bytes, num_chars: num_bytes }
}

} // verus!
