//! The text format of a program.
//!
//! A program is text, one line after the other. What follows the first `#`
//! on a line is a comment. What stands before it, with white space stripped
//! from both ends, is a list of tokens, each parted from the next by exactly
//! one space. A token is two hexadecimal digits, in either case, and stands
//! for one byte. The bytes of the program are the bytes of its tokens in the
//! order of the text; the first of them belongs at address zero.
//!
//! A line without a token (an empty line, or one that holds only a comment)
//! and two spaces in a row both leave an empty token, which is malformed like
//! any other text that is not two hexadecimal digits.

use vstd::prelude::*;
use crate::hex::chars_of;

verus! {

/// Why a program text was refused.
#[derive(Clone, Copy, Debug, PartialEq, Eq, Structural)]
pub enum LoadError {
    /// Some token is not two hexadecimal digits.
    MalformedToken,
    /// The program has more bytes than the address space has cells.
    TooLong,
}

/// The number of cells that sixteen-bit addresses reach.
pub const ADDRESS_SPACE: usize = 0x10000;

/// True for the characters that Unicode calls white space.
pub open spec fn is_whitespace(c: char) -> bool {
    let n = c as int;
    (0x09 <= n <= 0x0D) || n == 0x20 || n == 0x85 || n == 0xA0 || n == 0x1680 || (0x2000 <= n
        <= 0x200A) || n == 0x2028 || n == 0x2029 || n == 0x202F || n == 0x205F || n == 0x3000
}

/// The parts of `s` between the occurrences of `sep`: one part more than
/// there are occurrences, none of them holding `sep`.
pub open spec fn pieces(s: Seq<char>, sep: char) -> Seq<Seq<char>>
    decreases s.len(),
{
    if s.len() == 0 {
        seq![Seq::<char>::empty()]
    } else {
        let before = pieces(s.drop_last(), sep);
        if s.last() == sep {
            before.push(Seq::<char>::empty())
        } else {
            before.drop_last().push(before.last().push(s.last()))
        }
    }
}

/// `s` without the white space at its start.
pub open spec fn trim_start(s: Seq<char>) -> Seq<char>
    decreases s.len(),
{
    if s.len() > 0 && is_whitespace(s[0]) {
        trim_start(s.drop_first())
    } else {
        s
    }
}

/// `s` without the white space at its end.
pub open spec fn trim_end(s: Seq<char>) -> Seq<char>
    decreases s.len(),
{
    if s.len() > 0 && is_whitespace(s.last()) {
        trim_end(s.drop_last())
    } else {
        s
    }
}

/// `s` without the white space at either end.
pub open spec fn trimmed(s: Seq<char>) -> Seq<char> {
    trim_end(trim_start(s))
}

/// The lines of a text: its parts between line feeds. A line feed at the very
/// end of the text ends the last line and starts no further one, and the
/// empty text has no line.
pub open spec fn lines(text: Seq<char>) -> Seq<Seq<char>> {
    let parts = pieces(text, '\n');
    if parts.last().len() == 0 {
        parts.drop_last()
    } else {
        parts
    }
}

/// The tokens of one line: what stands before the first `#`, stripped of
/// white space at both ends, parted at every space.
pub open spec fn line_tokens(line: Seq<char>) -> Seq<Seq<char>> {
    pieces(trimmed(pieces(line, '#')[0]), ' ')
}

/// The tokens of some lines, in order.
pub open spec fn tokens(lines: Seq<Seq<char>>) -> Seq<Seq<char>>
    decreases lines.len(),
{
    if lines.len() == 0 {
        Seq::<Seq<char>>::empty()
    } else {
        tokens(lines.drop_last()) + line_tokens(lines.last())
    }
}

/// The number that a hexadecimal digit of either case writes; `None` for any
/// other character.
pub open spec fn digit_number(c: char) -> Option<int> {
    if '0' <= c && c <= '9' {
        Some(c as int - '0' as int)
    } else if 'a' <= c && c <= 'f' {
        Some(c as int - 'a' as int + 10)
    } else if 'A' <= c && c <= 'F' {
        Some(c as int - 'A' as int + 10)
    } else {
        None
    }
}

/// The byte that a token stands for; `None` for a malformed token.
pub open spec fn token_byte(token: Seq<char>) -> Option<u8> {
    if token.len() == 2 && digit_number(token[0]) is Some && digit_number(token[1]) is Some {
        Some((16 * digit_number(token[0])->0 + digit_number(token[1])->0) as u8)
    } else {
        None
    }
}

/// True when no token is malformed.
pub open spec fn well_formed(tokens: Seq<Seq<char>>) -> bool {
    forall|i: int| 0 <= i < tokens.len() ==> token_byte(#[trigger] tokens[i]) is Some
}

/// The bytes of well-formed tokens, one for one.
pub open spec fn token_bytes(tokens: Seq<Seq<char>>) -> Seq<u8> {
    Seq::new(tokens.len(), |i: int| token_byte(tokens[i])->0)
}

/// What a program text holds: its bytes, or why it is refused.
pub open spec fn program(text: Seq<char>) -> Result<Seq<u8>, LoadError> {
    let all = tokens(lines(text));
    if !well_formed(all) {
        Err(LoadError::MalformedToken)
    } else if all.len() > ADDRESS_SPACE {
        Err(LoadError::TooLong)
    } else {
        Ok(token_bytes(all))
    }
}

/// The texts that a vector of character vectors holds.
pub open spec fn texts(parts: Seq<Vec<char>>) -> Seq<Seq<char>> {
    Seq::new(parts.len(), |i: int| parts[i]@)
}

/// The parts put together again, with `sep` between each two.
pub open spec fn joined(parts: Seq<Seq<char>>, sep: char) -> Seq<char>
    decreases parts.len(),
{
    if parts.len() == 0 {
        Seq::<char>::empty()
    } else if parts.len() == 1 {
        parts[0]
    } else {
        joined(parts.drop_last(), sep).push(sep) + parts.last()
    }
}

/// Splitting loses nothing and leaves no separator behind: there is always a
/// first part, the parts joined by `sep` are the text again, and `sep` occurs
/// in none of them.
pub proof fn pieces_rejoin(s: Seq<char>, sep: char)
    ensures
        pieces(s, sep).len() >= 1,
        joined(pieces(s, sep), sep) == s,
        forall|i: int, j: int|
            0 <= i < pieces(s, sep).len() && 0 <= j < pieces(s, sep)[i].len() ==> pieces(
                s,
                sep,
            )[i][j] != sep,
    decreases s.len(),
{
    if s.len() == 0 {
        assert(joined(pieces(s, sep), sep) =~= s);
    } else {
        let before = pieces(s.drop_last(), sep);
        let now = pieces(s, sep);
        pieces_rejoin(s.drop_last(), sep);
        if s.last() == sep {
            assert(now.drop_last() =~= before);
            assert(joined(now, sep) =~= s);
        } else {
            if before.len() > 1 {
                assert(now.drop_last() =~= before.drop_last());
            }
            assert(joined(now, sep) =~= joined(before, sep).push(s.last()));
            assert(joined(now, sep) =~= s);
        }
    }
}

/// Where the white space at the start of `s` ends: everything before the cut
/// is white space, what stands at the cut is not, and the rest is what
/// `trim_start` keeps.
pub proof fn trim_start_cut(s: Seq<char>) -> (cut: int)
    ensures
        0 <= cut <= s.len(),
        trim_start(s) == s.skip(cut),
        forall|i: int| 0 <= i < cut ==> is_whitespace(#[trigger] s[i]),
        cut < s.len() ==> !is_whitespace(s[cut]),
    decreases s.len(),
{
    if s.len() > 0 && is_whitespace(s[0]) {
        let rest = trim_start_cut(s.drop_first());
        assert(s.drop_first().skip(rest) =~= s.skip(rest + 1));
        assert forall|i: int| 0 <= i < rest + 1 implies is_whitespace(#[trigger] s[i]) by {
            if i > 0 {
                assert(s[i] == s.drop_first()[i - 1]);
            }
        }
        rest + 1
    } else {
        assert(s.skip(0) =~= s);
        0
    }
}

/// Where the white space at the end of `s` begins: everything from the cut
/// on is white space, what stands before the cut is not, and the part before
/// the cut is what `trim_end` keeps.
pub proof fn trim_end_cut(s: Seq<char>) -> (cut: int)
    ensures
        0 <= cut <= s.len(),
        trim_end(s) == s.take(cut),
        forall|i: int| cut <= i < s.len() ==> is_whitespace(#[trigger] s[i]),
        cut > 0 ==> !is_whitespace(s[cut - 1]),
    decreases s.len(),
{
    if s.len() > 0 && is_whitespace(s.last()) {
        let cut = trim_end_cut(s.drop_last());
        assert(s.drop_last().take(cut) =~= s.take(cut));
        assert forall|i: int| cut <= i < s.len() implies is_whitespace(#[trigger] s[i]) by {
            if i < s.len() - 1 {
                assert(s[i] == s.drop_last()[i]);
            }
        }
        cut
    } else {
        assert(s.take(s.len() as int) =~= s);
        s.len() as int
    }
}

/// Trimming cuts white space only, and all of it: the result is a stretch of
/// `s` with nothing but white space before and behind it, and it neither
/// starts nor ends with white space.
pub proof fn trimmed_is_the_core(s: Seq<char>) -> (cuts: (int, int))
    ensures
        0 <= cuts.0 <= cuts.1 <= s.len(),
        trimmed(s) == s.subrange(cuts.0, cuts.1),
        forall|i: int| 0 <= i < cuts.0 ==> is_whitespace(#[trigger] s[i]),
        forall|i: int| cuts.1 <= i < s.len() ==> is_whitespace(#[trigger] s[i]),
        trimmed(s).len() > 0 ==> !is_whitespace(trimmed(s).first()) && !is_whitespace(
            trimmed(s).last(),
        ),
{
    let from = trim_start_cut(s);
    let kept = trim_end_cut(s.skip(from));
    assert(s.skip(from).take(kept) =~= s.subrange(from, from + kept));
    assert forall|i: int| from + kept <= i < s.len() implies is_whitespace(#[trigger] s[i]) by {
        assert(s[i] == s.skip(from)[i - from]);
    }
    if kept > 0 {
        assert(s.skip(from)[kept - 1] == s[from + kept - 1]);
        assert(trimmed(s).first() == s[from]);
        assert(trimmed(s).last() == s[from + kept - 1]);
    }
    (from, from + kept)
}

/// Tells whether `c` is white space.
pub fn is_space(c: char) -> (ok: bool)
    ensures
        ok == is_whitespace(c),
{
    let n: u32 = c as u32;
    (0x09 <= n && n <= 0x0D) || n == 0x20 || n == 0x85 || n == 0xA0 || n == 0x1680 || (0x2000 <= n
        && n <= 0x200A) || n == 0x2028 || n == 0x2029 || n == 0x202F || n == 0x205F || n
        == 0x3000
}

/// Parts `s` at every occurrence of `sep`.
fn split(s: &Vec<char>, sep: char) -> (parts: Vec<Vec<char>>)
    ensures
        texts(parts@) == pieces(s@, sep),
        parts@.len() >= 1,
{
    let mut parts: Vec<Vec<char>> = Vec::new();
    let mut current: Vec<char> = Vec::new();
    let mut i: usize = 0;
    assert(s@.take(0) =~= Seq::<char>::empty());
    assert(texts(parts@).push(current@) =~= pieces(s@.take(0), sep));
    while i < s.len()
        invariant
            i <= s.len(),
            texts(parts@).push(current@) == pieces(s@.take(i as int), sep),
        decreases s.len() - i,
    {
        let ghost before = texts(parts@).push(current@);
        let ghost done = parts@;
        let ghost open = current@;
        let c = s[i];
        proof {
            assert(s@.take(i + 1).drop_last() =~= s@.take(i as int));
            assert(s@.take(i + 1).last() == c);
            assert(before.drop_last() =~= texts(done));
            assert(before.last() == open);
        }
        if c == sep {
            parts.push(current);
            current = Vec::new();
            assert(texts(parts@) =~= before);
        } else {
            current.push(c);
            assert(texts(parts@) =~= texts(done));
        }
        i += 1;
    }
    assert(s@.take(s.len() as int) =~= s@);
    let ghost done = parts@;
    let ghost open = current@;
    parts.push(current);
    assert(texts(parts@) =~= texts(done).push(open));
    parts
}

/// Strips the white space from both ends of `s`.
fn trim(s: &Vec<char>) -> (inner: Vec<char>)
    ensures
        inner@ == trimmed(s@),
{
    let mut start: usize = 0;
    assert(s@.skip(0) =~= s@);
    while start < s.len() && is_space(s[start])
        invariant
            start <= s.len(),
            trim_start(s@) == trim_start(s@.skip(start as int)),
        decreases s.len() - start,
    {
        assert(s@.skip(start as int).drop_first() =~= s@.skip(start + 1));
        start += 1;
    }
    let mut end: usize = s.len();
    assert(s@.skip(start as int) =~= s@.subrange(start as int, end as int));
    while end > start && is_space(s[end - 1])
        invariant
            start <= end <= s.len(),
            trim_start(s@) == s@.skip(start as int),
            trimmed(s@) == trim_end(s@.subrange(start as int, end as int)),
        decreases end,
    {
        assert(s@.subrange(start as int, end as int).drop_last() =~= s@.subrange(
            start as int,
            end - 1,
        ));
        end -= 1;
    }
    let mut inner: Vec<char> = Vec::new();
    let mut i: usize = start;
    while i < end
        invariant
            start <= i <= end <= s.len(),
            inner@ == s@.subrange(start as int, i as int),
        decreases end - i,
    {
        inner.push(s[i]);
        assert(inner@ =~= s@.subrange(start as int, i + 1));
        i += 1;
    }
    inner
}

/// The number that a hexadecimal digit of either case writes.
fn digit(c: char) -> (n: Option<u8>)
    ensures
        n is Some <==> digit_number(c) is Some,
        n matches Some(d) ==> d < 16 && d == digit_number(c)->0,
{
    if '0' <= c && c <= '9' {
        Some((c as u32 - '0' as u32) as u8)
    } else if 'a' <= c && c <= 'f' {
        Some((c as u32 - 'a' as u32 + 10) as u8)
    } else if 'A' <= c && c <= 'F' {
        Some((c as u32 - 'A' as u32 + 10) as u8)
    } else {
        None
    }
}

/// Reads one token: two hexadecimal digits, in either case.
pub fn parse_token(token: &Vec<char>) -> (byte: Option<u8>)
    ensures
        byte == token_byte(token@),
{
    if token.len() != 2 {
        return None;
    }
    match (digit(token[0]), digit(token[1])) {
        (Some(high), Some(low)) => Some(16 * high + low),
        _ => None,
    }
}

/// All tokens of a text, line by line.
fn tokenize(text: &Vec<char>) -> (all: Vec<Vec<char>>)
    ensures
        texts(all@) == tokens(lines(text@)),
{
    let mut parts = split(text, '\n');
    let ghost whole = texts(parts@);
    if parts[parts.len() - 1].len() == 0 {
        parts.pop();
        assert(texts(parts@) =~= whole.drop_last());
    }
    assert(texts(parts@) == lines(text@));
    let mut all: Vec<Vec<char>> = Vec::new();
    let mut k: usize = 0;
    assert(texts(parts@).take(0) =~= Seq::<Seq<char>>::empty());
    assert(texts(all@) =~= Seq::<Seq<char>>::empty());
    while k < parts.len()
        invariant
            k <= parts.len(),
            texts(all@) == tokens(texts(parts@).take(k as int)),
        decreases parts.len() - k,
    {
        let heads = split(&parts[k], '#');
        let content = trim(&heads[0]);
        let mut found = split(&content, ' ');
        proof {
            let upto = texts(parts@).take(k + 1);
            assert(upto.drop_last() =~= texts(parts@).take(k as int));
            assert(upto.last() == parts@[k as int]@);
            assert(texts(heads@)[0] == heads@[0]@);
            assert(texts(found@) == line_tokens(parts@[k as int]@));
        }
        let ghost had = texts(all@);
        let ghost new = texts(found@);
        all.append(&mut found);
        assert(texts(all@) =~= had + new);
        k += 1;
    }
    assert(texts(parts@).take(parts.len() as int) =~= texts(parts@));
    all
}

/// Reads a program text.
///
/// Succeeds exactly when every token of the text is two hexadecimal digits
/// and there are no more tokens than cells in the address space; the result
/// then holds one byte for each token, in the order of the text. A malformed
/// token anywhere in the text is reported as such, whatever the length.
pub fn parse_program(text: &str) -> (r: Result<Vec<u8>, LoadError>)
    ensures
        r matches Ok(bytes) ==> program(text@) == Ok::<Seq<u8>, LoadError>(bytes@),
        r matches Err(error) ==> program(text@) == Err::<Seq<u8>, LoadError>(error),
        r matches Ok(bytes) ==> bytes@.len() <= ADDRESS_SPACE,
{
    let chars = chars_of(text);
    let all = tokenize(&chars);
    let mut bytes: Vec<u8> = Vec::new();
    let mut i: usize = 0;
    while i < all.len()
        invariant
            i <= all.len(),
            texts(all@) == tokens(lines(text@)),
            bytes@.len() == i,
            forall|j: int| 0 <= j < i ==> token_byte(#[trigger] texts(all@)[j]) == Some(bytes@[j]),
        decreases all.len() - i,
    {
        match parse_token(&all[i]) {
            Some(byte) => bytes.push(byte),
            None => {
                assert(token_byte(texts(all@)[i as int]) is None);
                return Err(LoadError::MalformedToken);
            },
        }
        i += 1;
    }
    assert(well_formed(texts(all@)));
    if bytes.len() > ADDRESS_SPACE {
        return Err(LoadError::TooLong);
    }
    assert(bytes@ =~= token_bytes(texts(all@)));
    Ok(bytes)
}

} // verus!
