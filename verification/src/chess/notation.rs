//! Algebraic notation of a single tile: a file letter `a` to `h` followed by
//! a rank digit `1` to `8`, as in `e4`.

use vstd::prelude::*;
use crate::chess::position::Position;

verus! {

/// The text is no coordinate: after trimming it is not a file letter followed
/// by a rank digit.
#[derive(Copy, Clone, Debug, PartialEq, Eq, Structural)]
pub struct InvalidCoordinate;

/// The characters that Unicode gives the property `White_Space`.
pub open spec fn white_space(c: char) -> bool {
    let code: u32 = c as u32;
    ||| 0x09 <= code <= 0x0D
    ||| code == 0x20
    ||| code == 0x85
    ||| code == 0xA0
    ||| code == 0x1680
    ||| 0x2000 <= code <= 0x200A
    ||| code == 0x2028
    ||| code == 0x2029
    ||| code == 0x202F
    ||| code == 0x205F
    ||| code == 0x3000
}

/// `text` without the whitespace at its start.
pub open spec fn trim_start(text: Seq<char>) -> Seq<char>
    decreases text.len(),
{
    if text.len() > 0 && white_space(text.first()) {
        trim_start(text.drop_first())
    } else {
        text
    }
}

/// `text` without the whitespace at its end.
pub open spec fn trim_end(text: Seq<char>) -> Seq<char>
    decreases text.len(),
{
    if text.len() > 0 && white_space(text.last()) {
        trim_end(text.drop_last())
    } else {
        text
    }
}

/// `text` without the whitespace at its start and at its end.
pub open spec fn trimmed(text: Seq<char>) -> Seq<char> {
    trim_end(trim_start(text))
}

/// Whether `c` is one of the file letters `a` to `h`.
pub open spec fn is_file(c: char) -> bool {
    'a' <= c <= 'h'
}

/// Whether `c` is one of the rank digits `1` to `8`.
pub open spec fn is_rank(c: char) -> bool {
    '1' <= c <= '8'
}

/// The letter of column `x`: `a` for column 0, up to `h` for column 7.
pub open spec fn file_label(x: usize) -> char {
    ('a' as int + x) as char
}

/// The digit of row `y`: `8` for row 0, down to `1` for row 7.
pub open spec fn rank_label(y: usize) -> char {
    ('8' as int - y) as char
}

/// The coordinate text of a tile of the board.
pub open spec fn rendered(position: Position) -> Seq<char>
    recommends
        position.on_board(),
{
    seq![file_label(position.x), rank_label(position.y)]
}

/// The tile that `text` names, if it names one: trimmed, `text` is exactly a
/// file letter followed by a rank digit.
pub open spec fn parsed(text: Seq<char>) -> Option<Position> {
    let significant = trimmed(text);
    if significant.len() == 2 && is_file(significant[0]) && is_rank(significant[1]) {
        Some(
            Position {
                x: (significant[0] as int - 'a' as int) as usize,
                y: ('8' as int - significant[1] as int) as usize,
            },
        )
    } else {
        None
    }
}

/// Tells whether `c` is whitespace.
pub fn is_whitespace(c: char) -> (space: bool)
    ensures
        space == white_space(c),
{
    let code: u32 = c as u32;
    (0x09 <= code && code <= 0x0D) || code == 0x20 || code == 0x85 || code == 0xA0 || code
        == 0x1680 || (0x2000 <= code && code <= 0x200A) || code == 0x2028 || code == 0x2029 || code
        == 0x202F || code == 0x205F || code == 0x3000
}

fn file_index(c: char) -> (index: Option<usize>)
    ensures
        index is Some <==> is_file(c),
        index matches Some(x) ==> x == c as int - 'a' as int,
{
    if 'a' <= c && c <= 'h' {
        Some((c as u32 - 'a' as u32) as usize)
    } else {
        None
    }
}

fn rank_index(c: char) -> (index: Option<usize>)
    ensures
        index is Some <==> is_rank(c),
        index matches Some(y) ==> y == '8' as int - c as int,
{
    if '1' <= c && c <= '8' {
        Some(('8' as u32 - c as u32) as usize)
    } else {
        None
    }
}

/// Where whitespace surrounds the part of `text` from `from` up to `to`, and
/// that part neither starts nor ends with whitespace, trimming leaves exactly
/// that part.
pub proof fn lemma_trimmed_is_subrange(text: Seq<char>, from: int, to: int)
    requires
        0 <= from <= to <= text.len(),
        forall|i: int| 0 <= i < from ==> white_space(#[trigger] text[i]),
        forall|i: int| to <= i < text.len() ==> white_space(#[trigger] text[i]),
        from < to ==> !white_space(text[from]) && !white_space(text[to - 1]),
    ensures
        trimmed(text) == text.subrange(from, to),
{
    if from < to {
        lemma_trim_start(text, from);
        lemma_trim_end(text.subrange(from, text.len() as int), to - from);
    } else {
        lemma_trim_start(text, text.len() as int);
    }
}

proof fn lemma_trim_start(text: Seq<char>, from: int)
    requires
        0 <= from <= text.len(),
        forall|i: int| 0 <= i < from ==> white_space(#[trigger] text[i]),
        from < text.len() ==> !white_space(text[from]),
    ensures
        trim_start(text) == text.subrange(from, text.len() as int),
    decreases text.len(),
{
    if from > 0 {
        lemma_trim_start(text.drop_first(), from - 1);
    }
}

proof fn lemma_trim_end(text: Seq<char>, to: int)
    requires
        0 <= to <= text.len(),
        forall|i: int| to <= i < text.len() ==> white_space(#[trigger] text[i]),
        0 < to ==> !white_space(text[to - 1]),
    ensures
        trim_end(text) == text.subrange(0, to),
    decreases text.len(),
{
    if to < text.len() {
        lemma_trim_end(text.drop_last(), to);
    }
}

/// Reads an algebraic coordinate, which whitespace may surround: `c4` is
/// column 2 of row 4.
pub fn parse_coordinate(input: String) -> (result: Result<Position, InvalidCoordinate>)
    ensures
        result == match parsed(input@) {
            Some(position) => Ok::<Position, InvalidCoordinate>(position),
            None => Err::<Position, InvalidCoordinate>(InvalidCoordinate),
        },
        result matches Ok(position) ==> position.on_board(),
{
    let text = input.as_str();
    let mut first: char = ' ';
    let mut second: char = ' ';
    // Characters read from the first significant one on, and how many of
    // them the significant part spans; both stop counting at 3.
    let mut seen: u8 = 0;
    let mut span: u8 = 0;
    let ghost mut from: int = 0;
    let ghost mut to: int = 0;
    for c in it: text.chars()
        invariant
            it.seq() == text@,
            seen <= 3,
            seen == 0 ==> from == to == it.index(),
            seen > 0 ==> from < to <= it.index(),
            0 <= from <= to <= it.index(),
            forall|i: int| 0 <= i < from ==> white_space(#[trigger] text@[i]),
            forall|i: int| to <= i < it.index() ==> white_space(#[trigger] text@[i]),
            from < to ==> !white_space(text@[from]) && !white_space(text@[to - 1]),
            seen == if it.index() - from < 3 { it.index() - from } else { 3 },
            span == if to - from < 3 { to - from } else { 3 },
            seen >= 1 ==> first == text@[from],
            seen >= 2 ==> second == text@[from + 1],
    {
        let space = is_whitespace(c);
        if seen > 0 || !space {
            if seen == 0 {
                first = c;
            } else if seen == 1 {
                second = c;
            }
            if seen < 3 {
                seen += 1;
            }
            if !space {
                span = seen;
                proof {
                    to = it.index() + 1;
                }
            }
        } else {
            proof {
                from = it.index() + 1;
                to = from;
            }
        }
    }
    proof {
        lemma_trimmed_is_subrange(text@, from, to);
    }
    if span != 2 {
        return Err(InvalidCoordinate);
    }
    match (file_index(first), rank_index(second)) {
        (Some(x), Some(y)) => Ok(Position { x, y }),
        _ => Err(InvalidCoordinate),
    }
}

fn file_text(x: usize) -> (text: &'static str)
    requires
        x < 8,
    ensures
        text@ == seq![file_label(x)],
{
    proof {
        reveal_strlit("a");
        reveal_strlit("b");
        reveal_strlit("c");
        reveal_strlit("d");
        reveal_strlit("e");
        reveal_strlit("f");
        reveal_strlit("g");
        reveal_strlit("h");
    }
    match x {
        0 => "a",
        1 => "b",
        2 => "c",
        3 => "d",
        4 => "e",
        5 => "f",
        6 => "g",
        _ => "h",
    }
}

fn rank_text(y: usize) -> (text: &'static str)
    requires
        y < 8,
    ensures
        text@ == seq![rank_label(y)],
{
    proof {
        reveal_strlit("8");
        reveal_strlit("7");
        reveal_strlit("6");
        reveal_strlit("5");
        reveal_strlit("4");
        reveal_strlit("3");
        reveal_strlit("2");
        reveal_strlit("1");
    }
    match y {
        0 => "8",
        1 => "7",
        2 => "6",
        3 => "5",
        4 => "4",
        5 => "3",
        6 => "2",
        _ => "1",
    }
}

/// Writes the algebraic coordinate of a tile: column 2 of row 4 is `c4`.
/// A position off the board has no coordinate.
pub fn render_coordinate(position: Position) -> (text: Option<String>)
    ensures
        match text {
            Some(written) => position.on_board() && written@ == rendered(position),
            None => !position.on_board(),
        },
{
    if position.x > 7 || position.y > 7 {
        return None;
    }
    let mut written = String::from_str(file_text(position.x));
    written.append(rank_text(position.y));
    Some(written)
}

/// A file letter followed by a rank digit names a tile of the board, and
/// the coordinate of that tile is the same text again.
pub proof fn lemma_parse_then_render(text: Seq<char>)
    requires
        text.len() == 2,
        is_file(text[0]),
        is_rank(text[1]),
    ensures
        parsed(text) matches Some(position) && position.on_board() && rendered(position) == text,
{
    lemma_trimmed_is_subrange(text, 0, 2);
}

/// Whatever text names a tile, the coordinate of that tile is the text
/// without the whitespace around it.
pub proof fn lemma_parsed_renders_trimmed(text: Seq<char>)
    requires
        parsed(text) is Some,
    ensures
        parsed(text).unwrap().on_board(),
        rendered(parsed(text).unwrap()) == trimmed(text),
{
}

/// The coordinate of a tile of the board names that tile.
pub proof fn lemma_render_then_parse(position: Position)
    requires
        position.on_board(),
    ensures
        parsed(rendered(position)) == Some(position),
{
    lemma_trimmed_is_subrange(rendered(position), 0, 2);
}

} // verus!
