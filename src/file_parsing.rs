use vstd::prelude::*;
use crate::map::TileType;

verus! {

/// What one character of a map file stands for.
#[derive(Debug, Copy, Clone, PartialEq, Eq, Structural)]
pub enum ReadingResult {
    Tile(TileType),
    NewLine,
    /// A carriage return, which Windows puts before each line break.
    Ignored,
}

/// Why a map file could not be read.
#[derive(Debug, Copy, Clone, PartialEq, Eq, Structural)]
pub enum MapFileError {
    UnknownCharacter { character: char },
    /// A line differs in length from the line before it.
    UnequalLineLengths,
}

/// The map alphabet: a wall, a free cell and a separator, and the line breaks.
pub open spec fn reading_of(c: char) -> Option<ReadingResult> {
    if c == '\u{25A3}' {
        Some(ReadingResult::Tile(TileType::Wall))
    } else if c == '\u{25A2}' {
        Some(ReadingResult::Tile(TileType::Free))
    } else if c == '\u{25A4}' {
        Some(ReadingResult::Tile(TileType::Separator))
    } else if c == '\n' {
        Some(ReadingResult::NewLine)
    } else if c == '\r' {
        Some(ReadingResult::Ignored)
    } else {
        None
    }
}

/// The tiles of the line that `s` leaves unfinished (after its last line break).
pub open spec fn pending_line(s: Seq<char>) -> Seq<TileType>
    decreases s.len(),
{
    if s.len() == 0 {
        seq![]
    } else {
        let p = s.drop_last();
        match reading_of(s.last()) {
            Some(ReadingResult::Tile(t)) => pending_line(p).push(t),
            Some(ReadingResult::NewLine) => seq![],
            _ => pending_line(p),
        }
    }
}

/// The lines that `s` finishes with a line break, as rows of tiles, the last line first: the
/// bottom of the map is the end of the file.
pub open spec fn map_rows(s: Seq<char>) -> Seq<Seq<TileType>>
    decreases s.len(),
{
    if s.len() == 0 {
        seq![]
    } else {
        let p = s.drop_last();
        if reading_of(s.last()) == Some(ReadingResult::NewLine) {
            map_rows(p).insert(0, pending_line(p))
        } else {
            map_rows(p)
        }
    }
}

/// The error, if any, that character `c` raises after the text `p`: an unknown character,
/// or a line break ending a line of another length than the line before it.
pub open spec fn step_error(p: Seq<char>, c: char) -> Option<MapFileError> {
    match reading_of(c) {
        None => Some(MapFileError::UnknownCharacter { character: c }),
        Some(ReadingResult::NewLine) => if map_rows(p).len() > 0 && pending_line(p).len()
            != map_rows(p)[0].len() {
            Some(MapFileError::UnequalLineLengths)
        } else {
            None
        },
        _ => None,
    }
}

/// No character of `s` raises an error.
pub open spec fn reads_cleanly(s: Seq<char>) -> bool {
    forall|i: int| 0 <= i < s.len() ==> (#[trigger] step_error(s.take(i), s[i])) is None
}

pub fn read_char(character: char) -> (r: Option<ReadingResult>)
    ensures
        r == reading_of(character),
{
    if character == '\u{25A3}' {
        Some(ReadingResult::Tile(TileType::Wall))
    } else if character == '\u{25A2}' {
        Some(ReadingResult::Tile(TileType::Free))
    } else if character == '\u{25A4}' {
        Some(ReadingResult::Tile(TileType::Separator))
    } else if character == '\n' {
        Some(ReadingResult::NewLine)
    } else if character == '\r' {
        Some(ReadingResult::Ignored)
    } else {
        None
    }
}

/// Reads the rows of a map file, bottom row first. Each line break ends a row; text after
/// the last line break is not part of the map. The first character that is not in the map
/// alphabet, or the first line of another length than the line before it, is the error.
pub fn parse_map(content: &str) -> (r: Result<Vec<Vec<TileType>>, MapFileError>)
    ensures
        match r {
            Ok(rows) => {
                &&& reads_cleanly(content@)
                &&& rows@.map_values(|row: Vec<TileType>| row@) == map_rows(content@)
            },
            Err(e) => exists|i: int|
                {
                    &&& 0 <= i < content@.len()
                    &&& reads_cleanly(content@.take(i))
                    &&& #[trigger] step_error(content@.take(i), content@[i]) == Some(e)
                },
        },
{
    broadcast use vstd::string::axiom_spec_iter;
    let mut map_sto: Vec<Vec<TileType>> = Vec::new();
    let mut line: Vec<TileType> = Vec::new();
    let mut line_standard_len_opt: Option<usize> = None;
    for character in it: content.chars()
        invariant
            it.seq() == content@,
            reads_cleanly(content@.take(it.index())),
            line@ == pending_line(content@.take(it.index())),
            map_sto@.map_values(|row: Vec<TileType>| row@) == map_rows(content@.take(it.index())),
            line_standard_len_opt == if map_sto@.len() > 0 {
                Some(map_sto@[0].len())
            } else {
                None::<usize>
            },
    {
        let ghost i = it.index();
        let ghost p = content@.take(i);
        assert(content@.take(i + 1).drop_last() =~= p);
        assert(content@.take(i + 1).last() == character);
        match read_char(character) {
            Some(ReadingResult::Tile(tile)) => {
                line.push(tile);
                assert(step_error(p, character) is None);
            },
            Some(ReadingResult::NewLine) => {
                if let Some(line_standard_len) = line_standard_len_opt {
                    if line_standard_len != line.len() {
                        proof {
                            assert(map_sto@[0]@ == map_rows(p)[0]);
                            assert(step_error(content@.take(i), content@[i]) == Some(
                                MapFileError::UnequalLineLengths,
                            ));
                        }
                        return Err(MapFileError::UnequalLineLengths);
                    }
                }
                assert(step_error(p, character) is None);
                line_standard_len_opt = Some(line.len());
                let mut finished: Vec<TileType> = Vec::new();
                std::mem::swap(&mut finished, &mut line);
                map_sto.insert(0, finished);
                proof {
                    assert(map_sto@.map_values(|row: Vec<TileType>| row@) =~= map_rows(p).insert(
                        0,
                        pending_line(p),
                    ));
                }
            },
            Some(ReadingResult::Ignored) => {
                assert(step_error(p, character) is None);
            },
            None => {
                proof {
                    assert(step_error(content@.take(i), content@[i]) == Some(
                        MapFileError::UnknownCharacter { character },
                    ));
                }
                return Err(MapFileError::UnknownCharacter { character });
            },
        }
        proof {
            assert forall|j: int| 0 <= j < i + 1 implies (#[trigger] step_error(
                content@.take(i + 1).take(j),
                content@.take(i + 1)[j],
            )) is None by {
                assert(content@.take(i + 1).take(j) =~= content@.take(j));
                assert(content@.take(i + 1)[j] == content@[j]);
                if j < i {
                    assert(p.take(j) =~= content@.take(j));
                    assert(step_error(p.take(j), p[j]) is None);
                }
            }
        }
    }
    proof {
        assert(content@.take(content@.len() as int) =~= content@);
    }
    Ok(map_sto)
}

} // verus!
