//! The board as the client keeps it: which points are still free, and what
//! is shown when a stone is put.

use crate::game_data::{stone_color_name, stone_name};
use vstd::prelude::*;
use vstd::string::*;

verus! {

/// The number of lines of the board in each direction.
pub const BOARD_SIZE: i32 = 19;

/// The colour that a name stands for: black is `true`, white is `false`,
/// and any other name stands for no colour.
pub open spec fn color_of_name(name: Seq<char>) -> Option<bool> {
    if name == "black"@ {
        Some(true)
    } else if name == "white"@ {
        Some(false)
    } else {
        None
    }
}

/// The colour that `name` stands for.
pub fn parse_color(name: &str) -> (color: Option<bool>)
    ensures
        color == color_of_name(name@),
{
    let name = name.to_owned();
    if name == "black".to_owned() {
        Some(true)
    } else if name == "white".to_owned() {
        Some(false)
    } else {
        None
    }
}

/// Where the picture of a stone of a colour is found.
pub open spec fn texture_of(black: bool) -> Seq<char> {
    if black {
        "res://content/materials/black_stone.svg"@
    } else {
        "res://content/materials/white_stone.svg"@
    }
}

/// Where the picture of a stone of a colour is found.
pub fn stone_texture(black: bool) -> (path: &'static str)
    ensures
        path@ == texture_of(black),
{
    match black {
        true => "res://content/materials/black_stone.svg",
        false => "res://content/materials/white_stone.svg",
    }
}

/// Whether `row` and `col` name a point of the board.
pub open spec fn on_board(row: int, col: int) -> bool {
    0 <= row < BOARD_SIZE && 0 <= col < BOARD_SIZE
}

/// The points of the board on which no stone was put yet.
pub struct FreePlaces {
    free: Vec<bool>,
}

impl View for FreePlaces {
    type V = Set<(int, int)>;

    closed spec fn view(&self) -> Set<(int, int)> {
        Set::new(
            |place: (int, int)|
                on_board(place.0, place.1) && place.0 * BOARD_SIZE + place.1 < self.free@.len()
                    && self.free@[place.0 * BOARD_SIZE + place.1],
        )
    }
}

impl FreePlaces {
    /// An empty board: every point is free.
    pub fn new() -> (places: FreePlaces)
        ensures
            forall|row: int, col: int| #[trigger] places@.contains((row, col)) <==> on_board(row, col),
    {
        let mut free: Vec<bool> = Vec::new();
        free.resize(361, true);
        let places = FreePlaces { free };
        assert forall|row: int, col: int| #[trigger]
            places@.contains((row, col)) <==> on_board(row, col) by {
            if on_board(row, col) {
                assert(0 <= row * BOARD_SIZE + col < 361);
            }
        }
        places
    }

    /// Whether the point is free. A point that is not on the board is not.
    pub fn is_free(&self, row: i32, col: i32) -> (free: bool)
        ensures
            free == self@.contains((row as int, col as int)),
    {
        if 0 <= row && row < BOARD_SIZE && 0 <= col && col < BOARD_SIZE {
            let index = (row * BOARD_SIZE + col) as usize;
            index < self.free.len() && self.free[index]
        } else {
            false
        }
    }

    /// Puts a stone of the colour that `color` names on a point.
    ///
    /// Where the name stands for a colour and the point is free, the point
    /// is free no longer and the colour is returned. In every other case
    /// nothing changes and nothing is returned.
    pub fn put_stone(&mut self, row: i32, col: i32, color: &str) -> (put: Option<bool>)
        ensures
            match put {
                Some(black) => color_of_name(color@) == Some(black) && old(self)@.contains(
                    (row as int, col as int),
                ) && final(self)@ == old(self)@.remove((row as int, col as int)),
                None => (color_of_name(color@) is None || !old(self)@.contains(
                    (row as int, col as int),
                )) && final(self)@ == old(self)@,
            },
    {
        let parsed = parse_color(color);
        match parsed {
            None => None,
            Some(black) => {
                if self.is_free(row, col) {
                    let index = (row * BOARD_SIZE + col) as usize;
                    self.free.set(index, false);
                    assert(final(self)@ =~= old(self)@.remove((row as int, col as int))) by {
                        assert forall|place: (int, int)|
                            on_board(place.0, place.1) && place != (
                                row as int,
                                col as int,
                            ) implies place.0 * BOARD_SIZE + place.1 != index as int by {}
                    }
                    Some(black)
                } else {
                    None
                }
            },
        }
    }
}

/// What is shown for one row of the board: for each of its points the row,
/// the point's place in the row and the name of its colour.
pub open spec fn row_signals(row: int, cells: Seq<Option<bool>>) -> Seq<(int, int, Seq<char>)> {
    Seq::new(cells.len(), |col: int| (row, col, stone_name(cells[col])))
}

/// What is shown for a board: what is shown for its rows, one row after the
/// other.
pub open spec fn board_signals(board: Seq<Vec<Option<bool>>>) -> Seq<(int, int, Seq<char>)>
    decreases board.len(),
{
    if board.len() == 0 {
        Seq::empty()
    } else {
        board_signals(board.drop_last()) + row_signals(board.len() - 1, board.last()@)
    }
}

/// What a signal says, in numbers and text.
pub open spec fn signal_view(signal: (usize, usize, &'static str)) -> (int, int, Seq<char>) {
    (signal.0 as int, signal.1 as int, signal.2@)
}

/// What a list of signals says.
pub open spec fn signals_view(signals: Seq<(usize, usize, &'static str)>) -> Seq<
    (int, int, Seq<char>),
> {
    Seq::new(signals.len(), |i: int| signal_view(signals[i]))
}

/// The signals that show a board: one for each point, row by row.
pub fn refresh_board(board: &Vec<Vec<Option<bool>>>) -> (signals: Vec<(usize, usize, &'static str)>)
    ensures
        signals_view(signals@) == board_signals(board@),
{
    let mut signals: Vec<(usize, usize, &'static str)> = Vec::new();
    let mut row_num: usize = 0;
    while row_num < board.len()
        invariant
            row_num <= board@.len(),
            signals_view(signals@) == board_signals(board@.take(row_num as int)),
        decreases board@.len() - row_num,
    {
        let row = &board[row_num];
        let ghost done = signals@;
        let mut col_num: usize = 0;
        while col_num < row.len()
            invariant
                col_num <= row@.len(),
                row_num < board@.len(),
                row == &board@[row_num as int],
                signals_view(signals@) == signals_view(done) + row_signals(
                    row_num as int,
                    row@.take(col_num as int),
                ),
            decreases row@.len() - col_num,
        {
            let ghost before = signals@;
            let signal = (row_num, col_num, stone_color_name(row[col_num]));
            signals.push(signal);
            assert(signals_view(signals@) =~= signals_view(before).push(signal_view(signal)));
            assert(row_signals(row_num as int, row@.take(col_num + 1)) =~= row_signals(
                row_num as int,
                row@.take(col_num as int),
            ).push(signal_view(signal)));
            assert(signals_view(signals@) =~= signals_view(done) + row_signals(
                row_num as int,
                row@.take(col_num + 1),
            ));
            col_num = col_num + 1;
        }
        assert(row@.take(col_num as int) =~= row@);
        assert(board@.take(row_num + 1).drop_last() =~= board@.take(row_num as int));
        assert(board@.take(row_num + 1).last() == board@[row_num as int]);
        row_num = row_num + 1;
    }
    assert(board@.take(row_num as int) =~= board@);
    signals
}

} // verus!
