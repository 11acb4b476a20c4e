//! The byte layout of a match and of a move.
//!
//! A match is laid out field by field: the two players, the last player, the
//! winner, then the nine cells. A player is its 32 bytes. A player that may be
//! absent is one byte, 0 or 1, followed by the player if the byte is 1. A
//! cell is one byte: 0 for the empty mark, 1 for X, 2 for O. A move is its
//! row and its column, each as eight bytes with the lowest first, then its
//! mark.

use borsh::BorshDeserialize;
use vstd::bytes::{spec_u64_from_le_bytes, spec_u64_to_le_bytes, lemma_auto_spec_u64_to_from_le_bytes};
use vstd::prelude::*;
use crate::error::Error;
use crate::game::{Game, GameView, Mark, Move, optional_view};
use crate::identity::Identity;

verus! {

/// The byte that stands for a mark.
pub open spec fn mark_code(mark: Mark) -> u8 {
    match mark {
        Mark::E => 0,
        Mark::X => 1,
        Mark::O => 2,
    }
}

/// The mark that a byte stands for, if it stands for one.
pub open spec fn mark_of_code(code: u8) -> Option<Mark> {
    if code == 0 {
        Some(Mark::E)
    } else if code == 1 {
        Some(Mark::X)
    } else if code == 2 {
        Some(Mark::O)
    } else {
        None
    }
}

/// The bytes of an identity that may be absent.
pub open spec fn optional_identity_layout(id: Option<Seq<u8>>) -> Seq<u8> {
    match id {
        None => seq![0u8],
        Some(id) => seq![1u8] + id,
    }
}

/// The bytes of a grid: one for each cell.
pub open spec fn grid_layout(grid: Seq<Mark>) -> Seq<u8> {
    Seq::new(grid.len(), |i: int| mark_code(grid[i]))
}

/// The bytes of a match.
pub open spec fn game_layout(game: GameView) -> Seq<u8> {
    game.player_1 + (game.player_2 + (optional_identity_layout(game.most_recent) + (
    optional_identity_layout(game.winner) + grid_layout(game.grid))))
}

/// The bytes of a move.
pub open spec fn move_layout(mv: Move) -> Seq<u8> {
    spec_u64_to_le_bytes(mv.row as u64) + (spec_u64_to_le_bytes(mv.col as u64) + seq![
        mark_code(mv.mark),
    ])
}

/// An identity at the front of the input, and the input behind it.
pub open spec fn take_identity(input: Seq<u8>) -> Option<(Seq<u8>, Seq<u8>)> {
    if input.len() >= 32 {
        Some((input.subrange(0, 32), input.subrange(32, input.len() as int)))
    } else {
        None
    }
}

/// An identity that may be absent at the front of the input, and the input
/// behind it.
pub open spec fn take_optional_identity(input: Seq<u8>) -> Option<(Option<Seq<u8>>, Seq<u8>)> {
    if input.len() == 0 {
        None
    } else if input[0] == 0 {
        Some((None, input.subrange(1, input.len() as int)))
    } else if input[0] == 1 {
        match take_identity(input.subrange(1, input.len() as int)) {
            Some((id, rest)) => Some((Some(id), rest)),
            None => None,
        }
    } else {
        None
    }
}

/// A row or column number at the front of the input, and the input behind it.
pub open spec fn take_count(input: Seq<u8>) -> Option<(usize, Seq<u8>)> {
    if input.len() >= 8 && spec_u64_from_le_bytes(input.subrange(0, 8)) <= usize::MAX {
        Some(
            (
                spec_u64_from_le_bytes(input.subrange(0, 8)) as usize,
                input.subrange(8, input.len() as int),
            ),
        )
    } else {
        None
    }
}

/// The grid that the input holds, if it holds exactly one.
pub open spec fn parse_grid(input: Seq<u8>) -> Option<Seq<Mark>> {
    if input.len() == 9 && forall|i: int| 0 <= i < 9 ==> #[trigger] input[i] <= 2 {
        Some(Seq::new(9, |i: int| mark_of_code(input[i])->0))
    } else {
        None
    }
}

/// The match that the input holds, if it holds exactly one.
pub open spec fn parse_game(input: Seq<u8>) -> Option<GameView> {
    match take_identity(input) {
        Some((player_1, input)) => match take_identity(input) {
            Some((player_2, input)) => match take_optional_identity(input) {
                Some((most_recent, input)) => match take_optional_identity(input) {
                    Some((winner, input)) => match parse_grid(input) {
                        Some(grid) => Some(
                            GameView { player_1, player_2, most_recent, winner, grid },
                        ),
                        None => None,
                    },
                    None => None,
                },
                None => None,
            },
            None => None,
        },
        None => None,
    }
}

/// The move that the input holds, if it holds exactly one.
pub open spec fn parse_move(input: Seq<u8>) -> Option<Move> {
    match take_count(input) {
        Some((row, input)) => match take_count(input) {
            Some((col, input)) => if input.len() == 1 && input[0] <= 2 {
                Some(Move { row, col, mark: mark_of_code(input[0])->0 })
            } else {
                None
            },
            None => None,
        },
        None => None,
    }
}

/// `borsh::to_vec` on the 32 bytes of an identity: the bytes themselves, in
/// their order.
#[verifier::external_body]
fn encode_identity(id: &Identity) -> (bytes: Vec<u8>)
    ensures
        bytes@ == id@,
{
    borsh::to_vec(&id.bytes).unwrap_or_default()
}

/// `borsh::to_vec` on an optional array of 32 bytes: the byte 0 for none,
/// the byte 1 and then the 32 bytes for some.
#[verifier::external_body]
fn encode_optional_identity(id: &Option<Identity>) -> (bytes: Vec<u8>)
    ensures
        bytes@ == optional_identity_layout(optional_view(*id)),
{
    borsh::to_vec(&id.map(|id| id.bytes)).unwrap_or_default()
}

/// `borsh::to_vec` on a `usize`: the number as a `u64` in eight bytes, lowest
/// byte first.
#[verifier::external_body]
fn encode_count(count: usize) -> (bytes: Vec<u8>)
    ensures
        bytes@ == spec_u64_to_le_bytes(count as u64),
{
    borsh::to_vec(&count).unwrap_or_default()
}

/// `BorshDeserialize::deserialize` for an array of 32 bytes: it takes the
/// first 32 bytes of the input and leaves the rest, and fails on a shorter
/// input.
#[verifier::external_body]
fn decode_identity<'a>(input: &'a [u8]) -> (taken: Option<(Identity, &'a [u8])>)
    ensures
        match taken {
            Some((id, rest)) => take_identity(input@) == Some((id@, rest@)),
            None => take_identity(input@) is None,
        },
{
    let mut rest = input;
    match <[u8; 32]>::deserialize(&mut rest) {
        Ok(bytes) => Some((Identity { bytes }, rest)),
        Err(_) => None,
    }
}

/// `BorshDeserialize::deserialize` for an optional array of 32 bytes: it
/// takes one byte, which must be 0 or 1, and after a 1 the 32 bytes that
/// follow; it fails on any other first byte and where bytes are missing.
#[verifier::external_body]
fn decode_optional_identity<'a>(input: &'a [u8]) -> (taken: Option<(Option<Identity>, &'a [u8])>)
    ensures
        match taken {
            Some((id, rest)) => take_optional_identity(input@) == Some((optional_view(id), rest@)),
            None => take_optional_identity(input@) is None,
        },
{
    let mut rest = input;
    match <Option<[u8; 32]>>::deserialize(&mut rest) {
        Ok(bytes) => Some((bytes.map(|bytes| Identity { bytes }), rest)),
        Err(_) => None,
    }
}

/// `BorshDeserialize::deserialize` for a `usize`: it takes eight bytes as a
/// `u64`, lowest byte first, and fails where bytes are missing or the number
/// does not fit a `usize`.
#[verifier::external_body]
fn decode_count<'a>(input: &'a [u8]) -> (taken: Option<(usize, &'a [u8])>)
    ensures
        match taken {
            Some((count, rest)) => take_count(input@) == Some((count, rest@)),
            None => take_count(input@) is None,
        },
{
    let mut rest = input;
    match usize::deserialize(&mut rest) {
        Ok(count) => Some((count, rest)),
        Err(_) => None,
    }
}

impl Mark {
    /// The byte that stands for this mark.
    pub fn code(&self) -> (code: u8)
        ensures
            code == mark_code(*self),
    {
        match self {
            Mark::E => 0,
            Mark::X => 1,
            Mark::O => 2,
        }
    }

    /// The mark that the byte stands for, if it stands for one.
    pub fn from_code(code: u8) -> (mark: Option<Mark>)
        ensures
            mark == mark_of_code(code),
    {
        if code == 0 {
            Some(Mark::E)
        } else if code == 1 {
            Some(Mark::X)
        } else if code == 2 {
            Some(Mark::O)
        } else {
            None
        }
    }
}

impl Game {
    /// The bytes of the match.
    pub fn try_to_vec(&self) -> (bytes: Vec<u8>)
        ensures
            bytes@ == game_layout(self@),
    {
        let mut bytes = encode_identity(&self.get_player_1());
        let mut player_2 = encode_identity(&self.get_player_2());
        let mut most_recent = encode_optional_identity(&self.get_most_recent());
        let mut winner = encode_optional_identity(&self.get_winner());
        bytes.append(&mut player_2);
        bytes.append(&mut most_recent);
        bytes.append(&mut winner);
        let cells = self.get_cells();
        let ghost front = bytes@;
        let mut i: usize = 0;
        while i < 9
            invariant
                i <= 9,
                cells@ == self@.grid,
                bytes@.len() == front.len() + i,
                bytes@.subrange(0, front.len() as int) == front,
                forall|k: int| 0 <= k < i ==> bytes@[front.len() + k] == mark_code(cells@[k]),
            decreases 9 - i,
        {
            bytes.push(cells[i].code());
            i += 1;
            assert(bytes@.subrange(0, front.len() as int) =~= front);
        }
        assert(bytes@ =~= front + grid_layout(self@.grid));
        assert(bytes@ =~= game_layout(self@));
        bytes
    }

    /// The match that the bytes hold. Bytes that are not the layout of a
    /// match, or that go on behind one, are refused.
    pub fn try_from_slice(input: &[u8]) -> (result: Result<Game, Error>)
        ensures
            match result {
                Ok(game) => parse_game(input@) == Some(game@),
                Err(error) => parse_game(input@) is None && error == Error::SerializationError,
            },
    {
        let (player_1, rest) = match decode_identity(input) {
            Some(taken) => taken,
            None => return Err(Error::SerializationError),
        };
        let (player_2, rest) = match decode_identity(rest) {
            Some(taken) => taken,
            None => return Err(Error::SerializationError),
        };
        let (most_recent, rest) = match decode_optional_identity(rest) {
            Some(taken) => taken,
            None => return Err(Error::SerializationError),
        };
        let (winner, rest) = match decode_optional_identity(rest) {
            Some(taken) => taken,
            None => return Err(Error::SerializationError),
        };
        if rest.len() != 9 {
            return Err(Error::SerializationError);
        }
        let mut grid: [Mark; 9] = [Mark::E;9];
        let mut i: usize = 0;
        while i < 9
            invariant
                i <= 9,
                rest@.len() == 9,
                parse_grid(rest@) is None ==> parse_game(input@) is None,
                forall|k: int| 0 <= k < i ==> #[trigger] rest@[k] <= 2,
                forall|k: int| 0 <= k < i ==> Some(#[trigger] grid@[k]) == mark_of_code(rest@[k]),
            decreases 9 - i,
        {
            match Mark::from_code(rest[i]) {
                Some(mark) => {
                    grid[i] = mark;
                },
                None => {
                    return Err(Error::SerializationError);
                },
            }
            i += 1;
        }
        assert(grid@ =~= parse_grid(rest@)->0);
        Ok(Game::from_parts(player_1, player_2, most_recent, winner, grid))
    }
}

impl Move {
    /// The bytes of the move.
    pub fn try_to_vec(&self) -> (bytes: Vec<u8>)
        ensures
            bytes@ == move_layout(*self),
    {
        let mut bytes = encode_count(self.row);
        let mut col = encode_count(self.col);
        bytes.append(&mut col);
        bytes.push(self.mark.code());
        assert(bytes@ =~= move_layout(*self));
        bytes
    }

    /// The move that the bytes hold. Bytes that are not the layout of a
    /// move, or that go on behind one, are refused.
    pub fn try_from_slice(input: &[u8]) -> (result: Result<Move, Error>)
        ensures
            match result {
                Ok(mv) => parse_move(input@) == Some(mv),
                Err(error) => parse_move(input@) is None && error == Error::SerializationError,
            },
    {
        let (row, rest) = match decode_count(input) {
            Some(taken) => taken,
            None => return Err(Error::SerializationError),
        };
        let (col, rest) = match decode_count(rest) {
            Some(taken) => taken,
            None => return Err(Error::SerializationError),
        };
        if rest.len() != 1 {
            return Err(Error::SerializationError);
        }
        match Mark::from_code(rest[0]) {
            Some(mark) => Ok(Move { row, col, mark }),
            None => Err(Error::SerializationError),
        }
    }
}

proof fn lemma_identity_in_front(id: Seq<u8>, rest: Seq<u8>)
    requires
        id.len() == 32,
    ensures
        take_identity(id + rest) == Some((id, rest)),
{
    let input = id + rest;
    assert(input.subrange(0, 32) =~= id);
    assert(input.subrange(32, input.len() as int) =~= rest);
}

proof fn lemma_optional_identity_in_front(id: Option<Seq<u8>>, rest: Seq<u8>)
    requires
        id matches Some(bytes) ==> bytes.len() == 32,
    ensures
        take_optional_identity(optional_identity_layout(id) + rest) == Some((id, rest)),
{
    let input = optional_identity_layout(id) + rest;
    match id {
        None => {
            assert(input.subrange(1, input.len() as int) =~= rest);
        },
        Some(bytes) => {
            assert(input.subrange(1, input.len() as int) =~= bytes + rest);
            lemma_identity_in_front(bytes, rest);
        },
    }
}

proof fn lemma_count_in_front(count: usize, rest: Seq<u8>)
    ensures
        take_count(spec_u64_to_le_bytes(count as u64) + rest) == Some((count, rest)),
{
    lemma_auto_spec_u64_to_from_le_bytes();
    let front = spec_u64_to_le_bytes(count as u64);
    let input = front + rest;
    assert(input.subrange(0, 8) =~= front);
    assert(input.subrange(8, input.len() as int) =~= rest);
}

/// Decoding undoes encoding: the bytes of a match hold that match, every
/// field of it, and no other.
pub proof fn lemma_game_round_trip(game: GameView)
    requires
        game.well_formed(),
    ensures
        parse_game(game_layout(game)) == Some(game),
{
    let cells = grid_layout(game.grid);
    let after_winner = optional_identity_layout(game.winner) + cells;
    let after_recent = optional_identity_layout(game.most_recent) + after_winner;
    let after_first = game.player_2 + after_recent;
    lemma_identity_in_front(game.player_1, after_first);
    lemma_identity_in_front(game.player_2, after_recent);
    lemma_optional_identity_in_front(game.most_recent, after_winner);
    lemma_optional_identity_in_front(game.winner, cells);
    assert(parse_grid(cells)->0 =~= game.grid);
}

/// A match has one encoding only: bytes that hold a match are the bytes of
/// that match.
pub proof fn lemma_game_layout_is_canonical(input: Seq<u8>, game: GameView)
    requires
        parse_game(input) == Some(game),
    ensures
        game_layout(game) == input,
        game.well_formed(),
{
    let (player_1, after_first) = take_identity(input)->0;
    let (player_2, after_recent) = take_identity(after_first)->0;
    let (most_recent, after_winner) = take_optional_identity(after_recent)->0;
    let (winner, cells) = take_optional_identity(after_winner)->0;
    assert(input =~= player_1 + after_first);
    assert(after_first =~= player_2 + after_recent);
    assert(after_recent =~= optional_identity_layout(most_recent) + after_winner);
    assert(after_winner =~= optional_identity_layout(winner) + cells);
    assert(cells =~= grid_layout(game.grid));
}

/// Decoding undoes encoding for moves too.
pub proof fn lemma_move_round_trip(mv: Move)
    ensures
        parse_move(move_layout(mv)) == Some(mv),
{
    let mark = seq![mark_code(mv.mark)];
    lemma_count_in_front(mv.row, spec_u64_to_le_bytes(mv.col as u64) + mark);
    lemma_count_in_front(mv.col, mark);
}

/// A move has one encoding only.
pub proof fn lemma_move_layout_is_canonical(input: Seq<u8>, mv: Move)
    requires
        parse_move(input) == Some(mv),
    ensures
        move_layout(mv) == input,
{
    lemma_auto_spec_u64_to_from_le_bytes();
    let (row, after_row) = take_count(input)->0;
    let (col, after_col) = take_count(after_row)->0;
    assert(input =~= input.subrange(0, 8) + after_row);
    assert(after_row =~= after_row.subrange(0, 8) + after_col);
    assert(after_col =~= seq![mark_code(mv.mark)]);
}

} // verus!
