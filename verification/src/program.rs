//! The instruction that the ledger runs for each move.

use vstd::prelude::*;
use crate::codec::{game_layout, parse_game, parse_move};
use crate::error::ProgramError;
use crate::game::{in_grid, Game, GameError, Move};
use crate::identity::Identity;

verus! {

/// What the program sees of an account that an instruction names.
#[derive(Clone, Debug, PartialEq, Eq)]
pub struct Account {
    /// The address of the account.
    pub key: Identity,
    /// The program that the account belongs to.
    pub owner: Identity,
    /// The bytes that the account stores.
    pub data: Vec<u8>,
}

/// What an instruction comes to: the bytes that the account of the match
/// stores afterwards, or the reason why nothing is stored.
///
/// The first account is the match and must belong to the program; the second
/// is the player who moves; the data is the move.
pub open spec fn instruction_outcome(
    program: Seq<u8>,
    accounts: Seq<Account>,
    data: Seq<u8>,
) -> Result<Seq<u8>, ProgramError> {
    if accounts.len() < 1 {
        Err(ProgramError::NotEnoughAccountKeys)
    } else if accounts[0].owner@ != program {
        Err(ProgramError::IncorrectProgramId)
    } else if accounts.len() < 2 {
        Err(ProgramError::NotEnoughAccountKeys)
    } else {
        match (parse_move(data), parse_game(accounts[0].data@)) {
            (Some(mv), Some(game)) => if !game.is_over() && !in_grid(mv.row as int, mv.col as int) {
                Err(ProgramError::InvalidMove { row: mv.row, col: mv.col })
            } else {
                Ok(
                    game_layout(
                        game.after_play(accounts[1].key@, mv.row as int, mv.col as int, mv.mark),
                    ),
                )
            },
            _ => Err(ProgramError::BorshIoError),
        }
    }
}

/// Applies the move in `data`, made by the player of the second account, to
/// the match stored in the first account, and stores the match again. Where
/// the instruction is refused, every account stays as it was.
pub fn process_instruction(program_pk: &Identity, accounts: &mut Vec<Account>, data: &[u8]) -> (result:
    Result<(), ProgramError>)
    ensures
        match instruction_outcome(program_pk@, old(accounts)@, data@) {
            Ok(stored) => {
                &&& result is Ok
                &&& final(accounts)@.len() == old(accounts)@.len()
                &&& final(accounts)@[0].key == old(accounts)@[0].key
                &&& final(accounts)@[0].owner == old(accounts)@[0].owner
                &&& final(accounts)@[0].data@ == stored
                &&& forall|i: int|
                    1 <= i < old(accounts)@.len() ==> final(accounts)@[i] == old(accounts)@[i]
            },
            Err(error) => result == Err::<(), ProgramError>(error) && *final(accounts) == *old(
                accounts,
            ),
        },
{
    if accounts.len() < 1 {
        return Err(ProgramError::NotEnoughAccountKeys);
    }
    if !accounts[0].owner.same_as(program_pk) {
        return Err(ProgramError::IncorrectProgramId);
    }
    if accounts.len() < 2 {
        return Err(ProgramError::NotEnoughAccountKeys);
    }
    let player = accounts[1].key;
    let mv = match Move::try_from_slice(data) {
        Ok(mv) => mv,
        Err(_) => return Err(ProgramError::BorshIoError),
    };
    let mut game = match Game::try_from_slice(accounts[0].data.as_slice()) {
        Ok(game) => game,
        Err(_) => return Err(ProgramError::BorshIoError),
    };
    match game.play(player, mv.row, mv.col, mv.mark) {
        Ok(()) => {},
        Err(GameError::InvalidMove { row, col }) => {
            return Err(ProgramError::InvalidMove { row, col });
        },
    }
    let stored = Account { key: accounts[0].key, owner: accounts[0].owner, data: game.try_to_vec() };
    accounts.set(0, stored);
    Ok(())
}

} // verus!
