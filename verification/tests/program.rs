use noughts_and_crosses::error::ProgramError;
use noughts_and_crosses::game::{Game, Mark, Move};
use noughts_and_crosses::identity::Identity;
use noughts_and_crosses::program::{process_instruction, Account};

const X: Mark = Mark::X;
const O: Mark = Mark::O;
const E: Mark = Mark::E;

fn program() -> Identity {
    Identity::new([9u8; 32])
}

fn player_1() -> Identity {
    Identity::new([1u8; 32])
}

fn player_2() -> Identity {
    Identity::new([2u8; 32])
}

fn game_account(game: &Game) -> Account {
    Account { key: Identity::new([40u8; 32]), owner: program(), data: game.try_to_vec() }
}

fn player_account(player: Identity) -> Account {
    Account { key: player, owner: Identity::new([0u8; 32]), data: vec![] }
}

#[test]
fn a_move_is_applied_and_stored() {
    let game = Game::new(player_1(), player_2());
    let mut accounts = vec![game_account(&game), player_account(player_1())];
    let data = Move { row: 1, col: 1, mark: X }.try_to_vec();
    assert_eq!(process_instruction(&program(), &mut accounts, &data), Ok(()));

    let mut expected = game;
    expected.play(player_1(), 1, 1, X).unwrap();
    assert_eq!(accounts.len(), 2);
    assert_eq!(accounts[0].data, expected.try_to_vec());
    assert_eq!(accounts[0].data.len(), 107);
    assert_eq!(accounts[0].key, Identity::new([40u8; 32]));
    assert_eq!(accounts[0].owner, program());
    assert_eq!(accounts[1], player_account(player_1()));

    let stored = Game::try_from_slice(&accounts[0].data).unwrap();
    assert_eq!(stored.get_cells(), [E, E, E, E, X, E, E, E, E]);
    assert_eq!(stored.get_most_recent(), Some(player_1()));
}

#[test]
fn the_winning_move_stores_the_winner() {
    let game = Game::from_parts(player_1(), player_2(), None, None, [X, X, E, E, E, O, E, O, E]);
    let mut accounts = vec![game_account(&game), player_account(player_1())];
    let data = Move { row: 0, col: 2, mark: X }.try_to_vec();
    assert_eq!(process_instruction(&program(), &mut accounts, &data), Ok(()));
    let stored = Game::try_from_slice(&accounts[0].data).unwrap();
    assert_eq!(stored.get_winner(), Some(player_1()));
    assert_eq!(accounts[0].data.len(), 75 + 32 + 32);

    let before = accounts.clone();
    let data = Move { row: 2, col: 2, mark: O }.try_to_vec();
    assert_eq!(process_instruction(&program(), &mut accounts, &data), Ok(()));
    assert_eq!(accounts, before);
}

#[test]
fn accounts_that_are_missing_are_reported() {
    let data = Move { row: 0, col: 0, mark: X }.try_to_vec();
    let mut none: Vec<Account> = vec![];
    assert_eq!(
        process_instruction(&program(), &mut none, &data),
        Err(ProgramError::NotEnoughAccountKeys)
    );
    let game = Game::new(player_1(), player_2());
    let mut one = vec![game_account(&game)];
    assert_eq!(
        process_instruction(&program(), &mut one, &data),
        Err(ProgramError::NotEnoughAccountKeys)
    );
    assert_eq!(one, vec![game_account(&game)]);
}

#[test]
fn an_account_of_another_program_is_refused() {
    let game = Game::new(player_1(), player_2());
    let mut foreign = game_account(&game);
    foreign.owner = Identity::new([8u8; 32]);
    let data = Move { row: 0, col: 0, mark: X }.try_to_vec();

    let mut accounts = vec![foreign.clone(), player_account(player_1())];
    assert_eq!(
        process_instruction(&program(), &mut accounts, &data),
        Err(ProgramError::IncorrectProgramId)
    );
    assert_eq!(accounts, vec![foreign.clone(), player_account(player_1())]);

    let mut alone = vec![foreign];
    assert_eq!(
        process_instruction(&program(), &mut alone, &data),
        Err(ProgramError::IncorrectProgramId)
    );
}

#[test]
fn data_that_is_no_move_is_refused() {
    let game = Game::new(player_1(), player_2());
    let mut accounts = vec![game_account(&game), player_account(player_1())];
    assert_eq!(
        process_instruction(&program(), &mut accounts, &[1, 2, 3]),
        Err(ProgramError::BorshIoError)
    );
    assert_eq!(accounts[0], game_account(&game));
}

#[test]
fn an_account_that_holds_no_game_is_refused() {
    let mut accounts = vec![
        Account { key: Identity::new([40u8; 32]), owner: program(), data: vec![0u8; 74] },
        player_account(player_1()),
    ];
    let data = Move { row: 0, col: 0, mark: X }.try_to_vec();
    assert_eq!(
        process_instruction(&program(), &mut accounts, &data),
        Err(ProgramError::BorshIoError)
    );
    assert_eq!(accounts[0].data, vec![0u8; 74]);
}

#[test]
fn a_move_outside_the_grid_is_refused_by_the_program() {
    let game = Game::new(player_1(), player_2());
    let mut accounts = vec![game_account(&game), player_account(player_1())];
    let data = Move { row: 0, col: 3, mark: X }.try_to_vec();
    assert_eq!(
        process_instruction(&program(), &mut accounts, &data),
        Err(ProgramError::InvalidMove { row: 0, col: 3 })
    );
    assert_eq!(accounts[0], game_account(&game));
}
