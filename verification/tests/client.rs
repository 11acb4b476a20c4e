use noughts_and_crosses::client::{seed_from_texts, Client, CreateAction, CreateEvent, Submission};
use noughts_and_crosses::error::{AddressError, Error};
use noughts_and_crosses::game::{Game, Mark, Move};
use noughts_and_crosses::identity::Identity;
use noughts_and_crosses::instruction::{AccountMeta, Instruction};
use solana_program::pubkey::Pubkey;

const SEED: &str = "CktRuQ2mtt-4vJ9JU1bJJ-4vJ9JU1bJJ";

fn player_1() -> Identity {
    Identity::new([1u8; 32])
}

fn player_2() -> Identity {
    Identity::new([2u8; 32])
}

fn organizer() -> Identity {
    Identity::new([3u8; 32])
}

fn program() -> Identity {
    Identity::new([9u8; 32])
}

fn client() -> Client {
    Client::new(player_1(), player_2(), organizer(), program())
}

fn address() -> Identity {
    let derived = Pubkey::create_with_seed(
        &Pubkey::new_from_array([3u8; 32]),
        SEED,
        &Pubkey::new_from_array([9u8; 32]),
    )
    .unwrap();
    Identity::new(derived.to_bytes())
}

#[test]
fn the_seed_takes_ten_characters_of_each_text() {
    assert_eq!(
        seed_from_texts("abcdefghijklmnop", "0123456789"),
        "abcdefghij-0123456789-0123456789"
    );
    assert_eq!(
        seed_from_texts("\u{e9}\u{e9}\u{e9}\u{e9}\u{e9}\u{e9}\u{e9}\u{e9}\u{e9}\u{e9}\u{e9}z", "ABCDEFGHIJKL"),
        "\u{e9}\u{e9}\u{e9}\u{e9}\u{e9}\u{e9}\u{e9}\u{e9}\u{e9}\u{e9}-ABCDEFGHIJ-ABCDEFGHIJ"
    );
}

#[test]
fn the_seed_is_made_of_organizer_and_first_player() {
    assert_eq!(organizer().to_text(), "CktRuQ2mttgRGkXJtyksdKHjUdc2C4TgDzyB98oEzy8");
    assert_eq!(player_1().to_text(), "4vJ9JU1bJJE96FWSJKvHsmmFADCg4gpZQff4P3bkLKi");
    assert_eq!(client().get_seed(), Some(SEED.to_string()));
    assert_eq!(SEED.len(), 32);
}

#[test]
fn the_second_player_takes_no_part_in_the_address() {
    let other = Client::new(player_1(), Identity::new([77u8; 32]), organizer(), program());
    assert_eq!(other.get_seed(), client().get_seed());
    assert_eq!(other.derive_pubkey(), client().derive_pubkey());
    let swapped = Client::new(player_2(), player_1(), organizer(), program());
    assert_ne!(swapped.derive_pubkey(), client().derive_pubkey());
}

#[test]
fn the_address_is_derived_from_organizer_seed_and_program() {
    assert_eq!(client().derive_pubkey(), Ok(address()));
    let other_program = Client::new(player_1(), player_2(), organizer(), Identity::new([8u8; 32]));
    assert_ne!(other_program.derive_pubkey(), Ok(address()));
    let other_organizer = Client::new(player_1(), player_2(), player_2(), program());
    assert_ne!(other_organizer.derive_pubkey(), Ok(address()));
}

#[test]
fn a_reserved_program_gives_no_address() {
    let mut bytes = [0u8; 32];
    bytes[11..].copy_from_slice(b"ProgramDerivedAddress");
    let client = Client::new(player_1(), player_2(), organizer(), Identity::new(bytes));
    let refused = Error::AddressError(AddressError::IllegalOwner);
    assert_eq!(client.derive_pubkey(), Err(Error::AddressError(AddressError::IllegalOwner)));
    assert_eq!(client.create_game(CreateEvent::Start), Err(Error::AddressError(AddressError::IllegalOwner)));
    assert_eq!(client.create_game(CreateEvent::Rent(5)), Err(Error::AddressError(AddressError::IllegalOwner)));
    assert_eq!(client.play(&player_1(), 0, 0, Mark::X), Err(refused));
}

#[test]
fn a_new_game_needs_75_bytes() {
    assert_eq!(client().get_schema_data_size(), Ok(75));
    assert_eq!(Game::new(player_1(), player_2()).try_to_vec().len(), 75);
}

#[test]
fn creating_starts_with_a_lookup() {
    assert_eq!(client().create_game(CreateEvent::Start), Ok(CreateAction::Lookup(address())));
}

#[test]
fn an_account_that_exists_is_left_alone() {
    assert_eq!(client().create_game(CreateEvent::AccountFound), Ok(CreateAction::Done(address())));
}

#[test]
fn a_missing_account_is_sized_first() {
    assert_eq!(client().create_game(CreateEvent::AccountMissing), Ok(CreateAction::QueryRent(75)));
}

#[test]
fn the_account_is_funded_with_ten_times_the_minimum() {
    let expected = solana_sdk::system_instruction::create_account_with_seed(
        &Pubkey::new_from_array([3u8; 32]),
        &Pubkey::new_from_array(address().to_bytes()),
        &Pubkey::new_from_array([3u8; 32]),
        SEED,
        14_135_400,
        75,
        &Pubkey::new_from_array([9u8; 32]),
    );
    let action = client().create_game(CreateEvent::Rent(1_413_540)).unwrap();
    match action {
        CreateAction::Submit(Submission { instruction, payer }) => {
            assert_eq!(payer, organizer());
            assert_eq!(instruction.program_id, Identity::new([0u8; 32]));
            assert_eq!(
                instruction.accounts,
                vec![
                    AccountMeta { pubkey: organizer(), is_signer: true, is_writable: true },
                    AccountMeta { pubkey: address(), is_signer: false, is_writable: true },
                    AccountMeta { pubkey: organizer(), is_signer: true, is_writable: false },
                ]
            );
            assert_eq!(instruction.data, expected.data);
            assert_eq!(instruction.data[44..76].to_vec(), SEED.as_bytes().to_vec());
            assert_eq!(instruction.data[76..84].to_vec(), 14_135_400u64.to_le_bytes().to_vec());
            assert_eq!(instruction.data[84..92].to_vec(), 75u64.to_le_bytes().to_vec());
        }
        other => panic!("unexpected action {:?}", other),
    }
}

#[test]
fn the_largest_minimum_that_can_be_funded() {
    let action = client().create_game(CreateEvent::Rent(u64::MAX / 10)).unwrap();
    match action {
        CreateAction::Submit(submission) => {
            let lamports = (u64::MAX / 10) * 10;
            assert_eq!(submission.instruction.data[76..84].to_vec(), lamports.to_le_bytes().to_vec());
        }
        other => panic!("unexpected action {:?}", other),
    }
    assert!(client().create_game(CreateEvent::Rent(0)).is_ok());
}

#[test]
fn a_confirmed_creation_is_done() {
    assert_eq!(client().create_game(CreateEvent::Confirmed), Ok(CreateAction::Done(address())));
}

#[test]
fn a_move_is_submitted_to_the_program() {
    let submission = client().play(&player_2(), 2, 1, Mark::O).unwrap();
    assert_eq!(submission.payer, organizer());
    assert_eq!(
        submission.instruction,
        Instruction {
            program_id: program(),
            accounts: vec![
                AccountMeta { pubkey: address(), is_signer: false, is_writable: true },
                AccountMeta { pubkey: player_2(), is_signer: false, is_writable: true },
            ],
            data: vec![2, 0, 0, 0, 0, 0, 0, 0, 1, 0, 0, 0, 0, 0, 0, 0, 2],
        }
    );
    assert_eq!(submission.instruction.data, Move { row: 2, col: 1, mark: Mark::O }.try_to_vec());
}

#[test]
fn a_move_outside_the_grid_is_still_submitted() {
    let submission = client().play(&player_1(), 7, 9, Mark::X).unwrap();
    assert_eq!(submission.instruction.data, Move { row: 7, col: 9, mark: Mark::X }.try_to_vec());
}

#[test]
fn the_state_of_a_game_is_read_from_its_account() {
    let mut game = Game::from_parts(
        player_1(),
        player_2(),
        None,
        None,
        [Mark::X, Mark::X, Mark::E, Mark::E, Mark::E, Mark::O, Mark::E, Mark::O, Mark::E],
    );
    let open = game.try_to_vec();
    assert_eq!(client().is_over(&open), Ok(false));
    assert_eq!(client().get_winner(&open), Ok(None));
    assert_eq!(
        client().get_grid(&open),
        Ok(vec![
            vec![Mark::X, Mark::X, Mark::E],
            vec![Mark::E, Mark::E, Mark::O],
            vec![Mark::E, Mark::O, Mark::E],
        ])
    );

    game.play(player_1(), 0, 2, Mark::X).unwrap();
    let won = game.try_to_vec();
    assert_eq!(client().is_over(&won), Ok(true));
    assert_eq!(client().get_winner(&won), Ok(Some(player_1())));
    assert_eq!(client().get_grid(&won).unwrap()[0], vec![Mark::X, Mark::X, Mark::X]);
}

#[test]
fn an_account_that_holds_no_game_cannot_be_read() {
    assert_eq!(client().is_over(&[0u8; 74]), Err(Error::SerializationError));
    assert_eq!(client().get_winner(&[]), Err(Error::SerializationError));
    assert_eq!(client().get_grid(&[3u8; 75]), Err(Error::SerializationError));
}
