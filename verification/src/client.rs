//! What the client of a match works out before it turns to the ledger, and
//! what it makes of the ledger's answers.

use vstd::prelude::*;
use vstd::string::{StrSliceExecFns, StringExecFns};
use crate::codec::{game_layout, move_layout, parse_game};
use crate::error::{AddressError, Error};
use crate::game::{optional_view, shows_grid, Game, Mark, Move};
use crate::identity::{address_with_seed, base58_text, Identity};
use crate::instruction::{account_creation, AccountMeta, Instruction};

verus! {

/// Number of characters that the seed takes from the text of an identity.
pub const SEED_PART: usize = 10;

/// Number of bytes of a match in which nothing has been played.
pub const NEW_GAME_BYTES: usize = 75;

/// By how much the balance of a new account exceeds the least that the
/// ledger asks for its size.
pub const BALANCE_FACTOR: u64 = 10;

/// The seed for the address of a match: the first ten characters of the
/// organizer's text, then twice those of the first player's, with `-`
/// between the parts.
pub open spec fn seed_of(organizer: Seq<char>, player: Seq<char>) -> Seq<char> {
    organizer.subrange(0, 10) + (seq!['-'] + (player.subrange(0, 10) + (seq!['-']
        + player.subrange(0, 10))))
}

/// The seed made of the texts of two identities, if both texts have ten
/// characters or more.
pub open spec fn seed_of_identities(organizer: Seq<u8>, player: Seq<u8>) -> Option<Seq<char>> {
    if base58_text(organizer).len() >= 10 && base58_text(player).len() >= 10 {
        Some(seed_of(base58_text(organizer), base58_text(player)))
    } else {
        None
    }
}

/// The seed made of two texts of ten characters or more.
pub fn seed_from_texts(organizer: &str, player: &str) -> (seed: String)
    requires
        organizer@.len() >= 10,
        player@.len() >= 10,
    ensures
        seed@ == seed_of(organizer@, player@),
{
    let head = organizer.substring_char(0, SEED_PART);
    let tail = player.substring_char(0, SEED_PART);
    let mut seed = String::from_str(head);
    proof {
        reveal_strlit("-");
    }
    seed.append("-");
    seed.append(tail);
    seed.append("-");
    seed.append(tail);
    assert(seed@ =~= seed_of(organizer@, player@));
    seed
}

/// What is asked of the ledger, and who pays for it and signs it.
#[derive(Clone, Debug, PartialEq, Eq)]
pub struct Submission {
    pub instruction: Instruction,
    pub payer: Identity,
}

/// What the ledger has answered while a match is being created.
#[derive(Clone, Copy, Debug, PartialEq, Eq)]
pub enum CreateEvent {
    /// Nothing has been asked yet.
    Start,
    /// An account exists at the address of the match.
    AccountFound,
    /// No account exists at the address of the match.
    AccountMissing,
    /// The least balance that the ledger asks for the size of a match.
    Rent(u64),
    /// The account has been created.
    Confirmed,
}

/// What the client does next while it creates a match.
#[derive(Clone, Debug, PartialEq, Eq)]
pub enum CreateAction {
    /// Ask the ledger whether an account exists at this address.
    Lookup(Identity),
    /// Ask the ledger for the least balance of an account of this size.
    QueryRent(usize),
    /// Submit this request, which creates the account.
    Submit(Submission),
    /// The match exists at this address.
    Done(Identity),
}

/// The participants of a match and the program that keeps it.
#[derive(Clone, Copy, Debug, PartialEq, Eq)]
pub struct Client {
    player_1: Identity,
    player_2: Identity,
    organizer: Identity,
    program_id: Identity,
}

/// What a client is, apart from how it is stored.
pub struct ClientView {
    pub player_1: Identity,
    pub player_2: Identity,
    pub organizer: Identity,
    pub program_id: Identity,
}

impl ClientView {
    /// The seed for the address of the match. The second player takes no part
    /// in it: two matches of one organizer with the same first player share
    /// an address.
    pub open spec fn seed(self) -> Option<Seq<char>> {
        seed_of_identities(self.organizer@, self.player_1@)
    }

    /// The address of the match, derived from the organizer, the seed and the
    /// program. Where there is no seed, the seeds are reported as invalid.
    pub open spec fn address(self) -> Result<Seq<u8>, Error> {
        match self.seed() {
            None => Err(Error::AddressError(AddressError::InvalidSeeds)),
            Some(seed) => match address_with_seed(self.organizer@, seed, self.program_id@) {
                Ok(address) => Ok(address),
                Err(error) => Err(Error::AddressError(error)),
            },
        }
    }

    /// What the client does on an answer of the ledger while it creates the
    /// match at `address`: it looks the account up; where there is one, or
    /// once it has been created, the match exists; where there is none, it
    /// asks what an account of the size of a new match must hold, and then
    /// has the organizer pay ten times that for the account.
    pub open spec fn creates(self, address: Seq<u8>, event: CreateEvent, action: CreateAction) -> bool {
        match event {
            CreateEvent::Start => action matches CreateAction::Lookup(at) && at@ == address,
            CreateEvent::AccountFound | CreateEvent::Confirmed => action matches CreateAction::Done(
                at,
            ) && at@ == address,
            CreateEvent::AccountMissing => action == CreateAction::QueryRent(75),
            CreateEvent::Rent(minimum) => {
                &&& action matches CreateAction::Submit(submission)
                &&& submission.payer == self.organizer
                &&& submission.instruction@.accounts.len() == 3
                &&& submission.instruction@.accounts[1].pubkey@ == address
                &&& submission.instruction@ == account_creation(
                    self.organizer,
                    submission.instruction@.accounts[1].pubkey,
                    self.organizer,
                    self.seed()->0,
                    (minimum * 10) as u64,
                    75,
                    self.program_id,
                )
            },
        }
    }

    /// The request by which `player` puts `mark` at `row` and `col` of the
    /// match at `address`: an instruction for the program that names the
    /// match and the player, neither as a signer, and carries the move; the
    /// organizer pays and signs.
    pub open spec fn submits(
        self,
        address: Seq<u8>,
        player: Identity,
        mv: Move,
        submission: Submission,
    ) -> bool {
        &&& submission.payer == self.organizer
        &&& submission.instruction@.program_id == self.program_id@
        &&& submission.instruction@.data == move_layout(mv)
        &&& submission.instruction@.accounts.len() == 2
        &&& submission.instruction@.accounts[0].pubkey@ == address
        &&& !submission.instruction@.accounts[0].is_signer
        &&& submission.instruction@.accounts[0].is_writable
        &&& submission.instruction@.accounts[1] == (AccountMeta {
            pubkey: player,
            is_signer: false,
            is_writable: true,
        })
    }
}

impl View for Client {
    type V = ClientView;

    closed spec fn view(&self) -> ClientView {
        ClientView {
            player_1: self.player_1,
            player_2: self.player_2,
            organizer: self.organizer,
            program_id: self.program_id,
        }
    }
}

impl Client {
    /// The client of a match between two players, paid for by the organizer
    /// and kept by the program.
    pub fn new(player_1: Identity, player_2: Identity, organizer: Identity, program_id: Identity) -> (client:
        Client)
        ensures
            client@ == (ClientView { player_1, player_2, organizer, program_id }),
    {
        Client { player_1, player_2, organizer, program_id }
    }

    /// The seed for the address of the match, or nothing where the text of
    /// an identity is shorter than the part that the seed takes from it.
    pub fn get_seed(&self) -> (seed: Option<String>)
        ensures
            match seed {
                Some(seed) => self@.seed() == Some(seed@),
                None => self@.seed() is None,
            },
    {
        let organizer = self.organizer.to_text();
        let player = self.player_1.to_text();
        if organizer.as_str().unicode_len() >= SEED_PART && player.as_str().unicode_len()
            >= SEED_PART {
            Some(seed_from_texts(organizer.as_str(), player.as_str()))
        } else {
            None
        }
    }

    /// The address at which the ledger keeps the match.
    pub fn derive_pubkey(&self) -> (result: Result<Identity, Error>)
        ensures
            match result {
                Ok(address) => self@.address() == Ok::<Seq<u8>, Error>(address@),
                Err(error) => self@.address() == Err::<Seq<u8>, Error>(error),
            },
    {
        let seed = match self.get_seed() {
            Some(seed) => seed,
            None => return Err(Error::AddressError(AddressError::InvalidSeeds)),
        };
        match Identity::create_with_seed(&self.organizer, seed.as_str(), &self.program_id) {
            Ok(address) => Ok(address),
            Err(error) => Err(Error::AddressError(error)),
        }
    }

    /// One step of creating the match on the ledger: what to do next, given
    /// what the ledger has answered. A match that exists is left as it is.
    pub fn create_game(&self, event: CreateEvent) -> (result: Result<CreateAction, Error>)
        requires
            event matches CreateEvent::Rent(minimum) ==> minimum * 10 <= u64::MAX,
        ensures
            match result {
                Ok(action) => self@.address() is Ok && self@.creates(
                    self@.address()->Ok_0,
                    event,
                    action,
                ),
                Err(error) => self@.address() == Err::<Seq<u8>, Error>(error),
            },
    {
        let address = self.derive_pubkey()?;
        match event {
            CreateEvent::Start => Ok(CreateAction::Lookup(address)),
            CreateEvent::AccountFound => Ok(CreateAction::Done(address)),
            CreateEvent::Confirmed => Ok(CreateAction::Done(address)),
            CreateEvent::AccountMissing => Ok(CreateAction::QueryRent(NEW_GAME_BYTES)),
            CreateEvent::Rent(minimum) => {
                let seed = match self.get_seed() {
                    Some(seed) => seed,
                    None => return Err(Error::AddressError(AddressError::InvalidSeeds)),
                };
                let instruction = Instruction::create_account_with_seed(
                    &self.organizer,
                    &address,
                    &self.organizer,
                    seed.as_str(),
                    minimum * BALANCE_FACTOR,
                    NEW_GAME_BYTES as u64,
                    &self.program_id,
                );
                Ok(CreateAction::Submit(Submission { instruction, payer: self.organizer }))
            },
        }
    }

    /// The request that asks the program to apply a move of `player`.
    pub fn play(&self, player: &Identity, row: usize, col: usize, mark: Mark) -> (result: Result<
        Submission,
        Error,
    >)
        ensures
            match result {
                Ok(submission) => self@.address() is Ok && self@.submits(
                    self@.address()->Ok_0,
                    *player,
                    Move { row, col, mark },
                    submission,
                ),
                Err(error) => self@.address() == Err::<Seq<u8>, Error>(error),
            },
    {
        let address = self.derive_pubkey()?;
        let mv = Move { row, col, mark };
        let data = mv.try_to_vec();
        let mut accounts: Vec<AccountMeta> = Vec::new();
        accounts.push(AccountMeta::new(address, false));
        accounts.push(AccountMeta::new(*player, false));
        let instruction = Instruction::new_with_bytes(self.program_id, data.as_slice(), accounts);
        Ok(Submission { instruction, payer: self.organizer })
    }

    /// Whether the match that the account stores is over.
    pub fn is_over(&self, account_data: &[u8]) -> (result: Result<bool, Error>)
        ensures
            match parse_game(account_data@) {
                Some(game) => result == Ok::<bool, Error>(game.is_over()),
                None => result == Err::<bool, Error>(Error::SerializationError),
            },
    {
        let game = Game::try_from_slice(account_data)?;
        Ok(game.is_over())
    }

    /// The winner of the match that the account stores.
    pub fn get_winner(&self, account_data: &[u8]) -> (result: Result<Option<Identity>, Error>)
        ensures
            match parse_game(account_data@) {
                Some(game) => result matches Ok(winner) && optional_view(winner) == game.winner,
                None => result == Err::<Option<Identity>, Error>(Error::SerializationError),
            },
    {
        let game = Game::try_from_slice(account_data)?;
        Ok(game.get_winner())
    }

    /// The grid of the match that the account stores.
    pub fn get_grid(&self, account_data: &[u8]) -> (result: Result<Vec<Vec<Mark>>, Error>)
        ensures
            match parse_game(account_data@) {
                Some(game) => result matches Ok(rows) && shows_grid(rows@, game.grid),
                None => result == Err::<Vec<Vec<Mark>>, Error>(Error::SerializationError),
            },
    {
        let game = Game::try_from_slice(account_data)?;
        Ok(game.get_grid())
    }

    /// The number of bytes that a match between the two players takes in
    /// which nothing has been played.
    pub fn get_schema_data_size(&self) -> (result: Result<usize, Error>)
        ensures
            result == Ok::<usize, Error>(75),
    {
        let game = Game::new(self.player_1, self.player_2);
        let encoded = game.try_to_vec();
        assert(game_layout(game@).len() == 75);
        Ok(encoded.len())
    }
}

} // verus!
