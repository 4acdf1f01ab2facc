//! The catalog of games: its records, and what the caller has to do with
//! each request on them. Reading and writing the records is the server's
//! part; who owns a record and who may edit it is decided here.

use vstd::prelude::*;

use crate::error::{Actions, ActionsView, Error, UNAUTHORIZED};
use crate::identity::{caller_id, caller_view, spec_caller_id, User};
use crate::placeholder::Placeholder;

verus! {

/// The state a copy is in.
#[derive(Clone, Copy, Debug, PartialEq, Eq, Structural)]
pub enum Condition {
    Mint,
    Good,
    Fair,
    Poor,
}

/// A game as it is written to the catalog.
#[derive(Clone, Debug, PartialEq, Eq)]
pub struct InsertableGame {
    pub name: String,
    /// The id of the owner. Never taken from the client.
    pub owned_by: i32,
    pub publisher: Option<String>,
    pub year: Option<i16>,
    pub platform: Option<String>,
    pub condition: Option<Condition>,
}

/// The fields of a game that a client wants changed. An absent field is left
/// alone; a field that is present and empty is cleared.
#[derive(Clone, Debug, PartialEq, Eq)]
pub struct ChangesetGame {
    pub name: Option<String>,
    pub publisher: Option<Option<String>>,
    pub year: Option<Option<i16>>,
    pub platform: Option<Option<String>>,
    pub condition: Option<Option<Condition>>,
}

/// A game as it is read from the catalog, with its owner.
#[derive(Clone, Debug, Default, PartialEq, Eq)]
pub struct GameModel {
    pub id: i32,
    pub name: String,
    pub publisher: Option<String>,
    pub year: Option<i16>,
    pub platform: Option<String>,
    pub condition: Option<Condition>,
    pub user: User,
}

/// What the list of games is rendered from.
#[derive(Clone, Debug, PartialEq, Eq)]
pub struct AllGamesTemplate {
    pub games: Vec<GameModel>,
    /// The id of the caller, or the anonymous id.
    pub user_id: i32,
}

/// What one game is rendered from.
#[derive(Clone, Debug, PartialEq, Eq)]
pub struct GameTemplate {
    pub game: GameModel,
    pub editing: bool,
    /// The id of the caller, or the anonymous id.
    pub user_id: i32,
}

/// The query of a game's page.
#[derive(Clone, Copy, Debug, PartialEq, Eq)]
pub struct GetGameQuery {
    pub edit: Option<bool>,
}

/// A game is shown for editing where the query asks for it and the caller is
/// its owner.
pub open spec fn spec_may_edit(edit: Option<bool>, user: Option<User>, owner: i32) -> bool {
    edit == Some(true) && user is Some && user->0.id == owner
}

/// The list of games for a caller.
pub fn get_all_games(games: Vec<GameModel>, user: &Option<User>) -> (list: AllGamesTemplate)
    ensures
        list.games == games,
        list.user_id == spec_caller_id(caller_view(*user)),
{
    AllGamesTemplate { games, user_id: caller_id(user) }
}

/// One game for a caller, editable where the caller asked for it and owns
/// the game.
pub fn get_game(game: GameModel, edit: GetGameQuery, user: &Option<User>) -> (shown: GameTemplate)
    ensures
        shown.game == game,
        shown.user_id == spec_caller_id(caller_view(*user)),
        shown.editing == spec_may_edit(edit.edit, *user, game.user.id),
{
    let asked = match edit.edit {
        Some(flag) => flag,
        None => false,
    };
    let owns = match user {
        Some(u) => u.id == game.user.id,
        None => false,
    };
    GameTemplate { editing: asked && owns, user_id: caller_id(user), game }
}

/// The record to insert for a new game: the caller becomes its owner. A
/// request without a caller is refused with status 401.
pub fn add_game(user: &Option<User>, new_game: InsertableGame) -> (outcome: Result<
    InsertableGame,
    Error,
>)
    ensures
        match *user {
            Some(u) => outcome == Ok::<InsertableGame, Error>(
                InsertableGame { owned_by: u.id, ..new_game },
            ),
            None => outcome is Err && outcome->Err_0.is_root(
                UNAUTHORIZED,
                "You aren't logged in"@,
                ActionsView::plain(),
            ),
        },
{
    match user {
        Some(u) => {
            let mut owned = new_game;
            owned.owned_by = u.id;
            Ok(owned)
        },
        None => Err(Error::root(UNAUTHORIZED, "You aren't logged in", Actions::default())),
    }
}

/// The record that replaces a game: it is owned by the caller, or by nobody
/// where there is no caller.
pub fn update_game(user: &Option<User>, new_game: InsertableGame) -> (owned: InsertableGame)
    ensures
        owned == (InsertableGame { owned_by: spec_caller_id(caller_view(*user)), ..new_game }),
{
    let mut owned = new_game;
    owned.owned_by = caller_id(user);
    owned
}

/// A game as it is shown after a change: never for editing.
pub fn patch_game(game: GameModel, user: &Option<User>) -> (shown: GameTemplate)
    ensures
        shown.game == game,
        shown.user_id == spec_caller_id(caller_view(*user)),
        !shown.editing,
{
    GameTemplate { game, editing: false, user_id: caller_id(user) }
}

impl Placeholder for InsertableGame {
    fn placeholder() -> (example: InsertableGame)
        ensures
            example.name@ == "Starfield"@,
            example.owned_by == 0,
            example.publisher is Some && example.publisher->0@ == "Bethesda"@,
            example.year == Some(2023i16),
            example.platform is Some && example.platform->0@ == "PC"@,
            example.condition == Some(Condition::Mint),
    {
        InsertableGame {
            name: "Starfield".to_owned(),
            owned_by: 0,
            publisher: Some("Bethesda".to_owned()),
            year: Some(2023),
            platform: Some("PC".to_owned()),
            condition: Some(Condition::Mint),
        }
    }
}

impl Placeholder for ChangesetGame {
    fn placeholder() -> (example: ChangesetGame)
        ensures
            example.name is Some && example.name->0@ == "Starfield"@,
            example.publisher is Some && example.publisher->0 is Some
                && example.publisher->0->0@ == "Bethesda"@,
            example.year == Some(Some(2023i16)),
            example.platform is Some && example.platform->0 is Some
                && example.platform->0->0@ == "PC"@,
            example.condition == Some(Some(Condition::Mint)),
    {
        ChangesetGame {
            name: Some("Starfield".to_owned()),
            publisher: Some(Some("Bethesda".to_owned())),
            year: Some(Some(2023)),
            platform: Some(Some("PC".to_owned())),
            condition: Some(Some(Condition::Mint)),
        }
    }
}

/// The example game as the catalog holds it, owned by the example user.
pub open spec fn is_example_game(game: GameModel) -> bool {
    &&& game.id == 1
    &&& game.name@ == "Starfield"@
    &&& game.publisher is Some && game.publisher->0@ == "Bethesda"@
    &&& game.year == Some(2023i16)
    &&& game.platform is Some && game.platform->0@ == "PC"@
    &&& game.condition == Some(Condition::Mint)
    &&& game.user.id == 1
    &&& game.user.username@ == "johndoe"@
}

impl Placeholder for GameModel {
    fn placeholder() -> (example: GameModel)
        ensures
            is_example_game(example),
    {
        GameModel {
            id: 1,
            name: "Starfield".to_owned(),
            publisher: Some("Bethesda".to_owned()),
            year: Some(2023),
            platform: Some("PC".to_owned()),
            condition: Some(Condition::Mint),
            user: User::placeholder(),
        }
    }
}

impl Placeholder for AllGamesTemplate {
    fn placeholder() -> (example: AllGamesTemplate)
        ensures
            example.games@.len() == 1,
            is_example_game(example.games@[0]),
            example.user_id == 0,
    {
        let mut games: Vec<GameModel> = Vec::new();
        games.push(GameModel::placeholder());
        AllGamesTemplate { games, user_id: 0 }
    }
}

impl Placeholder for GameTemplate {
    fn placeholder() -> (example: GameTemplate)
        ensures
            is_example_game(example.game),
            !example.editing,
            example.user_id == 0,
    {
        GameTemplate { game: GameModel::placeholder(), editing: false, user_id: 0 }
    }
}

} // verus!
