//! The repository: one command for each operation on the recipe collection,
//! and the reading of the store's replies.
//!
//! An identifier arrives as text. Text that is not an identifier never
//! reaches the store: the operation yields no command, and the caller treats
//! that exactly as a document that was not found.

use crate::clock::now_millis;
use crate::collection::{lemma_all_fields_replace, replaces};
use crate::command::{
    all_fields, field_views, recipe_option_view, FieldUpdate, FieldUpdateView, StoreCommand,
    StoreCommandView, StoreError, StoreErrorView, StoreReply, StoreReplyView,
};
use crate::identifier::{hex_encode, parsed_id, RecipeId};
use crate::model::{recipe_views, Recipe, RecipeView};
use vstd::prelude::*;

verus! {

/// The collections of the database.
#[derive(Clone, Copy, Debug, PartialEq, Eq)]
pub enum CollectionName {
    Recipes,
}

/// The repository of recipes in one database.
#[derive(Debug, PartialEq, Eq)]
pub struct MongoRepo {
    /// Name of the database that holds the collections.
    pub db: String,
}

/// Number of documents that come before the given page: `(page - 1) * per_page`.
pub open spec fn page_skip(page: u32, per_page: u32) -> int {
    (page - 1) * per_page
}

/// The command of an operation that addresses one document by the text of
/// its identifier: none when the text is no identifier.
pub open spec fn addressed(
    text: Seq<char>,
    command: spec_fn(Seq<u8>) -> StoreCommandView,
) -> Option<StoreCommandView> {
    match parsed_id(text) {
        Some(id) => Some(command(id)),
        None => None,
    }
}

/// The value of an optional command.
pub open spec fn command_option_view(command: Option<StoreCommand>) -> Option<StoreCommandView> {
    match command {
        Some(c) => Some(c@),
        None => None,
    }
}

/// The command that sets `fields` on the document named by `text`, stamped
/// with the time `now`.
pub open spec fn update_command(text: Seq<char>, fields: Seq<FieldUpdateView>, now: i64) -> Option<
    StoreCommandView,
> {
    addressed(text, |id: Seq<u8>| StoreCommandView::FindOneAndUpdate { id, fields, updated: now })
}

/// The command that replaces the recipe named by `text`: every field a
/// client may change is set to the value that `recipe` holds, and `updated`
/// to the time `now`. The identifier and the creation time of the stored
/// recipe are not named, so they stay, whatever `recipe` carries in them.
pub open spec fn replace_command(text: Seq<char>, recipe: RecipeView, now: i64) -> Option<
    StoreCommandView,
> {
    update_command(text, all_fields(recipe), now)
}

/// The identifier text or the error that a reply to an insertion stands for.
pub open spec fn inserted_id_of(reply: StoreReplyView) -> Result<Seq<char>, StoreErrorView> {
    match reply {
        StoreReplyView::Inserted { id } => Ok(hex_encode(id)),
        StoreReplyView::Failed { error } => Err(error),
        _ => Err(StoreErrorView::UnexpectedReply),
    }
}

/// The recipe that a reply about one document holds. A failure and a
/// missing document are not told apart.
pub open spec fn recipe_of(reply: StoreReplyView) -> Option<RecipeView> {
    match reply {
        StoreReplyView::Document { found } => found,
        _ => None,
    }
}

/// The recipes or the error that a reply to a listing stands for.
pub open spec fn recipes_of(reply: StoreReplyView) -> Result<Seq<RecipeView>, StoreErrorView> {
    match reply {
        StoreReplyView::Documents { list } => Ok(list),
        StoreReplyView::Failed { error } => Err(error),
        _ => Err(StoreErrorView::UnexpectedReply),
    }
}

/// The photo URL of the recipe that a reply about one document holds.
pub open spec fn img_url_of(reply: StoreReplyView) -> Option<Seq<char>> {
    match recipe_of(reply) {
        Some(recipe) => Some(recipe.photo_url),
        None => None,
    }
}

impl MongoRepo {
    /// The repository of the service's database.
    pub fn init() -> (repo: MongoRepo)
        ensures
            repo.db@ == "alsomeb"@,
    {
        MongoRepo { db: String::from_str("alsomeb") }
    }

    /// The name under which the store knows a collection.
    pub fn collection_switch(data_source: &Self, col_name: CollectionName) -> (name: String)
        ensures
            name@ == "Recipes"@,
    {
        match col_name {
            CollectionName::Recipes => String::from_str("Recipes"),
        }
    }

    /// The command that stores a new recipe.
    pub fn insert_recipe(&self, new_recipe: Recipe) -> (command: StoreCommand)
        ensures
            command@ == (StoreCommandView::InsertOne { recipe: new_recipe@ }),
    {
        StoreCommand::InsertOne { recipe: new_recipe }
    }

    /// Reads the reply to an insertion: the text of the assigned identifier,
    /// or the store's error.
    pub fn inserted_id(reply: StoreReply) -> (outcome: Result<String, StoreError>)
        ensures
            match inserted_id_of(reply@) {
                Ok(text) => outcome matches Ok(t) && t@ == text,
                Err(error) => outcome matches Err(e) && e@ == error,
            },
    {
        match reply {
            StoreReply::Inserted { id } => Ok(id.to_hex()),
            StoreReply::Failed { error } => Err(error),
            _ => Err(StoreError::UnexpectedReply),
        }
    }

    /// Reads the reply to an operation on one document: the document, or
    /// nothing where none matched or the store failed.
    pub fn found_recipe(reply: StoreReply) -> (found: Option<Recipe>)
        ensures
            recipe_option_view(found) == recipe_of(reply@),
    {
        match reply {
            StoreReply::Document { found } => found,
            _ => None,
        }
    }

    /// Reads the reply to a listing: the documents in store order, or the
    /// store's error.
    pub fn found_recipes(reply: StoreReply) -> (outcome: Result<Vec<Recipe>, StoreError>)
        ensures
            match recipes_of(reply@) {
                Ok(list) => outcome matches Ok(l) && recipe_views(l@) == list,
                Err(error) => outcome matches Err(e) && e@ == error,
            },
    {
        match reply {
            StoreReply::Documents { list } => Ok(list),
            StoreReply::Failed { error } => Err(error),
            _ => Err(StoreError::UnexpectedReply),
        }
    }

    /// Reads the photo URL out of the reply to a lookup.
    pub fn found_img_url(reply: StoreReply) -> (url: Option<String>)
        ensures
            match img_url_of(reply@) {
                Some(text) => url matches Some(u) && u@ == text,
                None => url.is_none(),
            },
    {
        match MongoRepo::found_recipe(reply) {
            Some(recipe) => Some(recipe.photo_url),
            None => None,
        }
    }

    /// The command that removes the recipe named by `id`.
    pub fn delete_recipe_by_id(&self, id: &str) -> (command: Option<StoreCommand>)
        ensures
            command_option_view(command) == addressed(
                id@,
                |b: Seq<u8>| StoreCommandView::FindOneAndDelete { id: b },
            ),
    {
        match RecipeId::parse_str(id) {
            Some(obj_id) => Some(StoreCommand::FindOneAndDelete { id: obj_id }),
            None => None,
        }
    }

    /// The command that lists the recipes of one owner.
    pub fn get_recipes_by_email(&self, email: &str) -> (command: StoreCommand)
        ensures
            command@ == (StoreCommandView::FindByEmail { email: email@ }),
    {
        StoreCommand::FindByEmail { email: String::from_str(email) }
    }

    /// The command that replaces the recipe named by `id`, with `now` as the
    /// time of the change. Title, description, steps, ingredients, email,
    /// tags and photo URL are taken from `new_recipe`; its identifier and its
    /// timestamps are not used.
    pub fn update_recipe_by_id_at(&self, id: &str, new_recipe: Recipe, now: i64) -> (command: Option<
        StoreCommand,
    >)
        ensures
            command_option_view(command) == replace_command(id@, new_recipe@, now),
            parsed_id(id@) matches Some(stored_id) ==> replaces(
                command.unwrap()@,
                stored_id,
                new_recipe@,
                now,
            ),
    {
        proof {
            if parsed_id(id@).is_some() {
                lemma_all_fields_replace(parsed_id(id@).unwrap(), new_recipe@, now);
            }
        }
        let mut fields: Vec<FieldUpdate> = Vec::new();
        fields.push(FieldUpdate::Title(new_recipe.title));
        fields.push(FieldUpdate::Description(new_recipe.description));
        fields.push(FieldUpdate::Steps(new_recipe.steps));
        fields.push(FieldUpdate::Ingredients(new_recipe.ingredients));
        fields.push(FieldUpdate::Email(new_recipe.email));
        fields.push(FieldUpdate::Tags(new_recipe.tags));
        fields.push(FieldUpdate::PhotoUrl(new_recipe.photo_url));
        assert(field_views(fields@) =~= all_fields(new_recipe@));
        self.partial_update_by_id_at(id, fields, now)
    }

    /// The command that replaces the recipe named by `id`, stamped with the
    /// current time. Whatever the clock reads, the command replaces the
    /// stored recipe at that one time and keeps its identifier and its
    /// creation time.
    pub fn update_recipe_by_id(&self, id: &str, new_recipe: Recipe) -> (command: Option<
        StoreCommand,
    >)
        ensures
            exists|now: i64|
                {
                    &&& command_option_view(command) == replace_command(id@, new_recipe@, now)
                    &&& parsed_id(id@) matches Some(stored_id) ==> replaces(
                        command.unwrap()@,
                        stored_id,
                        new_recipe@,
                        now,
                    )
                },
    {
        let now = now_millis();
        self.update_recipe_by_id_at(id, new_recipe, now)
    }

    /// The command that sets the listed fields of the recipe named by `id`,
    /// with `now` as the time of the change.
    pub fn partial_update_by_id_at(&self, id: &str, fields: Vec<FieldUpdate>, now: i64) -> (command:
        Option<StoreCommand>)
        ensures
            command_option_view(command) == update_command(id@, field_views(fields@), now),
    {
        match RecipeId::parse_str(id) {
            Some(obj_id) => Some(
                StoreCommand::FindOneAndUpdate { id: obj_id, fields, updated: now },
            ),
            None => None,
        }
    }

    /// The command that sets the listed fields of the recipe named by `id`,
    /// stamped with the current time.
    pub fn partial_update_by_id(&self, id: &str, fields: Vec<FieldUpdate>) -> (command: Option<
        StoreCommand,
    >)
        ensures
            exists|now: i64|
                command_option_view(command) == update_command(id@, field_views(fields@), now),
    {
        let now = now_millis();
        self.partial_update_by_id_at(id, fields, now)
    }

    /// The command that sets the photo URL of the recipe named by `id`.
    pub fn update_recipe_img_url(&self, id: &str, img_url: &str) -> (command: Option<StoreCommand>)
        ensures
            exists|now: i64|
                command_option_view(command) == update_command(
                    id@,
                    seq![FieldUpdateView::PhotoUrl(img_url@)],
                    now,
                ),
    {
        let mut fields: Vec<FieldUpdate> = Vec::new();
        fields.push(FieldUpdate::PhotoUrl(String::from_str(img_url)));
        assert(field_views(fields@) =~= seq![FieldUpdateView::PhotoUrl(img_url@)]);
        self.partial_update_by_id(id, fields)
    }

    /// The command that sets the title of the recipe named by `id`.
    pub fn update_title_by_recipe_id(&self, id: &str, title: &str) -> (command: Option<StoreCommand>)
        ensures
            exists|now: i64|
                command_option_view(command) == update_command(
                    id@,
                    seq![FieldUpdateView::Title(title@)],
                    now,
                ),
    {
        let mut fields: Vec<FieldUpdate> = Vec::new();
        fields.push(FieldUpdate::Title(String::from_str(title)));
        assert(field_views(fields@) =~= seq![FieldUpdateView::Title(title@)]);
        self.partial_update_by_id(id, fields)
    }

    /// The command that looks up the recipe named by `id`.
    pub fn get_recipe_by_id(&self, id: &str) -> (command: Option<StoreCommand>)
        ensures
            command_option_view(command) == addressed(
                id@,
                |b: Seq<u8>| StoreCommandView::FindOne { id: b },
            ),
    {
        match RecipeId::parse_str(id) {
            Some(obj_id) => Some(StoreCommand::FindOne { id: obj_id }),
            None => None,
        }
    }

    /// The command that looks up the recipe whose photo URL is wanted.
    pub fn get_recipe_img_url_by_id(&self, id: &str) -> (command: Option<StoreCommand>)
        ensures
            command_option_view(command) == addressed(
                id@,
                |b: Seq<u8>| StoreCommandView::FindOne { id: b },
            ),
    {
        self.get_recipe_by_id(id)
    }

    /// The command that lists one page of all recipes. Pages are counted
    /// from one.
    pub fn get_all_recipes_pageable(&self, page: u32, per_page: u32) -> (command: StoreCommand)
        requires
            page >= 1,
            per_page >= 1,
        ensures
            command@ == (StoreCommandView::FindPage {
                skip: page_skip(page, per_page) as u64,
                limit: per_page,
            }),
            page_skip(page, per_page) <= u64::MAX,
    {
        let before: u64 = (page - 1) as u64;
        let size: u64 = per_page as u64;
        assert(before * size <= 0xffff_ffff * 0xffff_ffff) by (nonlinear_arith)
            requires
                0 <= before <= 0xffff_ffff,
                0 <= size <= 0xffff_ffff,
        ;
        let skip: u64 = before * size;
        StoreCommand::FindPage { skip, limit: per_page }
    }
}

} // verus!
