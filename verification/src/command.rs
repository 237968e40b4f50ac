//! What the service asks of the document store, and what the store answers.
//!
//! A command names one operation on the recipe collection. Whoever owns the
//! connection carries it out and hands back a reply; nothing in this crate
//! touches the network.

use crate::identifier::RecipeId;
use crate::model::{clone_texts, recipe_views, texts, Recipe, RecipeView};
use vstd::prelude::*;

verus! {

/// One field of a recipe together with its new value.
///
/// Only the fields that a client may change can be named: the identifier and
/// the two timestamps are out of reach.
#[derive(Debug, PartialEq, Eq)]
pub enum FieldUpdate {
    Title(String),
    Description(String),
    Steps(Vec<String>),
    Ingredients(Vec<String>),
    Email(String),
    Tags(Vec<String>),
    PhotoUrl(String),
}

/// The mathematical value of a [`FieldUpdate`].
pub ghost enum FieldUpdateView {
    Title(Seq<char>),
    Description(Seq<char>),
    Steps(Seq<Seq<char>>),
    Ingredients(Seq<Seq<char>>),
    Email(Seq<char>),
    Tags(Seq<Seq<char>>),
    PhotoUrl(Seq<char>),
}

impl View for FieldUpdate {
    type V = FieldUpdateView;

    open spec fn view(&self) -> FieldUpdateView {
        match self {
            FieldUpdate::Title(t) => FieldUpdateView::Title(t@),
            FieldUpdate::Description(t) => FieldUpdateView::Description(t@),
            FieldUpdate::Steps(l) => FieldUpdateView::Steps(texts(l@)),
            FieldUpdate::Ingredients(l) => FieldUpdateView::Ingredients(texts(l@)),
            FieldUpdate::Email(t) => FieldUpdateView::Email(t@),
            FieldUpdate::Tags(l) => FieldUpdateView::Tags(texts(l@)),
            FieldUpdate::PhotoUrl(t) => FieldUpdateView::PhotoUrl(t@),
        }
    }
}

impl Clone for FieldUpdate {
    fn clone(&self) -> (copy: FieldUpdate)
        ensures
            copy@ == self@,
    {
        match self {
            FieldUpdate::Title(t) => FieldUpdate::Title(t.clone()),
            FieldUpdate::Description(t) => FieldUpdate::Description(t.clone()),
            FieldUpdate::Steps(l) => FieldUpdate::Steps(clone_texts(l)),
            FieldUpdate::Ingredients(l) => FieldUpdate::Ingredients(clone_texts(l)),
            FieldUpdate::Email(t) => FieldUpdate::Email(t.clone()),
            FieldUpdate::Tags(l) => FieldUpdate::Tags(clone_texts(l)),
            FieldUpdate::PhotoUrl(t) => FieldUpdate::PhotoUrl(t.clone()),
        }
    }
}

/// The values of a list of field updates, in order.
pub open spec fn field_views(v: Seq<FieldUpdate>) -> Seq<FieldUpdateView> {
    v.map_values(|f: FieldUpdate| f@)
}

/// The names of the fields that a client may change.
#[derive(Clone, Copy, Debug, PartialEq, Eq)]
pub enum FieldName {
    Title,
    Description,
    Steps,
    Ingredients,
    Email,
    Tags,
    PhotoUrl,
}

impl FieldUpdateView {
    /// The field that the update names.
    pub open spec fn name(self) -> FieldName {
        match self {
            FieldUpdateView::Title(_) => FieldName::Title,
            FieldUpdateView::Description(_) => FieldName::Description,
            FieldUpdateView::Steps(_) => FieldName::Steps,
            FieldUpdateView::Ingredients(_) => FieldName::Ingredients,
            FieldUpdateView::Email(_) => FieldName::Email,
            FieldUpdateView::Tags(_) => FieldName::Tags,
            FieldUpdateView::PhotoUrl(_) => FieldName::PhotoUrl,
        }
    }
}

impl FieldUpdate {
    /// The field that the update names.
    pub fn name(&self) -> (name: FieldName)
        ensures
            name == self@.name(),
    {
        match self {
            FieldUpdate::Title(_) => FieldName::Title,
            FieldUpdate::Description(_) => FieldName::Description,
            FieldUpdate::Steps(_) => FieldName::Steps,
            FieldUpdate::Ingredients(_) => FieldName::Ingredients,
            FieldUpdate::Email(_) => FieldName::Email,
            FieldUpdate::Tags(_) => FieldName::Tags,
            FieldUpdate::PhotoUrl(_) => FieldName::PhotoUrl,
        }
    }
}

/// A recipe after one field has been set.
pub open spec fn set_field(r: RecipeView, f: FieldUpdateView) -> RecipeView {
    match f {
        FieldUpdateView::Title(t) => RecipeView { title: t, ..r },
        FieldUpdateView::Description(t) => RecipeView { description: t, ..r },
        FieldUpdateView::Steps(l) => RecipeView { steps: l, ..r },
        FieldUpdateView::Ingredients(l) => RecipeView { ingredients: l, ..r },
        FieldUpdateView::Email(t) => RecipeView { email: t, ..r },
        FieldUpdateView::Tags(l) => RecipeView { tags: l, ..r },
        FieldUpdateView::PhotoUrl(t) => RecipeView { photo_url: t, ..r },
    }
}

/// A recipe after a list of fields has been set, the first of the list
/// first: where a field is named twice, the later value stays.
pub open spec fn set_fields(r: RecipeView, fields: Seq<FieldUpdateView>) -> RecipeView
    decreases fields.len(),
{
    if fields.len() == 0 {
        r
    } else {
        set_field(set_fields(r, fields.drop_last()), fields.last())
    }
}

/// The updates that set every field a client may change to the value that
/// `recipe` holds, in the order of the field names.
pub open spec fn all_fields(recipe: RecipeView) -> Seq<FieldUpdateView> {
    seq![
        FieldUpdateView::Title(recipe.title),
        FieldUpdateView::Description(recipe.description),
        FieldUpdateView::Steps(recipe.steps),
        FieldUpdateView::Ingredients(recipe.ingredients),
        FieldUpdateView::Email(recipe.email),
        FieldUpdateView::Tags(recipe.tags),
        FieldUpdateView::PhotoUrl(recipe.photo_url),
    ]
}

/// The stored recipe `before` with every field a client may change taken
/// from `recipe`: the identifier and both timestamps stay those of `before`.
pub open spec fn with_client_fields(before: RecipeView, recipe: RecipeView) -> RecipeView {
    RecipeView {
        title: recipe.title,
        description: recipe.description,
        steps: recipe.steps,
        ingredients: recipe.ingredients,
        email: recipe.email,
        tags: recipe.tags,
        photo_url: recipe.photo_url,
        ..before
    }
}

/// The stored recipe `before` after it has been replaced by `recipe` at the
/// time `now`: the client's fields are those of `recipe`, `updated` is `now`,
/// and the identifier and the creation time are those of `before`.
pub open spec fn replaced(before: RecipeView, recipe: RecipeView, now: i64) -> RecipeView {
    RecipeView { updated: now, ..with_client_fields(before, recipe) }
}

/// Setting all fields of `recipe` on a stored recipe gives the stored recipe
/// with the client's fields of `recipe`, whatever identifier and timestamps
/// `recipe` itself carries.
pub proof fn lemma_all_fields_set(before: RecipeView, recipe: RecipeView)
    ensures
        set_fields(before, all_fields(recipe)) == with_client_fields(before, recipe),
{
    let f = all_fields(recipe);
    let f6 = f.drop_last();
    let f5 = f6.drop_last();
    let f4 = f5.drop_last();
    let f3 = f4.drop_last();
    let f2 = f3.drop_last();
    let f1 = f2.drop_last();
    let f0 = f1.drop_last();
    assert(f0.len() == 0);
    assert(set_fields(before, f0) == before);
    assert(set_fields(before, f1) == set_field(before, f[0]));
    assert(set_fields(before, f2) == set_field(set_fields(before, f1), f[1]));
    assert(set_fields(before, f3) == set_field(set_fields(before, f2), f[2]));
    assert(set_fields(before, f4) == set_field(set_fields(before, f3), f[3]));
    assert(set_fields(before, f5) == set_field(set_fields(before, f4), f[4]));
    assert(set_fields(before, f6) == set_field(set_fields(before, f5), f[5]));
    assert(set_fields(before, f) == set_field(set_fields(before, f6), f[6]));
}

/// Whether two recipes agree on the field of the given name.
pub open spec fn same_field(a: RecipeView, b: RecipeView, name: FieldName) -> bool {
    match name {
        FieldName::Title => a.title == b.title,
        FieldName::Description => a.description == b.description,
        FieldName::Steps => a.steps == b.steps,
        FieldName::Ingredients => a.ingredients == b.ingredients,
        FieldName::Email => a.email == b.email,
        FieldName::Tags => a.tags == b.tags,
        FieldName::PhotoUrl => a.photo_url == b.photo_url,
    }
}

/// Whether a list of updates names the given field.
pub open spec fn names_field(fields: Seq<FieldUpdateView>, name: FieldName) -> bool {
    exists|i: int| 0 <= i < fields.len() && (#[trigger] fields[i]).name() == name
}

/// Why the store did not carry out a command.
#[derive(Debug, PartialEq, Eq)]
pub enum StoreError {
    /// An insertion found its identifier already in the collection.
    DuplicateKey,
    /// The store answered with something that the command cannot produce.
    UnexpectedReply,
    /// The connection or the store itself failed; the text is the driver's.
    Driver(String),
}

/// The mathematical value of a [`StoreError`].
pub ghost enum StoreErrorView {
    DuplicateKey,
    UnexpectedReply,
    Driver(Seq<char>),
}

impl View for StoreError {
    type V = StoreErrorView;

    open spec fn view(&self) -> StoreErrorView {
        match self {
            StoreError::DuplicateKey => StoreErrorView::DuplicateKey,
            StoreError::UnexpectedReply => StoreErrorView::UnexpectedReply,
            StoreError::Driver(text) => StoreErrorView::Driver(text@),
        }
    }
}

impl StoreErrorView {
    /// The text that is shown for the error.
    pub open spec fn message(self) -> Seq<char> {
        match self {
            StoreErrorView::DuplicateKey => "duplicate key"@,
            StoreErrorView::UnexpectedReply => "unexpected reply from the store"@,
            StoreErrorView::Driver(text) => text,
        }
    }
}

impl StoreError {
    /// The text that is shown for the error; a driver's error is shown as the
    /// driver worded it.
    pub fn message(&self) -> (text: String)
        ensures
            text@ == self@.message(),
    {
        match self {
            StoreError::DuplicateKey => String::from_str("duplicate key"),
            StoreError::UnexpectedReply => String::from_str("unexpected reply from the store"),
            StoreError::Driver(text) => text.clone(),
        }
    }
}

/// One operation on the recipe collection.
#[derive(Debug, PartialEq, Eq)]
pub enum StoreCommand {
    /// Append a document; the store assigns an identifier if it has none.
    InsertOne { recipe: Recipe },
    /// Look up the document with the identifier.
    FindOne { id: RecipeId },
    /// List the documents whose owner email is exactly `email`.
    FindByEmail { email: String },
    /// List at most `limit` documents after the first `skip`, in store order.
    FindPage { skip: u64, limit: u32 },
    /// Set the listed fields and `updated` on the document with the
    /// identifier and hand back the changed document.
    FindOneAndUpdate { id: RecipeId, fields: Vec<FieldUpdate>, updated: i64 },
    /// Remove the document with the identifier and hand it back.
    FindOneAndDelete { id: RecipeId },
}

/// The mathematical value of a [`StoreCommand`].
pub ghost enum StoreCommandView {
    InsertOne { recipe: RecipeView },
    FindOne { id: Seq<u8> },
    FindByEmail { email: Seq<char> },
    FindPage { skip: u64, limit: u32 },
    FindOneAndUpdate { id: Seq<u8>, fields: Seq<FieldUpdateView>, updated: i64 },
    FindOneAndDelete { id: Seq<u8> },
}

impl View for StoreCommand {
    type V = StoreCommandView;

    open spec fn view(&self) -> StoreCommandView {
        match self {
            StoreCommand::InsertOne { recipe } => StoreCommandView::InsertOne { recipe: recipe@ },
            StoreCommand::FindOne { id } => StoreCommandView::FindOne { id: id@ },
            StoreCommand::FindByEmail { email } => StoreCommandView::FindByEmail { email: email@ },
            StoreCommand::FindPage { skip, limit } => StoreCommandView::FindPage {
                skip: *skip,
                limit: *limit,
            },
            StoreCommand::FindOneAndUpdate {
                id,
                fields,
                updated,
            } => StoreCommandView::FindOneAndUpdate {
                id: id@,
                fields: field_views(fields@),
                updated: *updated,
            },
            StoreCommand::FindOneAndDelete { id } => StoreCommandView::FindOneAndDelete { id: id@ },
        }
    }
}

/// What the store answers to a command.
#[derive(Debug, PartialEq, Eq)]
pub enum StoreReply {
    /// The document was appended under this identifier.
    Inserted { id: RecipeId },
    /// The one document that the command concerns, if there is one.
    Document { found: Option<Recipe> },
    /// The documents that the command lists, in store order.
    Documents { list: Vec<Recipe> },
    /// The command was not carried out.
    Failed { error: StoreError },
}

/// The mathematical value of a [`StoreReply`].
pub ghost enum StoreReplyView {
    Inserted { id: Seq<u8> },
    Document { found: Option<RecipeView> },
    Documents { list: Seq<RecipeView> },
    Failed { error: StoreErrorView },
}

/// The value of an optional recipe.
pub open spec fn recipe_option_view(found: Option<Recipe>) -> Option<RecipeView> {
    match found {
        Some(r) => Some(r@),
        None => None,
    }
}

impl View for StoreReply {
    type V = StoreReplyView;

    open spec fn view(&self) -> StoreReplyView {
        match self {
            StoreReply::Inserted { id } => StoreReplyView::Inserted { id: id@ },
            StoreReply::Document { found } => StoreReplyView::Document {
                found: recipe_option_view(*found),
            },
            StoreReply::Documents { list } => StoreReplyView::Documents {
                list: recipe_views(list@),
            },
            StoreReply::Failed { error } => StoreReplyView::Failed { error: error@ },
        }
    }
}

} // verus!
