//! The stored recipe, the input that clients send, and the small values that
//! the handlers exchange with them.

use crate::identifier::{id_view, RecipeId};
use vstd::prelude::*;

verus! {

/// The texts held by a list of strings, in order.
pub open spec fn texts(v: Seq<String>) -> Seq<Seq<char>> {
    v.map_values(|s: String| s@)
}

/// Copies a list of strings.
pub fn clone_texts(v: &Vec<String>) -> (copy: Vec<String>)
    ensures
        texts(copy@) == texts(v@),
{
    let mut copy: Vec<String> = Vec::new();
    let mut i: usize = 0;
    while i < v.len()
        invariant
            i <= v.len(),
            copy@.len() == i,
            forall|k: int| 0 <= k < i ==> copy@[k]@ == v@[k]@,
        decreases v.len() - i,
    {
        copy.push(v[i].clone());
        i = i + 1;
    }
    assert(texts(copy@) =~= texts(v@));
    copy
}

/// A recipe as the document store holds it.
///
/// `created` and `updated` are milliseconds since the Unix epoch. `created`
/// is written once, when the recipe is first stored; `updated` is written on
/// every insertion and every change.
#[derive(Debug, PartialEq, Eq)]
pub struct Recipe {
    pub id: Option<RecipeId>,
    pub title: String,
    pub description: String,
    pub steps: Vec<String>,
    pub ingredients: Vec<String>,
    pub email: String,
    pub tags: Vec<String>,
    pub photo_url: String,
    pub created: Option<i64>,
    pub updated: i64,
}

/// The mathematical value of a [`Recipe`].
pub ghost struct RecipeView {
    pub id: Option<Seq<u8>>,
    pub title: Seq<char>,
    pub description: Seq<char>,
    pub steps: Seq<Seq<char>>,
    pub ingredients: Seq<Seq<char>>,
    pub email: Seq<char>,
    pub tags: Seq<Seq<char>>,
    pub photo_url: Seq<char>,
    pub created: Option<i64>,
    pub updated: i64,
}

impl View for Recipe {
    type V = RecipeView;

    open spec fn view(&self) -> RecipeView {
        RecipeView {
            id: id_view(self.id),
            title: self.title@,
            description: self.description@,
            steps: texts(self.steps@),
            ingredients: texts(self.ingredients@),
            email: self.email@,
            tags: texts(self.tags@),
            photo_url: self.photo_url@,
            created: self.created,
            updated: self.updated,
        }
    }
}

impl Clone for Recipe {
    fn clone(&self) -> (copy: Recipe)
        ensures
            copy@ == self@,
    {
        Recipe {
            id: self.id,
            title: self.title.clone(),
            description: self.description.clone(),
            steps: clone_texts(&self.steps),
            ingredients: clone_texts(&self.ingredients),
            email: self.email.clone(),
            tags: clone_texts(&self.tags),
            photo_url: self.photo_url.clone(),
            created: self.created,
            updated: self.updated,
        }
    }
}

/// The values of a list of recipes, in order.
pub open spec fn recipe_views(v: Seq<Recipe>) -> Seq<RecipeView> {
    v.map_values(|r: Recipe| r@)
}

/// What a client sends to create or replace a recipe. The identifier and the
/// two timestamps are not part of it: the service sets them.
#[derive(Debug, PartialEq, Eq)]
pub struct RecipeDTO {
    pub title: String,
    pub description: String,
    pub steps: Vec<String>,
    pub photo_url: String,
    pub ingredients: Vec<String>,
    pub email: String,
    pub tags: Vec<String>,
}

/// The mathematical value of a [`RecipeDTO`].
pub ghost struct RecipeDTOView {
    pub title: Seq<char>,
    pub description: Seq<char>,
    pub steps: Seq<Seq<char>>,
    pub photo_url: Seq<char>,
    pub ingredients: Seq<Seq<char>>,
    pub email: Seq<char>,
    pub tags: Seq<Seq<char>>,
}

impl View for RecipeDTO {
    type V = RecipeDTOView;

    open spec fn view(&self) -> RecipeDTOView {
        RecipeDTOView {
            title: self.title@,
            description: self.description@,
            steps: texts(self.steps@),
            photo_url: self.photo_url@,
            ingredients: texts(self.ingredients@),
            email: self.email@,
            tags: texts(self.tags@),
        }
    }
}

/// The body of a request that changes a recipe's photo.
#[derive(Debug, PartialEq, Eq)]
pub struct PhotoUrlChangeRequest {
    pub photo_url: String,
}

/// A message sent to the client as a JSON object with one field.
#[derive(Debug, PartialEq, Eq)]
pub struct Response {
    pub message: String,
}

/// The query parameters of a paginated listing; both may be left out.
#[derive(Clone, Copy, Debug, PartialEq, Eq)]
pub struct PaginationParams {
    pub page: Option<u32>,
    pub per_page: Option<u32>,
}

/// Whether a recipe is being stored for the first time or replaced.
#[derive(Clone, Copy, Debug, PartialEq, Eq)]
pub enum RecipeStatus {
    Created,
    Updated,
}

} // verus!
