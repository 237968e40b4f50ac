//! Turning a client's input into the recipe that is stored.

use crate::clock::now_millis;
use crate::identifier::{id_view, RecipeId};
use crate::model::{Recipe, RecipeDTO, RecipeDTOView, RecipeStatus, RecipeView};
use vstd::prelude::*;

verus! {

/// The recipe made from an input at the time `now`.
///
/// Every field of the input is taken over and the identifier is passed
/// through. A created recipe gets `now` as both timestamps. An updated one
/// gets `now` as `updated` and no `created`: the mapping does not know when
/// the recipe was first stored. The repository writes neither the identifier
/// nor `created` when it replaces a recipe, so the stored values stay.
pub open spec fn mapped(
    dto: RecipeDTOView,
    id: Option<Seq<u8>>,
    status: RecipeStatus,
    now: i64,
) -> RecipeView {
    RecipeView {
        id,
        title: dto.title,
        description: dto.description,
        steps: dto.steps,
        ingredients: dto.ingredients,
        email: dto.email,
        tags: dto.tags,
        photo_url: dto.photo_url,
        created: match status {
            RecipeStatus::Created => Some(now),
            RecipeStatus::Updated => None,
        },
        updated: now,
    }
}

/// Whether a recipe holds every field of an input as the input gave it.
pub open spec fn carries(recipe: RecipeView, dto: RecipeDTOView) -> bool {
    &&& recipe.title == dto.title
    &&& recipe.description == dto.description
    &&& recipe.steps == dto.steps
    &&& recipe.ingredients == dto.ingredients
    &&& recipe.email == dto.email
    &&& recipe.tags == dto.tags
    &&& recipe.photo_url == dto.photo_url
}

/// Maps an input to a recipe, with `now` as the time of the mapping.
pub fn map_input_dto_at(
    input_recipe_dto: RecipeDTO,
    id: Option<RecipeId>,
    status: RecipeStatus,
    now: i64,
) -> (recipe: Recipe)
    ensures
        recipe@ == mapped(input_recipe_dto@, id_view(id), status, now),
        carries(recipe@, input_recipe_dto@),
{
    let created = match status {
        RecipeStatus::Created => Some(now),
        RecipeStatus::Updated => None,
    };
    Recipe {
        id,
        title: input_recipe_dto.title,
        photo_url: input_recipe_dto.photo_url,
        description: input_recipe_dto.description,
        steps: input_recipe_dto.steps,
        ingredients: input_recipe_dto.ingredients,
        email: input_recipe_dto.email,
        tags: input_recipe_dto.tags,
        created,
        updated: now,
    }
}

/// Maps an input to a recipe at the current time.
///
/// The clock decides which time is used; whatever it reads, the result is the
/// mapping of the input at that one time.
pub fn map_input_dto(input_recipe_dto: RecipeDTO, id: Option<RecipeId>, status: RecipeStatus) -> (recipe:
    Recipe)
    ensures
        exists|now: i64| recipe@ == mapped(input_recipe_dto@, id_view(id), status, now),
        carries(recipe@, input_recipe_dto@),
{
    let now = now_millis();
    map_input_dto_at(input_recipe_dto, id, status, now)
}

/// A mapped recipe never has a creation time later than its last update.
pub proof fn lemma_mapped_created_not_after_updated(
    dto: RecipeDTOView,
    id: Option<Seq<u8>>,
    status: RecipeStatus,
    now: i64,
)
    ensures
        mapped(dto, id, status, now).created matches Some(c) ==> c <= mapped(
            dto,
            id,
            status,
            now,
        ).updated,
        status == RecipeStatus::Created <==> mapped(dto, id, status, now).created.is_some(),
{
}

} // verus!
