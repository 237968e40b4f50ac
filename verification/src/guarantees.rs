//! What holds of the service as a whole: how the repository's commands and
//! the collection's answers fit together.

use crate::api::{ask_or, no_id_match, recipe_or, StepView};
use crate::collection::{
    find_by_email, find_one, find_page, has_id, lemma_position_finds, lemma_position_is,
    lemma_set_fields_keeps, position, step, stored, updated_document, well_formed,
};
use crate::command::{
    all_fields, lemma_all_fields_set, names_field, same_field, set_field, set_fields,
    replaced, FieldName, FieldUpdateView, StoreCommandView, StoreErrorView,
    StoreReplyView,
};
use crate::identifier::{hex_encode, is_id_text, lemma_hex_round_trip, parsed_id, ID_BYTES};
use crate::model::{RecipeDTOView, RecipeStatus, RecipeView};
use crate::repository::{
    addressed, inserted_id_of, page_skip, recipe_of, recipes_of, replace_command,
};
use crate::util::{carries, mapped};
use vstd::prelude::*;

verus! {

/// The text that an insertion reports always reads back as the identifier
/// under which the document was stored.
pub proof fn lemma_reported_id_reads_back(id: Seq<u8>)
    requires
        id.len() == ID_BYTES,
    ensures
        parsed_id(hex_encode(id)) == Some(id),
{
    lemma_hex_round_trip(id);
}

/// Inserting a recipe made from an input and then looking up the identifier
/// that the insertion reported finds a recipe that holds the input's fields,
/// under that identifier, with a creation time that is not after its last
/// update. An insertion fails only where the identifier is already stored,
/// and then changes nothing.
pub proof fn lemma_insert_then_find(
    docs: Seq<RecipeView>,
    dto: RecipeDTOView,
    now: i64,
    fresh: Seq<u8>,
    later: Seq<u8>,
)
    requires
        well_formed(docs),
        fresh.len() == ID_BYTES,
    ensures
        ({
            let recipe = mapped(dto, None, RecipeStatus::Created, now);
            let (after, reply) = step(docs, StoreCommandView::InsertOne { recipe }, fresh);
            match inserted_id_of(reply) {
                Ok(text) => {
                    let lookup = addressed(text, |b: Seq<u8>| StoreCommandView::FindOne { id: b });
                    &&& !has_id(docs, fresh)
                    &&& lookup == Some(StoreCommandView::FindOne { id: fresh })
                    &&& step(after, lookup.unwrap(), later).0 == after
                    &&& recipe_of(step(after, lookup.unwrap(), later).1) == Some(
                        stored(recipe, fresh),
                    )
                    &&& carries(stored(recipe, fresh), dto)
                    &&& stored(recipe, fresh).created == Some(now)
                    &&& stored(recipe, fresh).created.unwrap() <= stored(recipe, fresh).updated
                },
                Err(error) => {
                    &&& has_id(docs, fresh)
                    &&& error == StoreErrorView::DuplicateKey
                    &&& after == docs
                },
            }
        }),
{
    let recipe = mapped(dto, None, RecipeStatus::Created, now);
    let (after, reply) = step(docs, StoreCommandView::InsertOne { recipe }, fresh);
    lemma_position_finds(docs, fresh);
    if !has_id(docs, fresh) {
        lemma_reported_id_reads_back(fresh);
        assert forall|k: int| 0 <= k < docs.len() implies (#[trigger] after[k]).id != Some(
            fresh,
        ) by {
            assert(after[k] == docs[k]);
        }
        lemma_position_is(after, fresh, docs.len() as int);
    }
}

/// A page holds the documents that follow the `(page - 1) * per_page` before
/// it, in store order, and at most `per_page` of them.
pub proof fn lemma_page_contents(docs: Seq<RecipeView>, page: u32, per_page: u32)
    requires
        page >= 1,
        per_page >= 1,
    ensures
        0 <= page_skip(page, per_page) <= u64::MAX,
        ({
            let skip = page_skip(page, per_page);
            let listed = find_page(docs, skip as u64, per_page);
            &&& listed.len() <= per_page
            &&& listed.len() == if skip >= docs.len() {
                0
            } else if skip + per_page <= docs.len() {
                per_page as int
            } else {
                docs.len() - skip
            }
            &&& forall|k: int| 0 <= k < listed.len() ==> #[trigger] listed[k] == docs[skip + k]
        }),
{
    let before: int = page - 1;
    let size: int = per_page as int;
    assert(0 <= before * size <= 0xffff_ffff * 0xffff_ffff) by (nonlinear_arith)
        requires
            0 <= before <= 0xffff_ffff,
            0 <= size <= 0xffff_ffff,
    ;
}

/// Two different pages of the same size have no document in common.
pub proof fn lemma_pages_disjoint(docs: Seq<RecipeView>, first: u32, second: u32, per_page: u32)
    requires
        well_formed(docs),
        1 <= first < second,
        per_page >= 1,
    ensures
        ({
            let one = find_page(docs, page_skip(first, per_page) as u64, per_page);
            let other = find_page(docs, page_skip(second, per_page) as u64, per_page);
            forall|i: int, j: int|
                0 <= i < one.len() && 0 <= j < other.len() ==> (#[trigger] one[i]).id != (
                #[trigger] other[j]).id
        }),
{
    lemma_page_contents(docs, first, per_page);
    lemma_page_contents(docs, second, per_page);
    let a: int = first - 1;
    let b: int = second - 1;
    let size: int = per_page as int;
    assert(a * size + size <= b * size) by (nonlinear_arith)
        requires
            0 <= a < b,
            size >= 1,
    ;
    let one = find_page(docs, page_skip(first, per_page) as u64, per_page);
    let other = find_page(docs, page_skip(second, per_page) as u64, per_page);
    assert forall|i: int, j: int| 0 <= i < one.len() && 0 <= j < other.len() implies (
    #[trigger] one[i]).id != (#[trigger] other[j]).id by {
        assert(one[i] == docs[a * size + i]);
        assert(other[j] == docs[b * size + j]);
    }
}

/// Setting a list of fields leaves every field that the list does not name
/// as it was.
pub proof fn lemma_unnamed_field_stays(
    before: RecipeView,
    fields: Seq<FieldUpdateView>,
    name: FieldName,
)
    requires
        !names_field(fields, name),
    ensures
        same_field(set_fields(before, fields), before, name),
    decreases fields.len(),
{
    if fields.len() > 0 {
        let front = fields.drop_last();
        assert forall|i: int| 0 <= i < front.len() implies (#[trigger] front[i]).name() != name by {
            assert(front[i] == fields[i]);
        }
        lemma_unnamed_field_stays(before, front, name);
        assert(fields[fields.len() - 1].name() != name);
    }
}

/// Setting a list of fields gives each named field the value of the last
/// entry that names it.
pub proof fn lemma_last_named_value_stays(
    before: RecipeView,
    fields: Seq<FieldUpdateView>,
    at: int,
)
    requires
        0 <= at < fields.len(),
        forall|j: int| at < j < fields.len() ==> (#[trigger] fields[j]).name() != fields[at].name(),
    ensures
        same_field(set_fields(before, fields), set_field(before, fields[at]), fields[at].name()),
    decreases fields.len(),
{
    if at < fields.len() - 1 {
        let front = fields.drop_last();
        assert(front[at] == fields[at]);
        assert forall|j: int| at < j < front.len() implies (#[trigger] front[j]).name()
            != front[at].name() by {
            assert(front[j] == fields[j]);
        }
        lemma_last_named_value_stays(before, front, at);
        assert(fields[fields.len() - 1].name() != fields[at].name());
    }
}

/// A partial update changes the named fields and `updated` of the one
/// document it addresses, and nothing else: the identifier, the creation
/// time, every field that is not named and every other document stay as they
/// were. The changed document is the answer. Where the time of the update is
/// later than the last one, `updated` grows.
pub proof fn lemma_partial_update_changes_only_named(
    docs: Seq<RecipeView>,
    id: Seq<u8>,
    fields: Seq<FieldUpdateView>,
    now: i64,
    fresh: Seq<u8>,
)
    requires
        well_formed(docs),
        has_id(docs, id),
    ensures
        ({
            let at = position(docs, id);
            let before = docs[at];
            let command = StoreCommandView::FindOneAndUpdate { id, fields, updated: now };
            let (after, reply) = step(docs, command, fresh);
            let changed = updated_document(before, fields, now);
            &&& recipe_of(reply) == Some(changed)
            &&& after.len() == docs.len()
            &&& after[at] == changed
            &&& forall|k: int| 0 <= k < docs.len() && k != at ==> #[trigger] after[k] == docs[k]
            &&& changed.id == Some(id)
            &&& changed.created == before.created
            &&& changed.updated == now
            &&& before.updated < now ==> before.updated < changed.updated
            &&& forall|name: FieldName|
                !names_field(fields, name) ==> #[trigger] same_field(changed, before, name)
            &&& forall|i: int|
                0 <= i < fields.len() && (forall|j: int|
                    i < j < fields.len() ==> (#[trigger] fields[j]).name() != fields[i].name())
                    ==> same_field(changed, set_field(before, #[trigger] fields[i]), fields[i].name())
        }),
{
    lemma_position_finds(docs, id);
    let at = position(docs, id);
    let before = docs[at];
    let changed = updated_document(before, fields, now);
    lemma_set_fields_keeps(before, fields);
    assert forall|name: FieldName| !names_field(fields, name) implies #[trigger] same_field(
        changed,
        before,
        name,
    ) by {
        lemma_unnamed_field_stays(before, fields, name);
    }
    assert forall|i: int|
        0 <= i < fields.len() && (forall|j: int|
            i < j < fields.len() ==> (#[trigger] fields[j]).name() != fields[i].name()) implies same_field(
        changed,
        set_field(before, #[trigger] fields[i]),
        fields[i].name(),
    ) by {
        lemma_last_named_value_stays(before, fields, i);
    }
}

/// Replacing a stored recipe changes the fields that a client may change
/// and `updated`, and nothing else: the answer is the stored recipe with the
/// title, description, steps, ingredients, email, tags and photo URL of the
/// new one and with the time of the change. The identifier and the creation
/// time stay those of the stored recipe, whatever the new recipe carries in
/// them, and every other document stays as it was.
pub proof fn lemma_replace_keeps_identifier_and_creation(
    docs: Seq<RecipeView>,
    text: Seq<char>,
    recipe: RecipeView,
    now: i64,
    fresh: Seq<u8>,
)
    requires
        well_formed(docs),
        parsed_id(text) matches Some(id) && has_id(docs, id),
    ensures
        ({
            let id = parsed_id(text).unwrap();
            let at = position(docs, id);
            let before = docs[at];
            let command = replace_command(text, recipe, now);
            let changed = replaced(before, recipe, now);
            &&& command.is_some()
            &&& recipe_of(step(docs, command.unwrap(), fresh).1) == Some(changed)
            &&& step(docs, command.unwrap(), fresh).0 == docs.update(at, changed)
            &&& forall|k: int|
                0 <= k < docs.len() && k != at ==> #[trigger] step(
                    docs,
                    command.unwrap(),
                    fresh,
                ).0[k] == docs[k]
            &&& changed.id == Some(id)
            &&& changed.created == before.created
            &&& changed.updated == now
            &&& before.updated < now ==> before.updated < changed.updated
        }),
{
    let id = parsed_id(text).unwrap();
    lemma_position_finds(docs, id);
    lemma_all_fields_set(docs[position(docs, id)], recipe);
}

/// A recipe replaced by one made from an input holds the input's fields.
pub proof fn lemma_replace_carries_input(
    before: RecipeView,
    dto: RecipeDTOView,
    id: Option<Seq<u8>>,
    mapped_at: i64,
    now: i64,
)
    ensures
        ({
            let recipe = mapped(dto, id, RecipeStatus::Updated, mapped_at);
            let changed = updated_document(before, all_fields(recipe), now);
            &&& carries(changed, dto)
            &&& changed.id == before.id
            &&& changed.created == before.created
            &&& changed.updated == now
        }),
{
    lemma_all_fields_set(before, mapped(dto, id, RecipeStatus::Updated, mapped_at));
}

/// A listing by owner holds exactly the documents with that owner's email,
/// each as often as it is stored; where there is none it is empty, and the
/// answer is still a list, never an error.
pub proof fn lemma_owner_listing(docs: Seq<RecipeView>, email: Seq<char>, fresh: Seq<u8>)
    ensures
        ({
            let reply = step(docs, StoreCommandView::FindByEmail { email }, fresh).1;
            let listed = find_by_email(docs, email);
            &&& recipes_of(reply) == Ok::<Seq<RecipeView>, StoreErrorView>(listed)
            &&& forall|k: int| 0 <= k < listed.len() ==> (#[trigger] listed[k]).email == email
            &&& forall|k: int|
                0 <= k < docs.len() && (#[trigger] docs[k]).email == email ==> listed.contains(
                    docs[k],
                )
            &&& (forall|k: int| 0 <= k < docs.len() ==> (#[trigger] docs[k]).email != email)
                ==> listed.len() == 0
        }),
{
    let wanted = |d: RecipeView| d.email == email;
    let listed = docs.filter(wanted);
    assert forall|k: int| 0 <= k < listed.len() implies (#[trigger] listed[k]).email == email by {
        docs.lemma_filter_pred(wanted, k);
    }
    assert forall|k: int| 0 <= k < docs.len() && (#[trigger] docs[k]).email == email implies listed.contains(
        docs[k],
    ) by {
        docs.lemma_filter_contains(wanted, k);
    }
    if listed.len() > 0 {
        docs.lemma_filter_pred(wanted, 0);
        assert(listed.contains(listed[0]));
        docs.lemma_filter_contains_rev(wanted, listed[0]);
        let k = choose|k: int| 0 <= k < docs.len() && docs[k] == listed[0];
        assert(docs[k].email == email);
    }
}

/// Deleting a stored identifier answers with the document that was stored
/// under it, and a lookup of the same identifier afterwards finds nothing.
pub proof fn lemma_delete_then_find(docs: Seq<RecipeView>, id: Seq<u8>, fresh: Seq<u8>)
    requires
        well_formed(docs),
        has_id(docs, id),
    ensures
        ({
            let (after, reply) = step(docs, StoreCommandView::FindOneAndDelete { id }, fresh);
            &&& recipe_of(reply) == find_one(docs, id)
            &&& recipe_of(reply).is_some()
            &&& after.len() == docs.len() - 1
            &&& !has_id(after, id)
            &&& recipe_of(step(after, StoreCommandView::FindOne { id }, fresh).1).is_none()
            &&& recipe_or(step(after, StoreCommandView::FindOne { id }, fresh).1, no_id_match())
                == no_id_match()
        }),
{
    lemma_position_finds(docs, id);
    let at = position(docs, id);
    let after = docs.remove(at);
    assert forall|k: int| 0 <= k < after.len() implies (#[trigger] after[k]).id != Some(id) by {
        if k < at {
            assert(after[k] == docs[k]);
        } else {
            assert(after[k] == docs[k + 1]);
            assert(docs[at].id != docs[k + 1].id);
        }
    }
    lemma_position_is(after, id, after.len() as int);
}

/// A recipe that was inserted and then deleted under the identifier that the
/// insertion reported is handed back by the deletion and is gone afterwards.
pub proof fn lemma_insert_then_delete(
    docs: Seq<RecipeView>,
    recipe: RecipeView,
    fresh: Seq<u8>,
    later: Seq<u8>,
)
    requires
        well_formed(docs),
        recipe.id.is_none(),
        fresh.len() == ID_BYTES,
        !has_id(docs, fresh),
    ensures
        ({
            let (held, inserted) = step(docs, StoreCommandView::InsertOne { recipe }, fresh);
            let text = hex_encode(fresh);
            let delete = addressed(text, |b: Seq<u8>| StoreCommandView::FindOneAndDelete { id: b });
            let lookup = addressed(text, |b: Seq<u8>| StoreCommandView::FindOne { id: b });
            &&& inserted_id_of(inserted) == Ok::<Seq<char>, StoreErrorView>(text)
            &&& delete.is_some() && lookup.is_some()
            &&& recipe_of(step(held, delete.unwrap(), later).1) == Some(stored(recipe, fresh))
            &&& step(held, delete.unwrap(), later).0 == docs
            &&& recipe_of(step(step(held, delete.unwrap(), later).0, lookup.unwrap(), later).1)
                .is_none()
        }),
{
    lemma_reported_id_reads_back(fresh);
    lemma_position_finds(docs, fresh);
    let held = docs.push(stored(recipe, fresh));
    assert forall|k: int| 0 <= k < docs.len() implies (#[trigger] held[k]).id != Some(fresh) by {
        assert(held[k] == docs[k]);
    }
    lemma_position_is(held, fresh, docs.len() as int);
    assert(held.remove(docs.len() as int) =~= docs);
}

/// A text that is not an identifier is answered as a recipe that was not
/// found, without asking the store: no store error can come of it.
pub proof fn lemma_malformed_id_is_not_found(text: Seq<char>)
    requires
        !is_id_text(text),
    ensures
        addressed(text, |b: Seq<u8>| StoreCommandView::FindOne { id: b }).is_none(),
        ask_or(
            addressed(text, |b: Seq<u8>| StoreCommandView::FindOne { id: b }),
            no_id_match(),
        ) == StepView::Respond(no_id_match()),
{
}

/// A lookup is never answered with a failure: the collection answers with
/// the document or with none, and either way the handler's answer is the
/// recipe or the message that none matched.
pub proof fn lemma_lookup_never_fails(docs: Seq<RecipeView>, id: Seq<u8>, fresh: Seq<u8>)
    ensures
        step(docs, StoreCommandView::FindOne { id }, fresh).1 == (StoreReplyView::Document {
            found: find_one(docs, id),
        }),
        !has_id(docs, id) ==> recipe_or(
            step(docs, StoreCommandView::FindOne { id }, fresh).1,
            no_id_match(),
        ) == no_id_match(),
{
}

} // verus!
