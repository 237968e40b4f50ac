//! The recipe collection as the service relies on it: what each command does
//! to the documents and what it answers.
//!
//! The meaning of a command is given once, as a function on sequences of
//! documents. [`RecipeCollection`] carries the same meaning out in memory, so
//! that the service can be run and examined without a database.

use crate::command::{
    all_fields, field_views, lemma_all_fields_set, replaced, set_field, set_fields, FieldUpdate,
    FieldUpdateView, StoreCommand, StoreCommandView, StoreError, StoreErrorView, StoreReply,
    StoreReplyView,
};
use crate::identifier::RecipeId;
use crate::model::{clone_texts, recipe_views, Recipe, RecipeView};
use vstd::prelude::*;

verus! {

/// Index of the first document with the given identifier, or the number of
/// documents where there is none.
pub open spec fn position(docs: Seq<RecipeView>, id: Seq<u8>) -> int
    decreases docs.len(),
{
    if docs.len() == 0 {
        0
    } else if docs[0].id == Some(id) {
        0
    } else {
        1 + position(docs.drop_first(), id)
    }
}

/// Whether some document has the given identifier.
pub open spec fn has_id(docs: Seq<RecipeView>, id: Seq<u8>) -> bool {
    position(docs, id) < docs.len()
}

/// Every stored document has an identifier, and no two have the same.
pub open spec fn well_formed(docs: Seq<RecipeView>) -> bool {
    &&& forall|i: int| 0 <= i < docs.len() ==> (#[trigger] docs[i]).id.is_some()
    &&& forall|i: int, j: int|
        0 <= i < j < docs.len() ==> (#[trigger] docs[i]).id != (#[trigger] docs[j]).id
}

/// A recipe as it is stored under an identifier.
pub open spec fn stored(recipe: RecipeView, id: Seq<u8>) -> RecipeView {
    RecipeView { id: Some(id), ..recipe }
}

/// Appends a document. It keeps its own identifier if it has one and gets
/// `fresh` otherwise; an identifier that is already stored is refused.
pub open spec fn insert_one(docs: Seq<RecipeView>, recipe: RecipeView, fresh: Seq<u8>) -> (
    Seq<RecipeView>,
    StoreReplyView,
) {
    let id = match recipe.id {
        Some(own) => own,
        None => fresh,
    };
    if has_id(docs, id) {
        (docs, StoreReplyView::Failed { error: StoreErrorView::DuplicateKey })
    } else {
        (docs.push(stored(recipe, id)), StoreReplyView::Inserted { id })
    }
}

/// The document with the given identifier, if there is one.
pub open spec fn find_one(docs: Seq<RecipeView>, id: Seq<u8>) -> Option<RecipeView> {
    if has_id(docs, id) {
        Some(docs[position(docs, id)])
    } else {
        None
    }
}

/// The documents of one owner, in store order.
pub open spec fn find_by_email(docs: Seq<RecipeView>, email: Seq<char>) -> Seq<RecipeView> {
    docs.filter(|d: RecipeView| d.email == email)
}

/// At most `limit` documents after the first `skip`, in store order. The
/// command names no sort key: the order is that of insertion, so a page is
/// stable only as long as nothing is inserted or deleted before it.
pub open spec fn find_page(docs: Seq<RecipeView>, skip: u64, limit: u32) -> Seq<RecipeView> {
    let from = if skip <= docs.len() {
        skip as int
    } else {
        docs.len() as int
    };
    let to = if skip + limit <= docs.len() {
        skip + limit
    } else {
        docs.len() as int
    };
    docs.subrange(from, to)
}

/// A document after a partial update: the listed fields and `updated` are
/// set, everything else stays.
pub open spec fn updated_document(
    before: RecipeView,
    fields: Seq<FieldUpdateView>,
    updated: i64,
) -> RecipeView {
    RecipeView { updated, ..set_fields(before, fields) }
}

/// Applies a partial update to the document with the given identifier.
pub open spec fn update_one(
    docs: Seq<RecipeView>,
    id: Seq<u8>,
    fields: Seq<FieldUpdateView>,
    updated: i64,
) -> (Seq<RecipeView>, StoreReplyView) {
    if !has_id(docs, id) {
        (docs, StoreReplyView::Document { found: None })
    } else {
        let at = position(docs, id);
        let after = updated_document(docs[at], fields, updated);
        (docs.update(at, after), StoreReplyView::Document { found: Some(after) })
    }
}

/// Removes the document with the given identifier and answers with it.
pub open spec fn delete_one(docs: Seq<RecipeView>, id: Seq<u8>) -> (
    Seq<RecipeView>,
    StoreReplyView,
) {
    if !has_id(docs, id) {
        (docs, StoreReplyView::Document { found: None })
    } else {
        let at = position(docs, id);
        (docs.remove(at), StoreReplyView::Document { found: Some(docs[at]) })
    }
}

/// A command that the collection can carry out: a page holds at least one
/// document.
pub open spec fn valid_command(command: StoreCommandView) -> bool {
    command matches StoreCommandView::FindPage { limit, .. } ==> limit >= 1
}

/// The documents after a command, and the reply to it. `fresh` is the
/// identifier that an insertion gives to a document that has none.
pub open spec fn step(docs: Seq<RecipeView>, command: StoreCommandView, fresh: Seq<u8>) -> (
    Seq<RecipeView>,
    StoreReplyView,
) {
    match command {
        StoreCommandView::InsertOne { recipe } => insert_one(docs, recipe, fresh),
        StoreCommandView::FindOne { id } => (
            docs,
            StoreReplyView::Document { found: find_one(docs, id) },
        ),
        StoreCommandView::FindByEmail { email } => (
            docs,
            StoreReplyView::Documents { list: find_by_email(docs, email) },
        ),
        StoreCommandView::FindPage { skip, limit } => (
            docs,
            StoreReplyView::Documents { list: find_page(docs, skip, limit) },
        ),
        StoreCommandView::FindOneAndUpdate { id, fields, updated } => update_one(
            docs,
            id,
            fields,
            updated,
        ),
        StoreCommandView::FindOneAndDelete { id } => delete_one(docs, id),
    }
}

/// Whether a command replaces the recipe stored under `id` by `recipe` at
/// the time `now`: on every collection that holds the identifier, the
/// document under it becomes [`replaced`] and still has that identifier,
/// every other document stays, and the answer is the document as it now
/// stands.
pub open spec fn replaces(command: StoreCommandView, id: Seq<u8>, recipe: RecipeView, now: i64) -> bool {
    forall|docs: Seq<RecipeView>, fresh: Seq<u8>|
        has_id(docs, id) ==> {
            let at = position(docs, id);
            let after = replaced(docs[at], recipe, now);
            &&& #[trigger] step(docs, command, fresh) == (
                docs.update(at, after),
                StoreReplyView::Document { found: Some(after) },
            )
            &&& 0 <= at < docs.len()
            &&& after.id == Some(id)
        }
}

/// The update that sets all fields of `recipe` replaces the stored recipe.
pub proof fn lemma_all_fields_replace(id: Seq<u8>, recipe: RecipeView, now: i64)
    ensures
        replaces(
            StoreCommandView::FindOneAndUpdate { id, fields: all_fields(recipe), updated: now },
            id,
            recipe,
            now,
        ),
{
    let command = StoreCommandView::FindOneAndUpdate {
        id,
        fields: all_fields(recipe),
        updated: now,
    };
    assert forall|docs: Seq<RecipeView>, fresh: Seq<u8>| has_id(docs, id) implies {
        let at = position(docs, id);
        let after = replaced(docs[at], recipe, now);
        &&& #[trigger] step(docs, command, fresh) == (
            docs.update(at, after),
            StoreReplyView::Document { found: Some(after) },
        )
        &&& 0 <= at < docs.len()
        &&& after.id == Some(id)
    } by {
        lemma_position_finds(docs, id);
        lemma_all_fields_set(docs[position(docs, id)], recipe);
    }
}

/// What `position` finds: nothing before it has the identifier, and the
/// document at it has, unless it is the length.
pub proof fn lemma_position_finds(docs: Seq<RecipeView>, id: Seq<u8>)
    ensures
        0 <= position(docs, id) <= docs.len(),
        forall|k: int| 0 <= k < position(docs, id) ==> (#[trigger] docs[k]).id != Some(id),
        position(docs, id) < docs.len() ==> docs[position(docs, id)].id == Some(id),
    decreases docs.len(),
{
    if docs.len() > 0 && docs[0].id != Some(id) {
        let rest = docs.drop_first();
        lemma_position_finds(rest, id);
        assert forall|k: int| 0 <= k < position(docs, id) implies (#[trigger] docs[k]).id != Some(
            id,
        ) by {
            if k > 0 {
                assert(docs[k] == rest[k - 1]);
            }
        }
        if position(docs, id) < docs.len() {
            assert(docs[position(docs, id)] == rest[position(rest, id)]);
        }
    }
}

/// An index is the position of an identifier when nothing before it has the
/// identifier and the document at it has, unless it is the length.
pub proof fn lemma_position_is(docs: Seq<RecipeView>, id: Seq<u8>, at: int)
    requires
        0 <= at <= docs.len(),
        forall|k: int| 0 <= k < at ==> (#[trigger] docs[k]).id != Some(id),
        at < docs.len() ==> docs[at].id == Some(id),
    ensures
        position(docs, id) == at,
    decreases docs.len(),
{
    if docs.len() > 0 {
        if docs[0].id == Some(id) {
            if at > 0 {
                assert(docs[0].id != Some(id));
            }
        } else {
            let rest = docs.drop_first();
            assert forall|k: int| 0 <= k < at - 1 implies (#[trigger] rest[k]).id != Some(id) by {
                assert(rest[k] == docs[k + 1]);
            }
            if at < docs.len() {
                assert(rest[at - 1] == docs[at]);
            }
            lemma_position_is(rest, id, at - 1);
        }
    }
}

/// Every command leaves a well-formed collection well-formed.
pub proof fn lemma_step_keeps_well_formed(
    docs: Seq<RecipeView>,
    command: StoreCommandView,
    fresh: Seq<u8>,
)
    requires
        well_formed(docs),
    ensures
        well_formed(step(docs, command, fresh).0),
{
    let after = step(docs, command, fresh).0;
    match command {
        StoreCommandView::InsertOne { recipe } => {
            let id = match recipe.id {
                Some(own) => own,
                None => fresh,
            };
            lemma_position_finds(docs, id);
            if !has_id(docs, id) {
                assert forall|i: int, j: int| 0 <= i < j < after.len() implies (
                #[trigger] after[i]).id != (#[trigger] after[j]).id by {
                    if j == docs.len() {
                        assert(after[i] == docs[i]);
                    } else {
                        assert(after[i] == docs[i] && after[j] == docs[j]);
                    }
                }
            }
        },
        StoreCommandView::FindOneAndUpdate { id, fields, updated } => {
            lemma_position_finds(docs, id);
            if has_id(docs, id) {
                lemma_set_fields_keeps(docs[position(docs, id)], fields);
            }
        },
        StoreCommandView::FindOneAndDelete { id } => {
            lemma_position_finds(docs, id);
            if has_id(docs, id) {
                let at = position(docs, id);
                assert forall|i: int, j: int| 0 <= i < j < after.len() implies (
                #[trigger] after[i]).id != (#[trigger] after[j]).id by {
                    let oi = if i < at { i } else { i + 1 };
                    let oj = if j < at { j } else { j + 1 };
                    assert(after[i] == docs[oi] && after[j] == docs[oj]);
                }
                assert forall|i: int| 0 <= i < after.len() implies (#[trigger] after[i]).id.is_some() by {
                    let oi = if i < at { i } else { i + 1 };
                    assert(after[i] == docs[oi]);
                }
            }
        },
        _ => {},
    }
}

/// Setting fields changes neither the identifier nor the creation time.
pub proof fn lemma_set_fields_keeps(before: RecipeView, fields: Seq<FieldUpdateView>)
    ensures
        set_fields(before, fields).id == before.id,
        set_fields(before, fields).created == before.created,
        set_fields(before, fields).updated == before.updated,
    decreases fields.len(),
{
    if fields.len() > 0 {
        lemma_set_fields_keeps(before, fields.drop_last());
    }
}

/// Sets one field of a recipe.
pub fn apply_field(recipe: &mut Recipe, field: &FieldUpdate)
    ensures
        final(recipe)@ == set_field(old(recipe)@, field@),
{
    match field {
        FieldUpdate::Title(t) => {
            recipe.title = t.clone();
        },
        FieldUpdate::Description(t) => {
            recipe.description = t.clone();
        },
        FieldUpdate::Steps(l) => {
            recipe.steps = clone_texts(l);
        },
        FieldUpdate::Ingredients(l) => {
            recipe.ingredients = clone_texts(l);
        },
        FieldUpdate::Email(t) => {
            recipe.email = t.clone();
        },
        FieldUpdate::Tags(l) => {
            recipe.tags = clone_texts(l);
        },
        FieldUpdate::PhotoUrl(t) => {
            recipe.photo_url = t.clone();
        },
    }
}

/// Sets a list of fields of a recipe, the first of the list first.
pub fn apply_fields(recipe: &mut Recipe, fields: &Vec<FieldUpdate>)
    ensures
        final(recipe)@ == set_fields(old(recipe)@, field_views(fields@)),
{
    let ghost all = field_views(fields@);
    let mut i: usize = 0;
    while i < fields.len()
        invariant
            i <= fields.len(),
            all == field_views(fields@),
            recipe@ == set_fields(old(recipe)@, all.take(i as int)),
        decreases fields.len() - i,
    {
        proof {
            assert(all.take(i + 1).drop_last() =~= all.take(i as int));
            assert(all.take(i + 1).last() == fields@[i as int]@);
        }
        apply_field(recipe, &fields[i]);
        i = i + 1;
    }
    assert(all.take(i as int) =~= all);
}

/// A collection of recipes held in memory, in the order of their insertion.
#[derive(Debug)]
pub struct RecipeCollection {
    docs: Vec<Recipe>,
}

impl View for RecipeCollection {
    type V = Seq<RecipeView>;

    closed spec fn view(&self) -> Seq<RecipeView> {
        recipe_views(self.docs@)
    }
}

impl RecipeCollection {
    /// Every document has an identifier, and no two have the same.
    pub open spec fn wf(&self) -> bool {
        well_formed(self@)
    }

    /// An empty collection.
    pub fn new() -> (collection: RecipeCollection)
        ensures
            collection@ == Seq::<RecipeView>::empty(),
            collection.wf(),
    {
        let collection = RecipeCollection { docs: Vec::new() };
        assert(collection@ =~= Seq::<RecipeView>::empty());
        collection
    }

    /// Number of documents in the collection.
    pub fn len(&self) -> (count: usize)
        ensures
            count == self@.len(),
    {
        self.docs.len()
    }

    /// A copy of all documents, in store order.
    pub fn documents(&self) -> (copy: Vec<Recipe>)
        ensures
            recipe_views(copy@) == self@,
    {
        let copy = self.copy_range(0, self.docs.len());
        assert(self@.subrange(0, self@.len() as int) =~= self@);
        copy
    }

    /// Index of the document with the given identifier, or the number of
    /// documents where there is none.
    fn index_of(&self, id: &RecipeId) -> (at: usize)
        ensures
            at == position(self@, id@),
            at <= self@.len(),
            at < self@.len() ==> self@[at as int].id == Some(id@),
    {
        let mut i: usize = 0;
        while i < self.docs.len()
            invariant
                i <= self.docs.len(),
                forall|k: int| 0 <= k < i ==> (#[trigger] self@[k]).id != Some(id@),
            decreases self.docs.len() - i,
        {
            let matches = match &self.docs[i].id {
                Some(own) => own.same(id),
                None => false,
            };
            if matches {
                proof {
                    lemma_position_is(self@, id@, i as int);
                }
                return i;
            }
            i = i + 1;
        }
        proof {
            lemma_position_is(self@, id@, i as int);
        }
        i
    }

    /// Copies the documents from index `from` up to index `to`.
    fn copy_range(&self, from: usize, to: usize) -> (copy: Vec<Recipe>)
        requires
            from <= to <= self@.len(),
        ensures
            recipe_views(copy@) == self@.subrange(from as int, to as int),
    {
        let mut copy: Vec<Recipe> = Vec::new();
        let mut i: usize = from;
        while i < to
            invariant
                from <= i <= to,
                to <= self.docs.len(),
                copy@.len() == i - from,
                forall|k: int| 0 <= k < copy@.len() ==> (#[trigger] copy@[k])@ == self@[from + k],
            decreases to - i,
        {
            copy.push(self.docs[i].clone());
            i = i + 1;
        }
        assert(recipe_views(copy@) =~= self@.subrange(from as int, to as int));
        copy
    }

    /// Copies the documents of one owner, in store order.
    fn copy_by_email(&self, email: &String) -> (copy: Vec<Recipe>)
        ensures
            recipe_views(copy@) == find_by_email(self@, email@),
    {
        let ghost wanted = |d: RecipeView| d.email == email@;
        let mut copy: Vec<Recipe> = Vec::new();
        let mut i: usize = 0;
        assert(self@.take(0) =~= Seq::<RecipeView>::empty());
        assert(recipe_views(copy@) =~= Seq::<RecipeView>::empty());
        while i < self.docs.len()
            invariant
                i <= self.docs.len(),
                wanted == (|d: RecipeView| d.email == email@),
                recipe_views(copy@) == self@.take(i as int).filter(wanted),
            decreases self.docs.len() - i,
        {
            proof {
                assert(self@.take(i + 1) =~= self@.take(i as int).push(self@[i as int]));
                self@.take(i as int).lemma_filter_push(self@[i as int], wanted);
            }
            if self.docs[i].email == *email {
                let ghost before = copy@;
                let doc = self.docs[i].clone();
                copy.push(doc);
                assert(recipe_views(copy@) =~= recipe_views(before).push(self@[i as int]));
            }
            i = i + 1;
        }
        assert(self@.take(i as int) =~= self@);
        copy
    }

    /// Carries out one command and answers it. `fresh` is the identifier that
    /// an insertion gives to a document that has none.
    pub fn execute(&mut self, command: StoreCommand, fresh: RecipeId) -> (reply: StoreReply)
        requires
            old(self).wf(),
            valid_command(command@),
        ensures
            (final(self)@, reply@) == step(old(self)@, command@, fresh@),
            final(self).wf(),
    {
        proof {
            lemma_step_keeps_well_formed(self@, command@, fresh@);
        }
        match command {
            StoreCommand::InsertOne { recipe } => {
                let id = match recipe.id {
                    Some(own) => own,
                    None => fresh,
                };
                if self.index_of(&id) < self.docs.len() {
                    StoreReply::Failed { error: StoreError::DuplicateKey }
                } else {
                    let ghost before = self@;
                    let mut document = recipe;
                    document.id = Some(id);
                    self.docs.push(document);
                    assert(self@ =~= before.push(stored(recipe@, id@)));
                    StoreReply::Inserted { id }
                }
            },
            StoreCommand::FindOne { id } => {
                let at = self.index_of(&id);
                if at < self.docs.len() {
                    StoreReply::Document { found: Some(self.docs[at].clone()) }
                } else {
                    StoreReply::Document { found: None }
                }
            },
            StoreCommand::FindByEmail { email } => {
                StoreReply::Documents { list: self.copy_by_email(&email) }
            },
            StoreCommand::FindPage { skip, limit } => {
                let count = self.docs.len();
                if skip >= count as u64 {
                    StoreReply::Documents { list: self.copy_range(count, count) }
                } else {
                    let from = skip as usize;
                    let rest = count - from;
                    let to = if (limit as u64) < rest as u64 {
                        from + limit as usize
                    } else {
                        count
                    };
                    StoreReply::Documents { list: self.copy_range(from, to) }
                }
            },
            StoreCommand::FindOneAndUpdate { id, fields, updated } => {
                let at = self.index_of(&id);
                if at >= self.docs.len() {
                    StoreReply::Document { found: None }
                } else {
                    let ghost before = self@;
                    let mut document = self.docs[at].clone();
                    apply_fields(&mut document, &fields);
                    document.updated = updated;
                    let copy = document.clone();
                    self.docs.set(at, document);
                    assert(self@ =~= before.update(
                        at as int,
                        updated_document(before[at as int], field_views(fields@), updated),
                    ));
                    StoreReply::Document { found: Some(copy) }
                }
            },
            StoreCommand::FindOneAndDelete { id } => {
                let at = self.index_of(&id);
                if at >= self.docs.len() {
                    StoreReply::Document { found: None }
                } else {
                    let ghost before = self@;
                    let document = self.docs.remove(at);
                    assert(self@ =~= before.remove(at as int));
                    StoreReply::Document { found: Some(document) }
                }
            },
        }
    }
}

} // verus!
