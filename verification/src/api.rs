//! The request handlers, written as two steps around the store.
//!
//! The first step of a handler looks at the caller's identity and at the
//! request and either answers at once or names the one command that the
//! store has to carry out. The second step turns the store's reply into the
//! answer. A handler never asks the store twice.

use crate::collection::{lemma_all_fields_replace, replaces};
use crate::command::{
    all_fields, FieldUpdateView, StoreCommand, StoreCommandView, StoreErrorView, StoreReply,
    StoreReplyView,
};
use crate::identifier::{parsed_id, RecipeId};
use crate::model::{
    recipe_views, PaginationParams, PhotoUrlChangeRequest, Recipe, RecipeDTO, RecipeDTOView,
    RecipeStatus, RecipeView, Response,
};
use crate::repository::{
    addressed, command_option_view, img_url_of, inserted_id_of, page_skip, recipe_of, recipes_of,
    replace_command, update_command, MongoRepo,
};
use crate::util::{map_input_dto, mapped};
use vstd::prelude::*;

verus! {

/// Status of an answer that carries what was asked for.
pub const STATUS_OK: u16 = 200;

/// Status of the answer to a successful insertion.
pub const STATUS_CREATED: u16 = 201;

/// Status of the answer where no document matched.
pub const STATUS_BAD_REQUEST: u16 = 400;

/// Status of the answer to a caller without a verified identity.
pub const STATUS_FORBIDDEN: u16 = 403;

/// Status of the answer where the store failed.
pub const STATUS_INTERNAL_SERVER_ERROR: u16 = 500;

/// Page that is listed where the request names none.
pub const DEFAULT_PAGE: u32 = 1;

/// Size of a page where the request names none.
pub const DEFAULT_PER_PAGE: u32 = 5;

/// Who the caller is, as the identity provider has verified it.
#[derive(Debug, PartialEq, Eq)]
pub struct VerifiedIdentity {
    pub email: Option<String>,
}

/// What an answer carries.
#[derive(Debug, PartialEq, Eq)]
pub enum Payload {
    /// A JSON object with a message.
    Message(Response),
    /// One recipe as JSON.
    Recipe(Recipe),
    /// A list of recipes as JSON.
    Recipes(Vec<Recipe>),
    /// Plain text.
    Text(String),
}

/// The mathematical value of a [`Payload`].
pub ghost enum PayloadView {
    Message(Seq<char>),
    Recipe(RecipeView),
    Recipes(Seq<RecipeView>),
    Text(Seq<char>),
}

impl View for Payload {
    type V = PayloadView;

    open spec fn view(&self) -> PayloadView {
        match self {
            Payload::Message(response) => PayloadView::Message(response.message@),
            Payload::Recipe(recipe) => PayloadView::Recipe(recipe@),
            Payload::Recipes(list) => PayloadView::Recipes(recipe_views(list@)),
            Payload::Text(text) => PayloadView::Text(text@),
        }
    }
}

/// The answer to a request: a status code and what is sent with it.
#[derive(Debug, PartialEq, Eq)]
pub struct HttpResponse {
    pub status: u16,
    pub payload: Payload,
}

/// The mathematical value of an [`HttpResponse`].
pub ghost struct HttpResponseView {
    pub status: u16,
    pub payload: PayloadView,
}

impl View for HttpResponse {
    type V = HttpResponseView;

    open spec fn view(&self) -> HttpResponseView {
        HttpResponseView { status: self.status, payload: self.payload@ }
    }
}

/// What a handler does after looking at a request.
#[derive(Debug, PartialEq, Eq)]
pub enum Step {
    /// Answer at once; the store is not asked.
    Respond(HttpResponse),
    /// Have the store carry out the command, then finish with its reply.
    Ask(StoreCommand),
}

/// The mathematical value of a [`Step`].
pub ghost enum StepView {
    Respond(HttpResponseView),
    Ask(StoreCommandView),
}

impl View for Step {
    type V = StepView;

    open spec fn view(&self) -> StepView {
        match self {
            Step::Respond(response) => StepView::Respond(response@),
            Step::Ask(command) => StepView::Ask(command@),
        }
    }
}

/// An answer that carries a message.
pub open spec fn message_response(status: u16, text: Seq<char>) -> HttpResponseView {
    HttpResponseView { status, payload: PayloadView::Message(text) }
}

/// The answer to a caller without a verified identity.
pub open spec fn unauthorized() -> HttpResponseView {
    message_response(403, "Missing or invalid JWT Token"@)
}

/// The answer where a recipe that was to be read or changed did not match.
pub open spec fn no_id_match() -> HttpResponseView {
    message_response(400, "No ID Match"@)
}

/// The answer that names the identifier for which no recipe was found.
pub open spec fn not_found(id: Seq<char>) -> HttpResponseView {
    message_response(400, "No recipe with ID: "@ + id + " found"@)
}

/// The answer where the store failed: the error's text, unchanged.
pub open spec fn store_failure(error: StoreErrorView) -> HttpResponseView {
    HttpResponseView { status: 500, payload: PayloadView::Text(error.message()) }
}

/// The step of a handler that answers callers without identity at once and
/// otherwise goes on with `next`.
pub open spec fn guarded(authorized: bool, next: StepView) -> StepView {
    if authorized {
        next
    } else {
        StepView::Respond(unauthorized())
    }
}

/// The step that asks for a command where there is one and answers with
/// `otherwise` where the identifier was no identifier.
pub open spec fn ask_or(command: Option<StoreCommandView>, otherwise: HttpResponseView) -> StepView {
    match command {
        Some(c) => StepView::Ask(c),
        None => StepView::Respond(otherwise),
    }
}

/// The answer that carries one recipe, or `otherwise` where the reply holds none.
pub open spec fn recipe_or(reply: StoreReplyView, otherwise: HttpResponseView) -> HttpResponseView {
    match recipe_of(reply) {
        Some(recipe) => HttpResponseView { status: 200, payload: PayloadView::Recipe(recipe) },
        None => otherwise,
    }
}

/// The answer to a listing: the recipes, or the store's failure.
pub open spec fn recipes_or_failure(reply: StoreReplyView) -> HttpResponseView {
    match recipes_of(reply) {
        Ok(list) => HttpResponseView { status: 200, payload: PayloadView::Recipes(list) },
        Err(error) => store_failure(error),
    }
}

/// The page that a request asks for: the first where it names none.
pub open spec fn page_or_default(params: PaginationParams) -> u32 {
    match params.page {
        Some(page) => page,
        None => 1,
    }
}

/// The page size that a request asks for: five where it names none.
pub open spec fn per_page_or_default(params: PaginationParams) -> u32 {
    match params.per_page {
        Some(per_page) => per_page,
        None => 5,
    }
}

/// The answer to a request for page 0 or for pages of size 0.
pub open spec fn invalid_page() -> HttpResponseView {
    message_response(400, "page and per_page must be at least 1"@)
}

/// What the listing of a page does with the parameters of a request: it asks
/// the store for the page, skipping the `(page - 1) * per_page` recipes
/// before it, where both numbers are at least one, and answers that the
/// request is invalid otherwise.
pub open spec fn page_step(params: PaginationParams) -> StepView {
    let page = page_or_default(params);
    let per_page = per_page_or_default(params);
    if page >= 1 && per_page >= 1 {
        StepView::Ask(
            StoreCommandView::FindPage { skip: page_skip(page, per_page) as u64, limit: per_page },
        )
    } else {
        StepView::Respond(invalid_page())
    }
}

/// The email by which a caller's recipes are found.
pub open spec fn owner_email(user: VerifiedIdentity) -> Seq<char> {
    match user.email {
        Some(email) => email@,
        None => "empty email"@,
    }
}

/// An answer that carries a message.
fn message(status: u16, text: String) -> (response: HttpResponse)
    ensures
        response@ == message_response(status, text@),
{
    HttpResponse { status, payload: Payload::Message(Response { message: text }) }
}

/// The answer where a recipe did not match.
fn no_match() -> (response: HttpResponse)
    ensures
        response@ == no_id_match(),
{
    message(STATUS_BAD_REQUEST, String::from_str("No ID Match"))
}

/// The answer that names the identifier for which nothing was found.
fn none_found(id: &str) -> (response: HttpResponse)
    ensures
        response@ == not_found(id@),
{
    message(
        STATUS_BAD_REQUEST,
        String::from_str("No recipe with ID: ").concat(id).concat(" found"),
    )
}

/// The answer that carries the recipe of a reply, or `otherwise`.
fn one_recipe(reply: StoreReply, otherwise: HttpResponse) -> (response: HttpResponse)
    ensures
        response@ == recipe_or(reply@, otherwise@),
{
    match MongoRepo::found_recipe(reply) {
        Some(recipe) => HttpResponse { status: STATUS_OK, payload: Payload::Recipe(recipe) },
        None => otherwise,
    }
}

/// The answer that carries the recipes of a reply, or the store's failure.
fn listing(reply: StoreReply) -> (response: HttpResponse)
    ensures
        response@ == recipes_or_failure(reply@),
{
    match MongoRepo::found_recipes(reply) {
        Ok(list) => HttpResponse { status: STATUS_OK, payload: Payload::Recipes(list) },
        Err(error) => HttpResponse {
            status: STATUS_INTERNAL_SERVER_ERROR,
            payload: Payload::Text(error.message()),
        },
    }
}

/// The step that asks for the command, or answers with `otherwise`.
fn ask(command: Option<StoreCommand>, otherwise: HttpResponse) -> (step: Step)
    ensures
        step@ == ask_or(command_option_view(command), otherwise@),
{
    match command {
        Some(c) => Step::Ask(c),
        None => Step::Respond(otherwise),
    }
}

/// The answer that says the service is up.
pub fn health_check() -> (response: HttpResponse)
    ensures
        response@ == message_response(200, "UP"@),
{
    message(STATUS_OK, String::from_str("UP"))
}

/// The answer to a caller whose credential is missing or invalid.
pub fn unauthorized_response() -> (response: HttpResponse)
    ensures
        response@ == unauthorized(),
{
    message(STATUS_FORBIDDEN, String::from_str("Missing or invalid JWT Token"))
}

/// First step of storing a new recipe: the input is mapped as created now,
/// without an identifier, and handed to the store.
pub fn insert_recipe(
    db: &MongoRepo,
    new_recipe: RecipeDTO,
    firebase_user: Option<VerifiedIdentity>,
) -> (step: Step)
    ensures
        exists|now: i64|
            step@ == guarded(
                firebase_user.is_some(),
                StepView::Ask(
                    StoreCommandView::InsertOne {
                        recipe: mapped(new_recipe@, None, RecipeStatus::Created, now),
                    },
                ),
            ),
{
    if firebase_user.is_none() {
        assert(guarded(
            false,
            StepView::Ask(
                StoreCommandView::InsertOne {
                    recipe: mapped(new_recipe@, None, RecipeStatus::Created, 0),
                },
            ),
        ) == StepView::Respond(unauthorized()));
        return Step::Respond(unauthorized_response());
    }
    let recipe_entity = map_input_dto(new_recipe, None, RecipeStatus::Created);
    Step::Ask(db.insert_recipe(recipe_entity))
}

/// Second step of storing a new recipe: the assigned identifier is reported,
/// or the store's failure.
pub fn insert_recipe_outcome(reply: StoreReply) -> (response: HttpResponse)
    ensures
        response@ == match inserted_id_of(reply@) {
            Ok(id) => message_response(201, "Recipe added with ID: "@ + id),
            Err(error) => store_failure(error),
        },
{
    match MongoRepo::inserted_id(reply) {
        Ok(recipe_id) => message(
            STATUS_CREATED,
            String::from_str("Recipe added with ID: ").concat(recipe_id.as_str()),
        ),
        Err(err) => HttpResponse {
            status: STATUS_INTERNAL_SERVER_ERROR,
            payload: Payload::Text(err.message()),
        },
    }
}

/// What the first step of a replacement does at the time `now`: it asks
/// the store to replace the recipe that `id` names by the mapped input, or
/// answers that nothing matched where `id` is no identifier.
pub open spec fn replace_step(id: Seq<char>, dto: RecipeDTOView, now: i64) -> StepView {
    ask_or(
        replace_command(id, mapped(dto, parsed_id(id), RecipeStatus::Updated, now), now),
        no_id_match(),
    )
}

/// Whether a step asks the store for a command that replaces the recipe
/// stored under `id` by `recipe` at the time `now`.
pub open spec fn asks_to_replace(step: StepView, id: Seq<u8>, recipe: RecipeView, now: i64) -> bool {
    match step {
        StepView::Ask(command) => replaces(command, id, recipe, now),
        StepView::Respond(_) => false,
    }
}

/// First step of replacing a recipe: the input is mapped as updated now,
/// and its fields are set on the recipe that the request names. The
/// identifier and the creation time of the stored recipe stay as they are.
pub fn update_recipe_by_id(
    db: &MongoRepo,
    id: String,
    new_recipe: RecipeDTO,
    firebase_user: Option<VerifiedIdentity>,
) -> (step: Step)
    ensures
        exists|now: i64|
            {
                &&& step@ == guarded(firebase_user.is_some(), replace_step(id@, new_recipe@, now))
                &&& firebase_user.is_some() && parsed_id(id@).is_some() ==> asks_to_replace(
                    step@,
                    parsed_id(id@).unwrap(),
                    mapped(new_recipe@, parsed_id(id@), RecipeStatus::Updated, now),
                    now,
                )
            },
{
    if firebase_user.is_none() {
        assert(guarded(false, replace_step(id@, new_recipe@, 0)) == StepView::Respond(
            unauthorized(),
        ));
        return Step::Respond(unauthorized_response());
    }
    let object_id = RecipeId::parse_str(id.as_str());
    let recipe_entity = map_input_dto(new_recipe, object_id, RecipeStatus::Updated);
    let command = db.update_recipe_by_id(id.as_str(), recipe_entity);
    let step = ask(command, no_match());
    proof {
        let stamped = choose|now: i64|
            {
                &&& command_option_view(command) == replace_command(id@, recipe_entity@, now)
                &&& parsed_id(id@) matches Some(stored_id) ==> replaces(
                    command.unwrap()@,
                    stored_id,
                    recipe_entity@,
                    now,
                )
            };
        let at_stamp = mapped(new_recipe@, parsed_id(id@), RecipeStatus::Updated, stamped);
        assert(all_fields(recipe_entity@) =~= all_fields(at_stamp));
        assert(step@ == replace_step(id@, new_recipe@, stamped));
        if parsed_id(id@).is_some() {
            lemma_all_fields_replace(parsed_id(id@).unwrap(), at_stamp, stamped);
        }
    }
    step
}

/// Second step of replacing a recipe: the recipe as it now stands, or the
/// answer that none matched.
pub fn update_recipe_by_id_outcome(reply: StoreReply) -> (response: HttpResponse)
    ensures
        response@ == recipe_or(reply@, no_id_match()),
{
    one_recipe(reply, no_match())
}

/// First step of changing a recipe's photo.
pub fn update_image_url_by_recipe_id(
    db: &MongoRepo,
    id: String,
    image_url: PhotoUrlChangeRequest,
    firebase_user: Option<VerifiedIdentity>,
) -> (step: Step)
    ensures
        exists|now: i64|
            step@ == guarded(
                firebase_user.is_some(),
                ask_or(
                    update_command(id@, seq![FieldUpdateView::PhotoUrl(image_url.photo_url@)], now),
                    no_id_match(),
                ),
            ),
{
    if firebase_user.is_none() {
        assert(guarded(
            false,
            ask_or(
                update_command(id@, seq![FieldUpdateView::PhotoUrl(image_url.photo_url@)], 0),
                no_id_match(),
            ),
        ) == StepView::Respond(unauthorized()));
        return Step::Respond(unauthorized_response());
    }
    let command = db.update_recipe_img_url(id.as_str(), image_url.photo_url.as_str());
    ask(command, no_match())
}

/// Second step of changing a recipe's photo: the recipe as it now stands, or
/// the answer that none matched.
pub fn update_image_url_by_recipe_id_outcome(reply: StoreReply) -> (response: HttpResponse)
    ensures
        response@ == recipe_or(reply@, no_id_match()),
{
    one_recipe(reply, no_match())
}

/// First step of listing the caller's own recipes. The owner is taken from
/// the verified identity, never from the request.
pub fn get_recipes_by_email(db: &MongoRepo, firebase_user: Option<VerifiedIdentity>) -> (step: Step)
    ensures
        step@ == match firebase_user {
            Some(user) => StepView::Ask(StoreCommandView::FindByEmail { email: owner_email(user) }),
            None => StepView::Respond(unauthorized()),
        },
{
    match firebase_user {
        None => Step::Respond(unauthorized_response()),
        Some(user) => {
            let email = match user.email {
                Some(email) => email,
                None => String::from_str("empty email"),
            };
            Step::Ask(db.get_recipes_by_email(email.as_str()))
        },
    }
}

/// Second step of listing the caller's own recipes.
pub fn get_recipes_by_email_outcome(reply: StoreReply) -> (response: HttpResponse)
    ensures
        response@ == recipes_or_failure(reply@),
{
    listing(reply)
}

/// First step of deleting a recipe.
pub fn delete_recipe_by_id(db: &MongoRepo, id: String, firebase_user: Option<VerifiedIdentity>) -> (step:
    Step)
    ensures
        step@ == guarded(
            firebase_user.is_some(),
            ask_or(
                addressed(id@, |b: Seq<u8>| StoreCommandView::FindOneAndDelete { id: b }),
                not_found(id@),
            ),
        ),
{
    if firebase_user.is_none() {
        return Step::Respond(unauthorized_response());
    }
    let command = db.delete_recipe_by_id(id.as_str());
    ask(command, none_found(id.as_str()))
}

/// Second step of deleting a recipe: a message that names the identifier.
pub fn delete_recipe_by_id_outcome(id: &str, reply: StoreReply) -> (response: HttpResponse)
    ensures
        response@ == match recipe_of(reply@) {
            Some(_) => message_response(200, "Recipe with ID: "@ + id@ + " deleted"@),
            None => not_found(id@),
        },
{
    match MongoRepo::found_recipe(reply) {
        Some(_) => message(
            STATUS_OK,
            String::from_str("Recipe with ID: ").concat(id).concat(" deleted"),
        ),
        None => none_found(id),
    }
}

/// First step of reading one recipe.
pub fn get_recipe_by_id(db: &MongoRepo, id: String, firebase_user: Option<VerifiedIdentity>) -> (step:
    Step)
    ensures
        step@ == guarded(
            firebase_user.is_some(),
            ask_or(
                addressed(id@, |b: Seq<u8>| StoreCommandView::FindOne { id: b }),
                no_id_match(),
            ),
        ),
{
    if firebase_user.is_none() {
        return Step::Respond(unauthorized_response());
    }
    let command = db.get_recipe_by_id(id.as_str());
    ask(command, no_match())
}

/// Second step of reading one recipe.
pub fn get_recipe_by_id_outcome(reply: StoreReply) -> (response: HttpResponse)
    ensures
        response@ == recipe_or(reply@, no_id_match()),
{
    one_recipe(reply, no_match())
}

/// First step of reading a recipe's photo URL.
pub fn get_recipe_img_url_by_id(
    db: &MongoRepo,
    id: String,
    firebase_user: Option<VerifiedIdentity>,
) -> (step: Step)
    ensures
        step@ == guarded(
            firebase_user.is_some(),
            ask_or(
                addressed(id@, |b: Seq<u8>| StoreCommandView::FindOne { id: b }),
                not_found(id@),
            ),
        ),
{
    if firebase_user.is_none() {
        return Step::Respond(unauthorized_response());
    }
    let command = db.get_recipe_img_url_by_id(id.as_str());
    ask(command, none_found(id.as_str()))
}

/// Second step of reading a recipe's photo URL: the URL as plain text.
pub fn get_recipe_img_url_by_id_outcome(id: &str, reply: StoreReply) -> (response: HttpResponse)
    ensures
        response@ == match img_url_of(reply@) {
            Some(url) => HttpResponseView { status: 200, payload: PayloadView::Text(url) },
            None => not_found(id@),
        },
{
    match MongoRepo::found_img_url(reply) {
        Some(img_url) => HttpResponse { status: STATUS_OK, payload: Payload::Text(img_url) },
        None => none_found(id),
    }
}

/// First step of listing one page of all recipes. A request that names no
/// page gets the first; one that names no size gets five to a page. Pages
/// are counted from one and hold at least one recipe: a request for page 0
/// or for pages of size 0 is answered at once and never reaches the store.
pub fn get_all_recipes_pagination(
    db: &MongoRepo,
    firebase_user: Option<VerifiedIdentity>,
    params: PaginationParams,
) -> (step: Step)
    ensures
        step@ == guarded(firebase_user.is_some(), page_step(params)),
{
    if firebase_user.is_none() {
        return Step::Respond(unauthorized_response());
    }
    let page = match params.page {
        Some(page) => page,
        None => DEFAULT_PAGE,
    };
    let per_page = match params.per_page {
        Some(per_page) => per_page,
        None => DEFAULT_PER_PAGE,
    };
    if page < 1 || per_page < 1 {
        return Step::Respond(
            message(STATUS_BAD_REQUEST, String::from_str("page and per_page must be at least 1")),
        );
    }
    Step::Ask(db.get_all_recipes_pageable(page, per_page))
}

/// Second step of listing one page of all recipes.
pub fn get_all_recipes_pagination_outcome(reply: StoreReply) -> (response: HttpResponse)
    ensures
        response@ == recipes_or_failure(reply@),
{
    listing(reply)
}

} // verus!
