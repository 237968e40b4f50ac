use recipe_service::collection::{apply_field, apply_fields, RecipeCollection};
use recipe_service::command::{FieldUpdate, StoreCommand, StoreError, StoreReply};
use recipe_service::identifier::RecipeId;
use recipe_service::model::Recipe;
use recipe_service::repository::MongoRepo;

fn numbered(n: u8) -> RecipeId {
    RecipeId { bytes: [0, 0, 0, 0, 0, 0, 0, 0, 0, 0, 0, n] }
}

fn dish(title: &str, email: &str, updated: i64) -> Recipe {
    Recipe {
        id: None,
        title: title.to_string(),
        description: format!("{} as it should be", title),
        steps: vec!["prepare".to_string(), "cook".to_string()],
        ingredients: vec!["salt".to_string()],
        email: email.to_string(),
        tags: vec!["home".to_string()],
        photo_url: format!("http://img/{}.png", title),
        created: Some(updated),
        updated,
    }
}

fn stored_dish(n: u8, title: &str, email: &str, updated: i64) -> Recipe {
    let mut recipe = dish(title, email, updated);
    recipe.id = Some(numbered(n));
    recipe
}

fn filled(count: u8) -> RecipeCollection {
    let mut store = RecipeCollection::new();
    for n in 1..=count {
        let owner = if n % 2 == 0 { "even@x.org" } else { "odd@x.org" };
        let reply = store.execute(
            StoreCommand::InsertOne { recipe: dish(&format!("dish{}", n), owner, n as i64) },
            numbered(n),
        );
        assert_eq!(reply, StoreReply::Inserted { id: numbered(n) });
    }
    store
}

fn listed(reply: StoreReply) -> Vec<String> {
    match reply {
        StoreReply::Documents { list } => list.into_iter().map(|r| r.title).collect(),
        other => panic!("unexpected reply {:?}", other),
    }
}

#[test]
fn new_collection_is_empty() {
    let store = RecipeCollection::new();
    assert_eq!(store.len(), 0);
    assert_eq!(store.documents(), vec![]);
}

#[test]
fn insert_assigns_the_fresh_identifier() {
    let mut store = RecipeCollection::new();
    let reply = store.execute(
        StoreCommand::InsertOne { recipe: dish("Soup", "a@b.com", 5) },
        numbered(1),
    );
    assert_eq!(reply, StoreReply::Inserted { id: numbered(1) });
    assert_eq!(store.len(), 1);
    assert_eq!(store.documents(), vec![stored_dish(1, "Soup", "a@b.com", 5)]);
}

#[test]
fn insert_keeps_an_identifier_that_the_recipe_brings() {
    let mut store = RecipeCollection::new();
    let reply = store.execute(
        StoreCommand::InsertOne { recipe: stored_dish(9, "Soup", "a@b.com", 5) },
        numbered(1),
    );
    assert_eq!(reply, StoreReply::Inserted { id: numbered(9) });
    assert_eq!(store.documents(), vec![stored_dish(9, "Soup", "a@b.com", 5)]);
}

#[test]
fn insert_appends_in_order() {
    let store = filled(3);
    let titles: Vec<String> = store.documents().into_iter().map(|r| r.title).collect();
    assert_eq!(titles, vec!["dish1", "dish2", "dish3"]);
}

#[test]
fn insert_refuses_a_stored_identifier() {
    let mut store = filled(3);
    let reply = store.execute(
        StoreCommand::InsertOne { recipe: dish("Again", "a@b.com", 5) },
        numbered(2),
    );
    assert_eq!(reply, StoreReply::Failed { error: StoreError::DuplicateKey });
    assert_eq!(store.len(), 3);
    let reply = store.execute(
        StoreCommand::InsertOne { recipe: stored_dish(3, "Again", "a@b.com", 5) },
        numbered(7),
    );
    assert_eq!(reply, StoreReply::Failed { error: StoreError::DuplicateKey });
    assert_eq!(store.len(), 3);
}

#[test]
fn find_one_finds_the_document() {
    let mut store = filled(4);
    let reply = store.execute(StoreCommand::FindOne { id: numbered(3) }, numbered(0));
    assert_eq!(reply, StoreReply::Document { found: Some(stored_dish(3, "dish3", "odd@x.org", 3)) });
    assert_eq!(store.len(), 4);
}

#[test]
fn find_one_finds_nothing_for_an_unknown_identifier() {
    let mut store = filled(4);
    let reply = store.execute(StoreCommand::FindOne { id: numbered(5) }, numbered(0));
    assert_eq!(reply, StoreReply::Document { found: None });
    let mut empty = RecipeCollection::new();
    let reply = empty.execute(StoreCommand::FindOne { id: numbered(1) }, numbered(0));
    assert_eq!(reply, StoreReply::Document { found: None });
}

#[test]
fn find_by_email_lists_the_owner_in_store_order() {
    let mut store = filled(5);
    let reply = store.execute(
        StoreCommand::FindByEmail { email: "odd@x.org".to_string() },
        numbered(0),
    );
    assert_eq!(listed(reply), vec!["dish1", "dish3", "dish5"]);
    let reply = store.execute(
        StoreCommand::FindByEmail { email: "even@x.org".to_string() },
        numbered(0),
    );
    assert_eq!(listed(reply), vec!["dish2", "dish4"]);
}

#[test]
fn find_by_email_matches_exactly() {
    let mut store = filled(5);
    for email in ["nobody@x.org", "odd@x.or", "ODD@x.org", "odd@x.org ", ""] {
        let reply = store.execute(
            StoreCommand::FindByEmail { email: email.to_string() },
            numbered(0),
        );
        assert_eq!(reply, StoreReply::Documents { list: vec![] });
    }
}

#[test]
fn second_page_of_five_holds_the_sixth_to_tenth() {
    let mut store = filled(12);
    let first = listed(store.execute(StoreCommand::FindPage { skip: 0, limit: 5 }, numbered(0)));
    let second = listed(store.execute(StoreCommand::FindPage { skip: 5, limit: 5 }, numbered(0)));
    assert_eq!(first, vec!["dish1", "dish2", "dish3", "dish4", "dish5"]);
    assert_eq!(second, vec!["dish6", "dish7", "dish8", "dish9", "dish10"]);
    for title in &second {
        assert!(!first.contains(title));
    }
}

#[test]
fn last_page_may_be_short() {
    let mut store = filled(12);
    let third = listed(store.execute(StoreCommand::FindPage { skip: 10, limit: 5 }, numbered(0)));
    assert_eq!(third, vec!["dish11", "dish12"]);
}

#[test]
fn page_past_the_end_is_empty() {
    let mut store = filled(12);
    let reply = store.execute(StoreCommand::FindPage { skip: 12, limit: 5 }, numbered(0));
    assert_eq!(reply, StoreReply::Documents { list: vec![] });
    let reply = store.execute(StoreCommand::FindPage { skip: 15, limit: 5 }, numbered(0));
    assert_eq!(reply, StoreReply::Documents { list: vec![] });
    let reply = store.execute(
        StoreCommand::FindPage { skip: u64::MAX, limit: u32::MAX },
        numbered(0),
    );
    assert_eq!(reply, StoreReply::Documents { list: vec![] });
}

#[test]
fn page_larger_than_the_collection_holds_everything() {
    let mut store = filled(3);
    let all = listed(store.execute(
        StoreCommand::FindPage { skip: 0, limit: u32::MAX },
        numbered(0),
    ));
    assert_eq!(all, vec!["dish1", "dish2", "dish3"]);
    let tail = listed(store.execute(
        StoreCommand::FindPage { skip: 1, limit: u32::MAX },
        numbered(0),
    ));
    assert_eq!(tail, vec!["dish2", "dish3"]);
}

fn replacement(store: &mut RecipeCollection, n: u8, recipe: Recipe, now: i64) -> StoreReply {
    let repo = MongoRepo::init();
    let command = repo.update_recipe_by_id_at(&numbered(n).to_hex(), recipe, now).unwrap();
    store.execute(command, numbered(0))
}

#[test]
fn replace_sets_the_client_fields_and_keeps_the_rest() {
    let mut store = filled(3);
    let mut new_recipe = dish("Stew", "new@x.org", 50);
    new_recipe.created = None;
    new_recipe.tags = vec!["slow".to_string(), "winter".to_string()];
    let reply = replacement(&mut store, 2, new_recipe, 60);
    let expected = Recipe {
        id: Some(numbered(2)),
        title: "Stew".to_string(),
        description: "Stew as it should be".to_string(),
        steps: vec!["prepare".to_string(), "cook".to_string()],
        ingredients: vec!["salt".to_string()],
        email: "new@x.org".to_string(),
        tags: vec!["slow".to_string(), "winter".to_string()],
        photo_url: "http://img/Stew.png".to_string(),
        created: Some(2),
        updated: 60,
    };
    assert_eq!(reply, StoreReply::Document { found: Some(expected.clone()) });
    assert_eq!(
        store.documents(),
        vec![stored_dish(1, "dish1", "odd@x.org", 1), expected, stored_dish(3, "dish3", "odd@x.org", 3)]
    );
}

#[test]
fn replace_ignores_the_identifier_and_timestamps_of_the_new_recipe() {
    let mut store = filled(3);
    let mut new_recipe = stored_dish(3, "Stew", "new@x.org", 50);
    new_recipe.created = Some(49);
    let reply = replacement(&mut store, 2, new_recipe, 60);
    match reply {
        StoreReply::Document { found: Some(after) } => {
            assert_eq!(after.id, Some(numbered(2)));
            assert_eq!(after.created, Some(2));
            assert_eq!(after.updated, 60);
            assert_eq!(after.title, "Stew");
        }
        other => panic!("unexpected reply {:?}", other),
    }
    assert_eq!(store.len(), 3);
    let reply = store.execute(StoreCommand::FindOne { id: numbered(3) }, numbered(0));
    assert_eq!(reply, StoreReply::Document { found: Some(stored_dish(3, "dish3", "odd@x.org", 3)) });
}

#[test]
fn replace_of_an_unknown_identifier_changes_nothing() {
    let mut store = filled(3);
    let before = store.documents();
    let reply = replacement(&mut store, 8, dish("Stew", "new@x.org", 50), 60);
    assert_eq!(reply, StoreReply::Document { found: None });
    assert_eq!(store.documents(), before);
}

#[test]
fn update_changes_only_the_named_fields() {
    let mut store = filled(3);
    let reply = store.execute(
        StoreCommand::FindOneAndUpdate {
            id: numbered(2),
            fields: vec![
                FieldUpdate::Title("Renamed".to_string()),
                FieldUpdate::Steps(vec!["one".to_string()]),
            ],
            updated: 100,
        },
        numbered(0),
    );
    let mut expected = stored_dish(2, "dish2", "even@x.org", 2);
    expected.title = "Renamed".to_string();
    expected.steps = vec!["one".to_string()];
    expected.updated = 100;
    assert_eq!(expected.created, Some(2));
    assert_eq!(reply, StoreReply::Document { found: Some(expected.clone()) });
    assert_eq!(
        store.documents(),
        vec![stored_dish(1, "dish1", "odd@x.org", 1), expected, stored_dish(3, "dish3", "odd@x.org", 3)]
    );
}

#[test]
fn update_without_fields_refreshes_the_time_only() {
    let mut store = filled(2);
    let reply = store.execute(
        StoreCommand::FindOneAndUpdate { id: numbered(1), fields: vec![], updated: 100 },
        numbered(0),
    );
    let mut expected = stored_dish(1, "dish1", "odd@x.org", 1);
    expected.updated = 100;
    assert_eq!(reply, StoreReply::Document { found: Some(expected) });
}

#[test]
fn update_keeps_the_later_of_two_values() {
    let mut store = filled(1);
    let reply = store.execute(
        StoreCommand::FindOneAndUpdate {
            id: numbered(1),
            fields: vec![
                FieldUpdate::PhotoUrl("http://first".to_string()),
                FieldUpdate::Email("moved@x.org".to_string()),
                FieldUpdate::PhotoUrl("http://second".to_string()),
            ],
            updated: 9,
        },
        numbered(0),
    );
    let mut expected = stored_dish(1, "dish1", "odd@x.org", 1);
    expected.photo_url = "http://second".to_string();
    expected.email = "moved@x.org".to_string();
    expected.updated = 9;
    assert_eq!(reply, StoreReply::Document { found: Some(expected) });
}

#[test]
fn update_of_an_unknown_identifier_changes_nothing() {
    let mut store = filled(3);
    let before = store.documents();
    let reply = store.execute(
        StoreCommand::FindOneAndUpdate {
            id: numbered(9),
            fields: vec![FieldUpdate::Title("Renamed".to_string())],
            updated: 100,
        },
        numbered(0),
    );
    assert_eq!(reply, StoreReply::Document { found: None });
    assert_eq!(store.documents(), before);
}

#[test]
fn delete_hands_the_document_back_and_removes_it() {
    let mut store = filled(3);
    let reply = store.execute(StoreCommand::FindOneAndDelete { id: numbered(2) }, numbered(0));
    assert_eq!(reply, StoreReply::Document { found: Some(stored_dish(2, "dish2", "even@x.org", 2)) });
    assert_eq!(
        store.documents(),
        vec![stored_dish(1, "dish1", "odd@x.org", 1), stored_dish(3, "dish3", "odd@x.org", 3)]
    );
    let reply = store.execute(StoreCommand::FindOne { id: numbered(2) }, numbered(0));
    assert_eq!(reply, StoreReply::Document { found: None });
}

#[test]
fn delete_of_an_unknown_identifier_changes_nothing() {
    let mut store = filled(3);
    let reply = store.execute(StoreCommand::FindOneAndDelete { id: numbered(4) }, numbered(0));
    assert_eq!(reply, StoreReply::Document { found: None });
    assert_eq!(store.len(), 3);
}

#[test]
fn deleted_identifier_can_be_inserted_again() {
    let mut store = filled(2);
    store.execute(StoreCommand::FindOneAndDelete { id: numbered(1) }, numbered(0));
    let reply = store.execute(
        StoreCommand::InsertOne { recipe: dish("Back", "odd@x.org", 8) },
        numbered(1),
    );
    assert_eq!(reply, StoreReply::Inserted { id: numbered(1) });
    let titles: Vec<String> = store.documents().into_iter().map(|r| r.title).collect();
    assert_eq!(titles, vec!["dish2", "Back"]);
}

#[test]
fn apply_field_sets_each_field() {
    let mut recipe = dish("Soup", "a@b.com", 1);
    apply_field(&mut recipe, &FieldUpdate::Title("T".to_string()));
    apply_field(&mut recipe, &FieldUpdate::Description("D".to_string()));
    apply_field(&mut recipe, &FieldUpdate::Steps(vec!["s".to_string()]));
    apply_field(&mut recipe, &FieldUpdate::Ingredients(vec!["i".to_string()]));
    apply_field(&mut recipe, &FieldUpdate::Email("e".to_string()));
    apply_field(&mut recipe, &FieldUpdate::Tags(vec!["t".to_string()]));
    apply_field(&mut recipe, &FieldUpdate::PhotoUrl("p".to_string()));
    let expected = Recipe {
        id: None,
        title: "T".to_string(),
        description: "D".to_string(),
        steps: vec!["s".to_string()],
        ingredients: vec!["i".to_string()],
        email: "e".to_string(),
        tags: vec!["t".to_string()],
        photo_url: "p".to_string(),
        created: Some(1),
        updated: 1,
    };
    assert_eq!(recipe, expected);
}

#[test]
fn apply_fields_goes_through_the_list_in_order() {
    let mut recipe = dish("Soup", "a@b.com", 1);
    let fields = vec![
        FieldUpdate::Title("First".to_string()),
        FieldUpdate::Title("Second".to_string()),
        FieldUpdate::Tags(vec![]),
    ];
    apply_fields(&mut recipe, &fields);
    let mut expected = dish("Soup", "a@b.com", 1);
    expected.title = "Second".to_string();
    expected.tags = vec![];
    assert_eq!(recipe, expected);
}
