use recipes::api::{
    add_recipe, created_response, delete_recipe, get_recipes, list_response, no_content_response,
    update_recipe, Body, CREATED, INTERNAL_SERVER_ERROR, NO_CONTENT, OK, STORE_FAILED,
};
use recipes::error::StoreError;
use recipes::recipe::{DeleteRecipe, Recipe, Submission};
use recipes::table::RecipeTable;

fn submission(url: &str, title: &str, notes: &str, images: &[&str]) -> Submission {
    Submission {
        url: url.to_string(),
        title: title.to_string(),
        notes: notes.to_string(),
        images: images.iter().map(|s| s.to_string()).collect(),
    }
}

fn listed(table: &RecipeTable) -> Vec<Recipe> {
    match get_recipes(table) {
        recipes::api::Response { status: OK, body: Body::Recipes(rows) } => rows,
        _ => panic!("list did not answer 200 with recipes"),
    }
}

#[test]
fn insert_then_list_round_trip() {
    let mut table = RecipeTable::new();
    let sub = submission("http://a.example/soup", "Soup", "salt", &["a.png", "b.jpg"]);
    let created = add_recipe(&mut table, sub);
    assert_eq!(created.status, CREATED);
    let id = match created.body {
        Body::Recipe(r) => {
            assert_eq!(r.url, "http://a.example/soup");
            assert_eq!(r.title, "Soup");
            assert_eq!(r.notes, "salt");
            assert_eq!(r.images, vec!["a.png".to_string(), "b.jpg".to_string()]);
            r.id
        }
        _ => panic!("create did not answer with a recipe"),
    };
    assert!(id > 0);
    let rows = listed(&table);
    assert_eq!(rows.len(), 1);
    assert_eq!(rows[0].id, id);
    assert_eq!(rows[0].url, "http://a.example/soup");
    assert_eq!(rows[0].title, "Soup");
    assert_eq!(rows[0].notes, "salt");
    assert_eq!(rows[0].images, vec!["a.png".to_string(), "b.jpg".to_string()]);
}

#[test]
fn empty_fields_are_accepted() {
    let mut table = RecipeTable::new();
    let r = table.insert(&submission("", "", "", &[])).unwrap();
    assert_eq!(r.id, 1);
    assert_eq!(r.url, "");
    assert!(r.images.is_empty());
    assert_eq!(table.list().len(), 1);
}

#[test]
fn ids_are_never_reused() {
    let mut table = RecipeTable::new();
    let a = table.insert(&submission("a", "A", "", &[])).unwrap();
    let b = table.insert(&submission("b", "B", "", &[])).unwrap();
    assert_eq!((a.id, b.id), (1, 2));
    assert!(table.delete(b.id));
    let c = table.insert(&submission("c", "C", "", &[])).unwrap();
    assert_eq!(c.id, 3);
    let ids: Vec<i32> = table.list().iter().map(|r| r.id).collect();
    assert_eq!(ids, vec![1, 3]);
}

#[test]
fn delete_twice_answers_no_content() {
    let mut table = RecipeTable::new();
    let a = table.insert(&submission("a", "A", "", &[])).unwrap();
    let b = table.insert(&submission("b", "B", "", &[])).unwrap();
    let first = delete_recipe(&mut table, DeleteRecipe { id: a.id });
    assert_eq!(first.status, NO_CONTENT);
    assert!(matches!(first.body, Body::Empty));
    let rows = listed(&table);
    assert_eq!(rows.len(), 1);
    assert_eq!(rows[0].id, b.id);
    let second = delete_recipe(&mut table, DeleteRecipe { id: a.id });
    assert_eq!(second.status, NO_CONTENT);
    assert_eq!(listed(&table).len(), 1);
    assert!(!table.delete(a.id));
}

#[test]
fn update_of_missing_id_creates_no_row() {
    let mut table = RecipeTable::new();
    table.insert(&submission("a", "A", "n", &[])).unwrap();
    let ghost = Recipe {
        id: 42,
        url: "x".to_string(),
        title: "X".to_string(),
        notes: String::new(),
        images: vec![],
    };
    let r = update_recipe(&mut table, ghost);
    assert_eq!(r.status, NO_CONTENT);
    let rows = listed(&table);
    assert_eq!(rows.len(), 1);
    assert_eq!(rows[0].url, "a");
}

#[test]
fn update_replaces_matching_row() {
    let mut table = RecipeTable::new();
    let a = table.insert(&submission("a", "A", "n", &[])).unwrap();
    let b = table.insert(&submission("b", "B", "m", &[])).unwrap();
    let changed = Recipe {
        id: a.id,
        url: "a2".to_string(),
        title: "A2".to_string(),
        notes: "n2".to_string(),
        images: vec!["k.png".to_string()],
    };
    assert!(table.update(&changed));
    let rows = listed(&table);
    assert_eq!(rows.len(), 2);
    assert_eq!(rows[0].id, a.id);
    assert_eq!(rows[0].url, "a2");
    assert_eq!(rows[0].title, "A2");
    assert_eq!(rows[0].notes, "n2");
    assert_eq!(rows[0].images, vec!["k.png".to_string()]);
    assert_eq!(rows[1].id, b.id);
    assert_eq!(rows[1].url, "b");
}

#[test]
fn store_failures_answer_500() {
    let l = list_response(Err(StoreError::Unavailable));
    assert_eq!(l.status, INTERNAL_SERVER_ERROR);
    assert!(matches!(l.body, Body::Error(ref m) if m == STORE_FAILED));
    let sub = submission("a", "A", "", &[]);
    let c = created_response(&sub, Err(StoreError::IdsExhausted));
    assert_eq!(c.status, INTERNAL_SERVER_ERROR);
    let n = no_content_response(Err(StoreError::Unavailable));
    assert_eq!(n.status, INTERNAL_SERVER_ERROR);
    assert!(matches!(n.body, Body::Error(ref m) if m == "Failed to query the database"));
}

#[test]
fn store_results_map_to_statuses() {
    let sub = submission("u", "T", "N", &["i.png"]);
    match created_response(&sub, Ok(7)) {
        recipes::api::Response { status: CREATED, body: Body::Recipe(r) } => {
            assert_eq!(r.id, 7);
            assert_eq!(r.url, "u");
            assert_eq!(r.images, vec!["i.png".to_string()]);
        }
        _ => panic!("expected 201 with the recipe"),
    }
    assert_eq!(no_content_response(Ok(())).status, 204);
    match list_response(Ok(vec![])) {
        recipes::api::Response { status: 200, body: Body::Recipes(v) } => assert!(v.is_empty()),
        _ => panic!("expected 200 with an empty list"),
    }
}
