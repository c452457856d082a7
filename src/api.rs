use vstd::prelude::*;

use crate::error::StoreError;
use crate::recipe::{DeleteRecipe, Recipe, RecipeView, Submission};
use crate::table::{rows_view, RecipeTable};

verus! {

pub const OK: u16 = 200;
pub const CREATED: u16 = 201;
pub const NO_CONTENT: u16 = 204;
pub const BAD_REQUEST: u16 = 400;
pub const INTERNAL_SERVER_ERROR: u16 = 500;

/// The error message of a response whose statement failed in the store.
pub const STORE_FAILED: &'static str = "Failed to query the database";

/// The JSON payload of a response.
pub enum Body {
    /// No payload.
    Empty,
    /// A JSON array of recipes.
    Recipes(Vec<Recipe>),
    /// One recipe.
    Recipe(Recipe),
    /// `{filename}`.
    Filename(String),
    /// `{error}`.
    Error(String),
}

pub enum BodyView {
    Empty,
    Recipes(Seq<RecipeView>),
    Recipe(RecipeView),
    Filename(Seq<char>),
    Error(Seq<char>),
}

impl View for Body {
    type V = BodyView;

    open spec fn view(&self) -> BodyView {
        match self {
            Body::Empty => BodyView::Empty,
            Body::Recipes(v) => BodyView::Recipes(rows_view(v@)),
            Body::Recipe(r) => BodyView::Recipe(r@),
            Body::Filename(s) => BodyView::Filename(s@),
            Body::Error(s) => BodyView::Error(s@),
        }
    }
}

/// A status code and a payload.
pub struct Response {
    pub status: u16,
    pub body: Body,
}

pub struct ResponseView {
    pub status: u16,
    pub body: BodyView,
}

impl View for Response {
    type V = ResponseView;

    open spec fn view(&self) -> ResponseView {
        ResponseView { status: self.status, body: self.body@ }
    }
}

pub open spec fn store_failed() -> ResponseView {
    ResponseView { status: INTERNAL_SERVER_ERROR, body: BodyView::Error(STORE_FAILED@) }
}

/// A `{error}` response with the given status.
pub fn error_response(status: u16, message: &str) -> (r: Response)
    ensures
        r@ == (ResponseView { status, body: BodyView::Error(message@) }),
{
    Response { status, body: Body::Error(message.to_owned()) }
}

/// The response to a list request, given what the store returned.
pub fn list_response(result: Result<Vec<Recipe>, StoreError>) -> (r: Response)
    ensures
        match result {
            Ok(rows) => r@ == (ResponseView { status: OK, body: BodyView::Recipes(rows_view(rows@)) }),
            Err(_) => r@ == store_failed(),
        },
{
    match result {
        Ok(rows) => Response { status: OK, body: Body::Recipes(rows) },
        Err(_) => error_response(INTERNAL_SERVER_ERROR, STORE_FAILED),
    }
}

/// The response to a create request for `data`, given the id that the store
/// assigned or its failure.
pub fn created_response(data: &Submission, result: Result<i32, StoreError>) -> (r: Response)
    ensures
        match result {
            Ok(id) => r@ == (ResponseView {
                status: CREATED,
                body: BodyView::Recipe(data@.with_id(id as int)),
            }),
            Err(_) => r@ == store_failed(),
        },
{
    match result {
        Ok(id) => Response { status: CREATED, body: Body::Recipe(Recipe::from_submission(id, data)) },
        Err(_) => error_response(INTERNAL_SERVER_ERROR, STORE_FAILED),
    }
}

/// The response to an update or delete request, given whether the store
/// carried out the statement. A statement that matched no row succeeded.
pub fn no_content_response(result: Result<(), StoreError>) -> (r: Response)
    ensures
        match result {
            Ok(_) => r@ == (ResponseView { status: NO_CONTENT, body: BodyView::Empty }),
            Err(_) => r@ == store_failed(),
        },
{
    match result {
        Ok(_) => Response { status: NO_CONTENT, body: Body::Empty },
        Err(_) => error_response(INTERNAL_SERVER_ERROR, STORE_FAILED),
    }
}

/// `GET /`: every recipe, with status 200.
pub fn get_recipes(table: &RecipeTable) -> (r: Response)
    ensures
        r@ == (ResponseView { status: OK, body: BodyView::Recipes(table@.rows) }),
{
    list_response(Ok(table.list()))
}

/// `POST /`: stores `data` and answers 201 with the created recipe, or 500
/// once the table has no id left to hand out.
pub fn add_recipe(table: &mut RecipeTable, data: Submission) -> (r: Response)
    requires
        old(table).wf(),
    ensures
        final(table).wf(),
        old(table)@.next_id < i32::MAX ==> {
            &&& final(table)@ == old(table)@.inserted(data@)
            &&& r@ == (ResponseView {
                status: CREATED,
                body: BodyView::Recipe(data@.with_id(old(table)@.next_id)),
            })
        },
        old(table)@.next_id == i32::MAX ==> {
            &&& final(table)@ == old(table)@
            &&& r@ == store_failed()
        },
{
    let result = match table.insert(&data) {
        Ok(rec) => Ok(rec.id),
        Err(e) => Err(e),
    };
    created_response(&data, result)
}

/// `PUT /`: replaces the recipe with `data.id` and answers 204, also when
/// no recipe has that id.
pub fn update_recipe(table: &mut RecipeTable, data: Recipe) -> (r: Response)
    requires
        old(table).wf(),
    ensures
        final(table).wf(),
        final(table)@ == old(table)@.updated(data@),
        r@ == (ResponseView { status: NO_CONTENT, body: BodyView::Empty }),
{
    table.update(&data);
    no_content_response(Ok(()))
}

/// `DELETE /`: removes the recipe with `data.id` and answers 204, also when
/// no recipe has that id.
pub fn delete_recipe(table: &mut RecipeTable, data: DeleteRecipe) -> (r: Response)
    requires
        old(table).wf(),
    ensures
        final(table).wf(),
        final(table)@ == old(table)@.deleted(data.id as int),
        r@ == (ResponseView { status: NO_CONTENT, body: BodyView::Empty }),
{
    table.delete(data.id);
    no_content_response(Ok(()))
}

} // verus!
