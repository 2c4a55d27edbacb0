//! One handler per CRUD operation: validate the body, call exactly one
//! store operation, and map the outcome to a status code and payload.
//! A blank title is rejected before it reaches the store; an absent id
//! maps to a not-found error naming the id.

use vstd::prelude::*;

use crate::api::error::{ApiError, ApiErrorView};
use crate::api::request::{CreateTodoRequest, UpdateTodoRequest};
use crate::api::todo::Todo;
use crate::store::repository;
use crate::store::repository::{contains_id, TodoStore};
use crate::text::{dec_of_int, i64_to_dec, is_blank, str_is_blank};

verus! {

/// The message reported when no todo has the requested id.
pub open spec fn not_found_text(id: int) -> Seq<char> {
    "Todo with id "@ + dec_of_int(id) + " not found"@
}

/// The message reported when a title is empty or whitespace-only.
pub open spec fn empty_title_text() -> Seq<char> {
    "Title must not be empty"@
}

/// The not-found error for an id, with its message naming the id.
pub fn not_found_error(id: i64) -> (r: ApiError)
    ensures
        r@ == ApiErrorView::NotFound(not_found_text(id as int)),
{
    let mut m = String::from_str("Todo with id ");
    let digits = i64_to_dec(id);
    m.append(digits.as_str());
    m.append(" not found");
    ApiError::NotFound(m)
}

/// Reject a title that is empty or whitespace-only; both create and
/// update apply this same rule.
pub fn validate_title(title: &str) -> (r: Result<(), ApiError>)
    ensures
        r is Ok <==> !is_blank(title@),
        r matches Err(e) ==> e@ == ApiErrorView::Validation(empty_title_text()),
{
    if str_is_blank(title) {
        Err(ApiError::Validation(String::from_str("Title must not be empty")))
    } else {
        Ok(())
    }
}

/// Create: reject a blank title with a validation failure; else insert
/// and respond 201 with the created record, whose `completed` starts
/// false and whose timestamps are both `now`.
pub fn create(store: &mut TodoStore, body: &CreateTodoRequest, now: &str) -> (r: Result<
    (u16, Todo),
    ApiError,
>)
    requires
        old(store).wf(),
        old(store).spec_next_id() < i64::MAX,
    ensures
        final(store).wf(),
        is_blank(body@.title) ==> (r matches Err(e) && e@ == ApiErrorView::Validation(
            empty_title_text(),
        ) && *final(store) == *old(store)),
        !is_blank(body@.title) ==> (r matches Ok(p) && ({
            &&& p.0 == 201
            &&& p.1@.id == old(store).spec_next_id()
            &&& p.1@.title == body@.title
            &&& p.1@.description == body@.description
            &&& p.1@.completed == false
            &&& p.1@.created_at == now@
            &&& p.1@.updated_at == now@
            &&& final(store)@ == old(store)@.push(p.1)
            &&& final(store).spec_next_id() == old(store).spec_next_id() + 1
        })),
{
    match validate_title(body.title()) {
        Err(e) => Err(e),
        Ok(()) => {
            let todo = repository::create(store, body.title(), body.description(), now);
            Ok((201, todo))
        },
    }
}

/// List: respond with every record, in ascending id order; an empty
/// store yields an empty list, not an error.
pub fn list(store: &TodoStore) -> (r: Result<Vec<Todo>, ApiError>)
    ensures
        r matches Ok(v) && v@ == store@,
{
    Ok(repository::find_all(store))
}

/// Get by id: respond 200 with the record, or not-found if absent.
pub fn get_by_id(store: &TodoStore, id: i64) -> (r: Result<Todo, ApiError>)
    requires
        store.wf(),
    ensures
        contains_id(store@, id as int) ==> (r matches Ok(t) && exists|i: int|
            0 <= i < store@.len() && #[trigger] store@[i] == t && t@.id == id as int),
        !contains_id(store@, id as int) ==> (r matches Err(e) && e@ == ApiErrorView::NotFound(
            not_found_text(id as int),
        )),
{
    match repository::find_by_id(store, id) {
        Some(t) => Ok(t),
        None => Err(not_found_error(id)),
    }
}

/// Update: reject a blank title with a validation failure; else replace
/// title, description and completed together, or report not-found if the
/// id is absent, in which case nothing changes.
pub fn update(store: &mut TodoStore, id: i64, body: &UpdateTodoRequest, now: &str) -> (r: Result<
    Todo,
    ApiError,
>)
    requires
        old(store).wf(),
    ensures
        final(store).wf(),
        final(store).spec_next_id() == old(store).spec_next_id(),
        is_blank(body@.title) ==> (r matches Err(e) && e@ == ApiErrorView::Validation(
            empty_title_text(),
        ) && *final(store) == *old(store)),
        !is_blank(body@.title) && !contains_id(old(store)@, id as int) ==> (r matches Err(e) && e@
            == ApiErrorView::NotFound(not_found_text(id as int)) && final(store)@ == old(store)@),
        !is_blank(body@.title) && contains_id(old(store)@, id as int) ==> (r matches Ok(t) && ({
            &&& t@.id == id as int
            &&& t@.title == body@.title
            &&& t@.description == body@.description
            &&& t@.completed == body@.completed
            &&& t@.updated_at == now@
            &&& exists|i: int|
                0 <= i < old(store)@.len() && (#[trigger] old(store)@[i])@.id == id as int && t@.created_at
                    == old(store)@[i]@.created_at && final(store)@ == old(store)@.update(i, t)
        })),
{
    match validate_title(body.title()) {
        Err(e) => Err(e),
        Ok(()) => {
            match repository::update(
                store,
                id,
                body.title(),
                body.description(),
                body.completed(),
                now,
            ) {
                Some(t) => Ok(t),
                None => Err(not_found_error(id)),
            }
        },
    }
}

/// Delete: respond 204 with no body if a record was removed, or
/// not-found if the id was absent, in which case nothing changes.
pub fn delete(store: &mut TodoStore, id: i64) -> (r: Result<u16, ApiError>)
    requires
        old(store).wf(),
    ensures
        final(store).wf(),
        final(store).spec_next_id() == old(store).spec_next_id(),
        contains_id(old(store)@, id as int) ==> (r matches Ok(st) && st == 204 && exists|i: int|
            0 <= i < old(store)@.len() && (#[trigger] old(store)@[i])@.id == id as int
                && final(store)@ == old(store)@.remove(i)),
        !contains_id(old(store)@, id as int) ==> (r matches Err(e) && e@ == ApiErrorView::NotFound(
            not_found_text(id as int),
        ) && final(store)@ == old(store)@),
{
    if repository::delete(store, id) {
        Ok(204)
    } else {
        Err(not_found_error(id))
    }
}

} // verus!
