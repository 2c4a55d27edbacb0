//! Inbound request shapes for create and update. The wire format requires
//! `title` for create and both `title` and `completed` for update; a
//! request value can only exist with those fields present.

use vstd::prelude::*;

verus! {

/// Ghost image of a create request.
#[verifier::ext_equal]
pub ghost struct CreateTodoRequestView {
    pub title: Seq<char>,
    pub description: Option<Seq<char>>,
}

/// The body of a create call: a title and an optional description.
#[derive(Debug, Clone)]
pub struct CreateTodoRequest {
    title: String,
    description: Option<String>,
}

impl View for CreateTodoRequest {
    type V = CreateTodoRequestView;

    closed spec fn view(&self) -> CreateTodoRequestView {
        CreateTodoRequestView { title: self.title@, description: self.description.deep_view() }
    }
}

impl CreateTodoRequest {
    /// Assemble a create request from its fields.
    pub fn new(title: String, description: Option<String>) -> (r: CreateTodoRequest)
        ensures
            r@ == (CreateTodoRequestView { title: title@, description: description.deep_view() }),
    {
        CreateTodoRequest { title, description }
    }

    pub fn title(&self) -> (r: &str)
        ensures
            r@ == self@.title,
    {
        self.title.as_str()
    }

    pub fn description(&self) -> (r: Option<&str>)
        ensures
            r.deep_view() == self@.description,
    {
        match &self.description {
            Some(s) => Some(s.as_str()),
            None => None,
        }
    }
}

/// Ghost image of an update request.
#[verifier::ext_equal]
pub ghost struct UpdateTodoRequestView {
    pub title: Seq<char>,
    pub description: Option<Seq<char>>,
    pub completed: bool,
}

/// The body of an update call: all three mutable fields, so an update
/// always replaces them together.
#[derive(Debug, Clone)]
pub struct UpdateTodoRequest {
    title: String,
    description: Option<String>,
    completed: bool,
}

impl View for UpdateTodoRequest {
    type V = UpdateTodoRequestView;

    closed spec fn view(&self) -> UpdateTodoRequestView {
        UpdateTodoRequestView {
            title: self.title@,
            description: self.description.deep_view(),
            completed: self.completed,
        }
    }
}

impl UpdateTodoRequest {
    /// Assemble an update request from its fields.
    pub fn new(title: String, description: Option<String>, completed: bool) -> (r:
        UpdateTodoRequest)
        ensures
            r@ == (UpdateTodoRequestView {
                title: title@,
                description: description.deep_view(),
                completed,
            }),
    {
        UpdateTodoRequest { title, description, completed }
    }

    pub fn title(&self) -> (r: &str)
        ensures
            r@ == self@.title,
    {
        self.title.as_str()
    }

    pub fn description(&self) -> (r: Option<&str>)
        ensures
            r.deep_view() == self@.description,
    {
        match &self.description {
            Some(s) => Some(s.as_str()),
            None => None,
        }
    }

    pub fn completed(&self) -> (r: bool)
        ensures
            r == self@.completed,
    {
        self.completed
    }
}

} // verus!
