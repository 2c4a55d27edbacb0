//! The todo record: the single domain entity, with store-assigned id and
//! timestamps.

use vstd::prelude::*;

verus! {

/// Ghost image of a todo record.
#[verifier::ext_equal]
pub ghost struct TodoView {
    pub id: int,
    pub title: Seq<char>,
    pub description: Option<Seq<char>>,
    pub completed: bool,
    pub created_at: Seq<char>,
    pub updated_at: Seq<char>,
}

/// A todo record. The id is assigned by the store, exactly once, at
/// creation; the timestamps are store-assigned and never supplied by a
/// client.
#[derive(Debug, Clone)]
pub struct Todo {
    id: i64,
    title: String,
    description: Option<String>,
    completed: bool,
    created_at: String,
    updated_at: String,
}

impl View for Todo {
    type V = TodoView;

    closed spec fn view(&self) -> TodoView {
        TodoView {
            id: self.id as int,
            title: self.title@,
            description: self.description.deep_view(),
            completed: self.completed,
            created_at: self.created_at@,
            updated_at: self.updated_at@,
        }
    }
}

impl Todo {
    /// Assemble a record from its fields.
    pub fn new(
        id: i64,
        title: String,
        description: Option<String>,
        completed: bool,
        created_at: String,
        updated_at: String,
    ) -> (t: Todo)
        ensures
            t@ == (TodoView {
                id: id as int,
                title: title@,
                description: description.deep_view(),
                completed,
                created_at: created_at@,
                updated_at: updated_at@,
            }),
    {
        Todo { id, title, description, completed, created_at, updated_at }
    }

    /// An owned copy, equal to this record in every field.
    pub fn duplicate(&self) -> (t: Todo)
        ensures
            t == *self,
    {
        let description = match &self.description {
            Some(s) => Some(s.clone()),
            None => None,
        };
        Todo {
            id: self.id,
            title: self.title.clone(),
            description,
            completed: self.completed,
            created_at: self.created_at.clone(),
            updated_at: self.updated_at.clone(),
        }
    }

    pub fn id(&self) -> (r: i64)
        ensures
            r as int == self@.id,
    {
        self.id
    }

    pub fn title(&self) -> (r: &str)
        ensures
            r@ == self@.title,
    {
        self.title.as_str()
    }

    pub fn description(&self) -> (r: Option<&str>)
        ensures
            r.deep_view() == self@.description,
    {
        match &self.description {
            Some(s) => Some(s.as_str()),
            None => None,
        }
    }

    pub fn completed(&self) -> (r: bool)
        ensures
            r == self@.completed,
    {
        self.completed
    }

    pub fn created_at(&self) -> (r: &str)
        ensures
            r@ == self@.created_at,
    {
        self.created_at.as_str()
    }

    pub fn updated_at(&self) -> (r: &str)
        ensures
            r@ == self@.updated_at,
    {
        self.updated_at.as_str()
    }
}

} // verus!
