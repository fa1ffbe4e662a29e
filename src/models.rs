use vstd::prelude::*;

verus! {

/// A question as submitted by a client.
#[derive(Debug, Clone, PartialEq, Eq)]
pub struct Question {
    pub title: String,
    pub description: String,
}

/// A stored question, as returned to clients.
#[derive(Debug, Clone, PartialEq, Eq)]
pub struct QuestionDetail {
    pub question_uuid: String,
    pub title: String,
    pub description: String,
    pub created_at: String,
}

/// Identifies a question to delete or whose answers to list.
#[derive(Debug, Clone, PartialEq, Eq)]
pub struct QuestionId {
    pub question_uuid: String,
}

/// An answer as submitted by a client.
#[derive(Debug, Clone, PartialEq, Eq)]
pub struct Answer {
    pub question_uuid: String,
    pub content: String,
}

/// A stored answer, as returned to clients.
#[derive(Debug, Clone, PartialEq, Eq)]
pub struct AnswerDetail {
    pub answer_uuid: String,
    pub question_uuid: String,
    pub content: String,
    pub created_at: String,
}

/// Identifies an answer to delete.
#[derive(Debug, Clone, PartialEq, Eq)]
pub struct AnswerId {
    pub answer_uuid: String,
}

/// A data-access failure, classified.
#[derive(Debug, Clone, PartialEq, Eq)]
pub enum DBError {
    /// The caller supplied an identifier that is malformed, or that refers
    /// to a question that does not exist.
    InvalidUUID(String),
    /// Any other store failure; holds the text of its cause.
    Other(String),
}

impl DBError {
    /// Whether this is an identifier error carrying `msg`.
    pub open spec fn is_invalid_uuid(self, msg: Seq<char>) -> bool {
        self is InvalidUUID && self->InvalidUUID_0@ == msg
    }

    /// Whether this is a store failure whose cause reads `msg`.
    pub open spec fn is_other(self, msg: Seq<char>) -> bool {
        self is Other && self->Other_0@ == msg
    }

    /// Classifies a store failure that is not an identifier error.
    pub fn from_store(e: StoreError) -> (r: DBError)
        ensures
            r.is_other(e.message_view()),
    {
        match e {
            StoreError::Rejected { message, .. } => DBError::Other(message),
            StoreError::Failed { message } => DBError::Other(message),
        }
    }
}

/// SQLSTATE code of a foreign-key violation.
pub const FOREIGN_KEY_VIOLATION: &'static str = "23503";

/// A row of the `questions` table, as the store returned it.
#[derive(Debug, Clone, PartialEq, Eq)]
pub struct QuestionRow {
    pub question_uuid: u128,
    pub title: String,
    pub description: String,
    pub created_at: String,
}

/// A row of the `answers` table, as the store returned it.
#[derive(Debug, Clone, PartialEq, Eq)]
pub struct AnswerRow {
    pub answer_uuid: u128,
    pub question_uuid: u128,
    pub content: String,
    pub created_at: String,
}

/// A failure reported while running a statement on the store.
#[derive(Debug, Clone, PartialEq, Eq)]
pub enum StoreError {
    /// The store ran the statement and rejected it, with its SQLSTATE code
    /// when it gave one.
    Rejected { code: Option<String>, message: String },
    /// The statement did not complete (connection, pool or decoding trouble).
    Failed { message: String },
}

impl StoreError {
    /// The store's own description of the failure.
    pub open spec fn message_view(self) -> Seq<char> {
        match self {
            StoreError::Rejected { message, .. } => message@,
            StoreError::Failed { message } => message@,
        }
    }

    /// Whether the store rejected a statement for a foreign-key violation.
    pub open spec fn is_foreign_key_violation(self) -> bool {
        match self {
            StoreError::Rejected { code, .. } => code is Some && code->Some_0@ == FOREIGN_KEY_VIOLATION@,
            StoreError::Failed { .. } => false,
        }
    }
}

} // verus!
