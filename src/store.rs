//! A model of the relational store: its two tables and what each statement
//! that the data-access steps issue does to them.
use vstd::prelude::*;
use crate::models::{AnswerRow, QuestionRow, StoreError};

verus! {

/// A row of `questions`.
pub struct QuestionRecord {
    pub question_uuid: u128,
    pub title: Seq<char>,
    pub description: Seq<char>,
    pub created_at: Seq<char>,
}

/// A row of `answers`.
pub struct AnswerRecord {
    pub answer_uuid: u128,
    pub question_uuid: u128,
    pub content: Seq<char>,
    pub created_at: Seq<char>,
}

/// The contents of the store.
pub struct Tables {
    pub questions: Seq<QuestionRecord>,
    pub answers: Seq<AnswerRecord>,
}

impl View for QuestionRow {
    type V = QuestionRecord;

    open spec fn view(&self) -> QuestionRecord {
        QuestionRecord {
            question_uuid: self.question_uuid,
            title: self.title@,
            description: self.description@,
            created_at: self.created_at@,
        }
    }
}

impl View for AnswerRow {
    type V = AnswerRecord;

    open spec fn view(&self) -> AnswerRecord {
        AnswerRecord {
            answer_uuid: self.answer_uuid,
            question_uuid: self.question_uuid,
            content: self.content@,
            created_at: self.created_at@,
        }
    }
}

pub open spec fn question_records(rows: Seq<QuestionRow>) -> Seq<QuestionRecord> {
    rows.map_values(|r: QuestionRow| r@)
}

pub open spec fn answer_records(rows: Seq<AnswerRow>) -> Seq<AnswerRecord> {
    rows.map_values(|r: AnswerRow| r@)
}

/// The store's reply to an answer insert, over records.
pub open spec fn answer_reply(reply: Result<AnswerRow, StoreError>) -> Result<AnswerRecord, StoreError> {
    match reply {
        Ok(row) => Ok(row@),
        Err(e) => Err(e),
    }
}

pub open spec fn has_question(db: Tables, q: u128) -> bool {
    exists|i: int| 0 <= i < db.questions.len() && (#[trigger] db.questions[i]).question_uuid == q
}

pub open spec fn has_answer(db: Tables, a: u128) -> bool {
    exists|i: int| 0 <= i < db.answers.len() && (#[trigger] db.answers[i]).answer_uuid == a
}

/// The answers that refer to question `q`, in table order.
pub open spec fn answers_of(db: Tables, q: u128) -> Seq<AnswerRecord> {
    db.answers.filter(|a: AnswerRecord| a.question_uuid == q)
}

/// `INSERT INTO questions (title, description) ... RETURNING *`: on success
/// the store adds one row with a fresh identifier and returns it; on failure
/// nothing changes.
pub open spec fn inserts_question(
    db: Tables,
    title: Seq<char>,
    description: Seq<char>,
    reply: Result<QuestionRecord, StoreError>,
    after: Tables,
) -> bool {
    match reply {
        Ok(row) => row.title == title && row.description == description && !has_question(
            db,
            row.question_uuid,
        ) && after == Tables { questions: db.questions.push(row), answers: db.answers },
        Err(_) => after == db,
    }
}

/// `SELECT * FROM questions`: every row, in an order the store picks.
pub open spec fn selects_questions(db: Tables, reply: Result<Seq<QuestionRecord>, StoreError>) -> bool {
    reply is Ok ==> reply->Ok_0.to_multiset() == db.questions.to_multiset()
}

/// `DELETE FROM questions WHERE question_uuid = q`: removes the rows with
/// that identifier (none, if there are none); answers are left as they are.
pub open spec fn deletes_question(db: Tables, q: u128, reply: Result<u64, StoreError>, after: Tables) -> bool {
    match reply {
        Ok(_) => after == Tables {
            questions: db.questions.filter(|r: QuestionRecord| r.question_uuid != q),
            answers: db.answers,
        },
        Err(_) => after == db,
    }
}

/// `INSERT INTO answers (question_uuid, content) ... RETURNING *`: the store
/// adds a row only where question `q` exists; where it does not, a statement
/// that the store runs is rejected as a foreign-key violation.
pub open spec fn inserts_answer(
    db: Tables,
    q: u128,
    content: Seq<char>,
    reply: Result<AnswerRecord, StoreError>,
    after: Tables,
) -> bool {
    match reply {
        Ok(row) => has_question(db, q) && row.question_uuid == q && row.content == content
            && !has_answer(db, row.answer_uuid) && after == Tables {
            questions: db.questions,
            answers: db.answers.push(row),
        },
        Err(e) => after == db && (!has_question(db, q) && e is Rejected ==> e.is_foreign_key_violation()),
    }
}

/// `SELECT * FROM answers WHERE question_uuid = q`: the answers of `q`, in
/// an order the store picks.
pub open spec fn selects_answers(db: Tables, q: u128, reply: Result<Seq<AnswerRecord>, StoreError>) -> bool {
    reply is Ok ==> reply->Ok_0.to_multiset() == answers_of(db, q).to_multiset()
}

/// `DELETE FROM answers WHERE answer_uuid = a`: removes the answer with that
/// identifier (none, if there is none).
pub open spec fn deletes_answer(db: Tables, a: u128, reply: Result<u64, StoreError>, after: Tables) -> bool {
    match reply {
        Ok(_) => after == Tables {
            questions: db.questions,
            answers: db.answers.filter(|r: AnswerRecord| r.answer_uuid != a),
        },
        Err(_) => after == db,
    }
}

} // verus!
