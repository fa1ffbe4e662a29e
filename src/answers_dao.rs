//! Data access for answers.
//!
//! As for questions, each operation is a step before the store and a step
//! after it. Every identifier is checked before the store is asked; a
//! reference to a question that does not exist comes back from the store as a
//! foreign-key violation and is reported as an identifier error too.
use vstd::prelude::*;
use vstd::string::*;
use crate::ids::{hyphenated, parse_uuid, uuid_parse, uuid_text};
use crate::models::{Answer, AnswerDetail, AnswerRow, DBError, StoreError, FOREIGN_KEY_VIOLATION};
use crate::store::{answer_records, AnswerRecord};

verus! {

/// The client-facing form of a stored answer.
pub open spec fn renders_answer(row: AnswerRecord, d: AnswerDetail) -> bool {
    &&& d.answer_uuid@ == hyphenated(row.answer_uuid)
    &&& d.question_uuid@ == hyphenated(row.question_uuid)
    &&& uuid_parse(d.answer_uuid@) is Ok
    &&& uuid_parse(d.answer_uuid@)->Ok_0 == row.answer_uuid
    &&& uuid_parse(d.question_uuid@) is Ok
    &&& uuid_parse(d.question_uuid@)->Ok_0 == row.question_uuid
    &&& d.content@ == row.content
    &&& d.created_at@ == row.created_at
}

/// `ds` renders `rows`, one for one and in the same order.
pub open spec fn renders_answers(rows: Seq<AnswerRecord>, ds: Seq<AnswerDetail>) -> bool {
    &&& ds.len() == rows.len()
    &&& forall|i: int| 0 <= i < rows.len() ==> renders_answer(rows[i], #[trigger] ds[i])
}

/// The message of the identifier error for an answer that refers to a
/// question that does not exist.
pub open spec fn missing_question_message(question_uuid: Seq<char>) -> Seq<char> {
    "Invalid question uuid "@ + question_uuid
}

/// The result of completing a create on `answer` with the store's `reply`.
pub open spec fn create_answer_result(
    answer: Answer,
    reply: Result<AnswerRow, StoreError>,
    r: Result<AnswerDetail, DBError>,
) -> bool {
    match reply {
        Ok(row) => r is Ok && renders_answer(row@, r->Ok_0),
        Err(e) => r is Err && if e.is_foreign_key_violation() {
            r->Err_0.is_invalid_uuid(missing_question_message(answer.question_uuid@))
        } else {
            r->Err_0.is_other(e.message_view())
        },
    }
}

/// The decisions of the answers data-access object.
pub struct AnswersDao;

fn answer_detail(row: &AnswerRow) -> (d: AnswerDetail)
    ensures
        renders_answer(row@, d),
{
    AnswerDetail {
        answer_uuid: uuid_text(row.answer_uuid),
        question_uuid: uuid_text(row.question_uuid),
        content: row.content.clone(),
        created_at: row.created_at.clone(),
    }
}

/// Reads an identifier; a malformed one is `InvalidUUID` with the parser's
/// message.
fn checked_uuid(s: &String) -> (r: Result<u128, DBError>)
    ensures
        uuid_parse(s@) is Ok <==> r is Ok,
        r is Ok ==> r->Ok_0 == uuid_parse(s@)->Ok_0,
        r is Err ==> r->Err_0.is_invalid_uuid(uuid_parse(s@)->Err_0),
{
    match parse_uuid(s.as_str()) {
        Ok(u) => Ok(u),
        Err(m) => Err(DBError::InvalidUUID(m)),
    }
}

impl AnswersDao {
    /// Whether the store rejected a statement as a foreign-key violation.
    pub fn is_foreign_key_violation(e: &StoreError) -> (b: bool)
        ensures
            b == e.is_foreign_key_violation(),
    {
        match e {
            StoreError::Rejected { code, .. } => match code {
                Some(c) => {
                    let fk = String::from_str(FOREIGN_KEY_VIOLATION);
                    *c == fk
                },
                None => false,
            },
            StoreError::Failed { .. } => false,
        }
    }

    /// Checks the question identifier of a new answer: the question to
    /// insert under, or `InvalidUUID`, in which case the store is not asked.
    pub fn start_create_answer(answer: &Answer) -> (r: Result<u128, DBError>)
        ensures
            uuid_parse(answer.question_uuid@) is Ok <==> r is Ok,
            r is Ok ==> r->Ok_0 == uuid_parse(answer.question_uuid@)->Ok_0,
            r is Err ==> r->Err_0.is_invalid_uuid(uuid_parse(answer.question_uuid@)->Err_0),
    {
        checked_uuid(&answer.question_uuid)
    }

    /// Completes a create: the inserted row becomes an `AnswerDetail`; a
    /// foreign-key violation is `InvalidUUID` naming the question; any other
    /// store failure is `Other`.
    pub fn finish_create_answer(answer: &Answer, reply: Result<AnswerRow, StoreError>) -> (r: Result<
        AnswerDetail,
        DBError,
    >)
        ensures
            create_answer_result(*answer, reply, r),
    {
        match reply {
            Ok(row) => Ok(answer_detail(&row)),
            Err(e) => {
                if Self::is_foreign_key_violation(&e) {
                    let mut msg = String::from_str("Invalid question uuid ");
                    msg.append(answer.question_uuid.as_str());
                    Err(DBError::InvalidUUID(msg))
                } else {
                    Err(DBError::from_store(e))
                }
            },
        }
    }

    /// Checks the question identifier whose answers to list: the value to
    /// select by, or `InvalidUUID`, in which case the store is not asked.
    pub fn start_get_answers(question_uuid: &String) -> (r: Result<u128, DBError>)
        ensures
            uuid_parse(question_uuid@) is Ok <==> r is Ok,
            r is Ok ==> r->Ok_0 == uuid_parse(question_uuid@)->Ok_0,
            r is Err ==> r->Err_0.is_invalid_uuid(uuid_parse(question_uuid@)->Err_0),
    {
        checked_uuid(question_uuid)
    }

    /// Completes a listing: every row becomes an `AnswerDetail`, in the order
    /// the store gave, none being an empty list; any store failure is `Other`.
    pub fn finish_get_answers(reply: Result<Vec<AnswerRow>, StoreError>) -> (r: Result<
        Vec<AnswerDetail>,
        DBError,
    >)
        ensures
            reply is Ok <==> r is Ok,
            reply is Ok ==> renders_answers(answer_records(reply->Ok_0@), r->Ok_0@),
            reply is Err ==> r->Err_0.is_other(reply->Err_0.message_view()),
    {
        match reply {
            Ok(rows) => {
                let mut out: Vec<AnswerDetail> = Vec::new();
                let mut i: usize = 0;
                while i < rows.len()
                    invariant
                        i <= rows.len(),
                        out@.len() == i,
                        forall|j: int| 0 <= j < i ==> renders_answer(rows@[j]@, #[trigger] out@[j]),
                    decreases rows.len() - i,
                {
                    let d = answer_detail(&rows[i]);
                    out.push(d);
                    i += 1;
                }
                assert(renders_answers(answer_records(rows@), out@));
                Ok(out)
            },
            Err(e) => Err(DBError::from_store(e)),
        }
    }

    /// Checks the identifier of an answer to delete: the answer's own
    /// identifier to delete by, or `InvalidUUID`, in which case the store is
    /// not asked.
    pub fn start_delete_answer(answer_uuid: &String) -> (r: Result<u128, DBError>)
        ensures
            uuid_parse(answer_uuid@) is Ok <==> r is Ok,
            r is Ok ==> r->Ok_0 == uuid_parse(answer_uuid@)->Ok_0,
            r is Err ==> r->Err_0.is_invalid_uuid(uuid_parse(answer_uuid@)->Err_0),
    {
        checked_uuid(answer_uuid)
    }

    /// Completes a delete: success whatever number of rows it removed, none
    /// included; any store failure is `Other`.
    pub fn finish_delete_answer(reply: Result<u64, StoreError>) -> (r: Result<(), DBError>)
        ensures
            reply is Ok <==> r is Ok,
            reply is Err ==> r->Err_0.is_other(reply->Err_0.message_view()),
    {
        match reply {
            Ok(_) => Ok(()),
            Err(e) => Err(DBError::from_store(e)),
        }
    }
}

} // verus!
