//! Data access for questions.
//!
//! Each operation is a step before the store (checking the identifier) and a
//! step after it (turning the store's reply into a domain result). The
//! statements themselves, and what they do, are described in `store`.
use vstd::prelude::*;
use vstd::string::*;
use crate::ids::{hyphenated, parse_uuid, uuid_parse, uuid_text};
use crate::models::{DBError, QuestionDetail, QuestionRow, StoreError};
use crate::store::{question_records, QuestionRecord};

verus! {

/// The client-facing form of a stored question.
pub open spec fn renders_question(row: QuestionRecord, d: QuestionDetail) -> bool {
    &&& d.question_uuid@ == hyphenated(row.question_uuid)
    &&& uuid_parse(d.question_uuid@) is Ok
    &&& uuid_parse(d.question_uuid@)->Ok_0 == row.question_uuid
    &&& d.title@ == row.title
    &&& d.description@ == row.description
    &&& d.created_at@ == row.created_at
}

/// `ds` renders `rows`, one for one and in the same order.
pub open spec fn renders_questions(rows: Seq<QuestionRecord>, ds: Seq<QuestionDetail>) -> bool {
    &&& ds.len() == rows.len()
    &&& forall|i: int| 0 <= i < rows.len() ==> renders_question(rows[i], #[trigger] ds[i])
}

/// The message of the identifier error for a question identifier `s` that
/// does not parse.
pub open spec fn invalid_question_message(s: Seq<char>) -> Seq<char> {
    s + " "@ + uuid_parse(s)->Err_0
}

/// The decisions of the questions data-access object.
pub struct QuestionsDao;

fn question_detail(row: &QuestionRow) -> (d: QuestionDetail)
    ensures
        renders_question(row@, d),
{
    QuestionDetail {
        question_uuid: uuid_text(row.question_uuid),
        title: row.title.clone(),
        description: row.description.clone(),
        created_at: row.created_at.clone(),
    }
}

impl QuestionsDao {
    /// Completes a create: the inserted row becomes a `QuestionDetail`; any
    /// store failure is `Other`.
    pub fn finish_create_question(reply: Result<QuestionRow, StoreError>) -> (r: Result<QuestionDetail, DBError>)
        ensures
            reply is Ok <==> r is Ok,
            reply is Ok ==> renders_question(reply->Ok_0@, r->Ok_0),
            reply is Err ==> r->Err_0.is_other(reply->Err_0.message_view()),
    {
        match reply {
            Ok(row) => Ok(question_detail(&row)),
            Err(e) => Err(DBError::from_store(e)),
        }
    }

    /// Completes a listing: every row becomes a `QuestionDetail`, in the
    /// order the store gave; any store failure is `Other`.
    pub fn finish_get_questions(reply: Result<Vec<QuestionRow>, StoreError>) -> (r: Result<
        Vec<QuestionDetail>,
        DBError,
    >)
        ensures
            reply is Ok <==> r is Ok,
            reply is Ok ==> renders_questions(question_records(reply->Ok_0@), r->Ok_0@),
            reply is Err ==> r->Err_0.is_other(reply->Err_0.message_view()),
    {
        match reply {
            Ok(rows) => {
                let mut out: Vec<QuestionDetail> = Vec::new();
                let mut i: usize = 0;
                while i < rows.len()
                    invariant
                        i <= rows.len(),
                        out@.len() == i,
                        forall|j: int| 0 <= j < i ==> renders_question(rows@[j]@, #[trigger] out@[j]),
                    decreases rows.len() - i,
                {
                    let d = question_detail(&rows[i]);
                    out.push(d);
                    i += 1;
                }
                assert(renders_questions(question_records(rows@), out@));
                Ok(out)
            },
            Err(e) => Err(DBError::from_store(e)),
        }
    }

    /// Checks the identifier of a question to delete: the value to delete by,
    /// or `InvalidUUID` naming the input, in which case the store is not asked.
    pub fn start_delete_question(question_uuid: &String) -> (r: Result<u128, DBError>)
        ensures
            uuid_parse(question_uuid@) is Ok <==> r is Ok,
            r is Ok ==> r->Ok_0 == uuid_parse(question_uuid@)->Ok_0,
            r is Err ==> r->Err_0.is_invalid_uuid(invalid_question_message(question_uuid@)),
    {
        match parse_uuid(question_uuid.as_str()) {
            Ok(u) => Ok(u),
            Err(m) => {
                let mut msg = question_uuid.clone();
                msg.append(" ");
                msg.append(m.as_str());
                Err(DBError::InvalidUUID(msg))
            },
        }
    }

    /// Completes a delete: success whatever number of rows it removed, none
    /// included; any store failure is `Other`.
    pub fn finish_delete_question(reply: Result<u64, StoreError>) -> (r: Result<(), DBError>)
        ensures
            reply is Ok <==> r is Ok,
            reply is Err ==> r->Err_0.is_other(reply->Err_0.message_view()),
    {
        match reply {
            Ok(_) => Ok(()),
            Err(e) => Err(DBError::from_store(e)),
        }
    }
}

} // verus!
