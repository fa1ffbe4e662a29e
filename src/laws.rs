//! Properties of the data-access steps taken together with the store model.
use vstd::prelude::*;
use crate::ids::uuid_parse;
use crate::answers_dao::{create_answer_result, renders_answer, renders_answers};
use crate::models::{
    Answer, AnswerDetail, AnswerRow, DBError, Question, QuestionDetail, QuestionRow, StoreError,
};
use crate::questions_dao::{renders_question, renders_questions};
use crate::store::{
    answer_records, answer_reply, answers_of, deletes_answer, deletes_question, has_answer, has_question,
    inserts_answer, inserts_question, question_records, selects_answers, selects_questions,
    AnswerRecord, QuestionRecord, Tables,
};

verus! {

broadcast use {vstd::seq_lib::group_seq_properties, vstd::seq_lib::group_filter_ensures};

/// Filtering out a value that no element has leaves a sequence as it is.
proof fn lemma_filter_keeps_all<A>(s: Seq<A>, pred: spec_fn(A) -> bool)
    requires
        forall|i: int| 0 <= i < s.len() ==> pred(#[trigger] s[i]),
    ensures
        s.filter(pred) == s,
    decreases s.len(),
{
    reveal_with_fuel(Seq::filter, 1);
    if s.len() > 0 {
        let init = s.drop_last();
        assert forall|i: int| 0 <= i < init.len() implies pred(#[trigger] init[i]) by {
            assert(init[i] == s[i]);
        }
        lemma_filter_keeps_all(init, pred);
        assert(s =~= init.push(s.last()));
    }
}

/// A question that was created is in every later listing of the questions,
/// with the title and description it was created with and an identifier that
/// reads back as an identifier.
pub proof fn lemma_created_question_is_listed(
    db: Tables,
    question: Question,
    created: QuestionRow,
    detail: QuestionDetail,
    after: Tables,
    listed: Seq<QuestionRow>,
    details: Seq<QuestionDetail>,
)
    requires
        inserts_question(db, question.title@, question.description@, Ok(created@), after),
        renders_question(created@, detail),
        selects_questions(after, Ok(question_records(listed))),
        renders_questions(question_records(listed), details),
    ensures
        detail.title@ == question.title@,
        detail.description@ == question.description@,
        uuid_parse(detail.question_uuid@) is Ok,
        exists|i: int|
            0 <= i < details.len() && (#[trigger] details[i]).question_uuid@ == detail.question_uuid@
                && details[i].title@ == question.title@ && details[i].description@
                == question.description@,
{
    let recs = question_records(listed);
    assert(after.questions.last() == created@);
    assert(after.questions.contains(created@));
    assert(recs.to_multiset().count(created@) > 0);
    assert(recs.contains(created@));
    let i = choose|i: int| 0 <= i < recs.len() && recs[i] == created@;
    assert(renders_question(recs[i], details[i]));
}

/// Deleting a question whose identifier no row has changes nothing, so a
/// second delete of one identifier changes nothing either.
pub proof fn lemma_delete_question_idempotent(db: Tables, q: u128, n: u64, after: Tables)
    requires
        !has_question(db, q),
        deletes_question(db, q, Ok(n), after),
    ensures
        after == db,
{
    assert forall|i: int| 0 <= i < db.questions.len() implies (|r: QuestionRecord|
        r.question_uuid != q)(#[trigger] db.questions[i]) by {}
    lemma_filter_keeps_all(db.questions, |r: QuestionRecord| r.question_uuid != q);
}

/// After a delete of a question, none is left with that identifier.
pub proof fn lemma_deleted_question_is_gone(db: Tables, q: u128, n: u64, after: Tables)
    requires
        deletes_question(db, q, Ok(n), after),
    ensures
        !has_question(after, q),
{
}

/// Deleting an answer whose identifier no row has changes nothing, so a
/// second delete of one identifier changes nothing either.
pub proof fn lemma_delete_answer_idempotent(db: Tables, a: u128, n: u64, after: Tables)
    requires
        !has_answer(db, a),
        deletes_answer(db, a, Ok(n), after),
    ensures
        after == db,
{
    assert forall|i: int| 0 <= i < db.answers.len() implies (|r: AnswerRecord|
        r.answer_uuid != a)(#[trigger] db.answers[i]) by {}
    lemma_filter_keeps_all(db.answers, |r: AnswerRecord| r.answer_uuid != a);
}

/// An answer to a well-formed identifier that no question has is refused
/// as an identifier error, not a store failure, whenever the store runs the
/// insert; and nothing is stored.
pub proof fn lemma_answer_to_missing_question_is_invalid(
    db: Tables,
    answer: Answer,
    reply: Result<AnswerRow, StoreError>,
    after: Tables,
    r: Result<AnswerDetail, DBError>,
)
    requires
        uuid_parse(answer.question_uuid@) is Ok,
        !has_question(db, uuid_parse(answer.question_uuid@)->Ok_0),
        inserts_answer(
            db,
            uuid_parse(answer.question_uuid@)->Ok_0,
            answer.content@,
            answer_reply(reply),
            after,
        ),
        !(reply is Err && reply->Err_0 is Failed),
        create_answer_result(answer, reply, r),
    ensures
        r is Err,
        r->Err_0 is InvalidUUID,
        after == db,
{
}

/// A question without answers lists as an empty sequence.
pub proof fn lemma_no_answers_lists_empty(
    db: Tables,
    q: u128,
    listed: Seq<AnswerRow>,
    details: Seq<AnswerDetail>,
)
    requires
        answers_of(db, q).len() == 0,
        selects_answers(db, q, Ok(answer_records(listed))),
        renders_answers(answer_records(listed), details),
    ensures
        details.len() == 0,
{
    assert(answer_records(listed).to_multiset().len() == 0);
}

/// An answer created under a question that had none is, afterwards, the one
/// answer listed for it, and refers to the question it was created under.
pub proof fn lemma_first_answer_is_listed(
    db: Tables,
    question_row: QuestionRecord,
    question: QuestionDetail,
    answer: Answer,
    created: AnswerRow,
    detail: AnswerDetail,
    after: Tables,
    listed: Seq<AnswerRow>,
    details: Seq<AnswerDetail>,
)
    requires
        renders_question(question_row, question),
        answer.question_uuid@ == question.question_uuid@,
        answers_of(db, question_row.question_uuid).len() == 0,
        inserts_answer(db, question_row.question_uuid, answer.content@, Ok(created@), after),
        renders_answer(created@, detail),
        selects_answers(after, question_row.question_uuid, Ok(answer_records(listed))),
        renders_answers(answer_records(listed), details),
    ensures
        detail.question_uuid@ == question.question_uuid@,
        detail.content@ == answer.content@,
        details.len() == 1,
        details[0].answer_uuid@ == detail.answer_uuid@,
        details[0].question_uuid@ == detail.question_uuid@,
        details[0].content@ == detail.content@,
        details[0].created_at@ == detail.created_at@,
{
    let q = question_row.question_uuid;
    reveal_with_fuel(Seq::filter, 1);
    assert(after.answers.drop_last() =~= db.answers);
    assert(answers_of(after, q) =~= answers_of(db, q).push(created@));
    assert(answers_of(db, q) =~= Seq::<AnswerRecord>::empty());
    let recs = answer_records(listed);
    assert(recs.to_multiset().len() == 1);
    assert(answers_of(after, q).contains(created@)) by {
        assert(answers_of(after, q)[0] == created@);
    }
    assert(answers_of(after, q).to_multiset().count(created@) > 0);
    assert(recs.to_multiset().count(created@) > 0);
    assert(recs.contains(created@));
    assert(recs[0] == created@);
    assert(renders_answer(recs[0], details[0]));
}

/// After an answer is deleted, no listing of answers holds it.
pub proof fn lemma_deleted_answer_is_not_listed(
    db: Tables,
    a: u128,
    n: u64,
    after: Tables,
    q: u128,
    listed: Seq<AnswerRow>,
    details: Seq<AnswerDetail>,
)
    requires
        deletes_answer(db, a, Ok(n), after),
        selects_answers(after, q, Ok(answer_records(listed))),
        renders_answers(answer_records(listed), details),
    ensures
        forall|i: int|
            0 <= i < details.len() ==> uuid_parse((#[trigger] details[i]).answer_uuid@)->Ok_0 != a,
{
    let recs = answer_records(listed);
    assert forall|i: int| 0 <= i < details.len() implies uuid_parse(
        (#[trigger] details[i]).answer_uuid@,
    )->Ok_0 != a by {
        assert(renders_answer(recs[i], details[i]));
        assert(recs.contains(recs[i]));
        assert(recs.to_multiset().count(recs[i]) > 0);
        assert(answers_of(after, q).contains(recs[i]));
        after.answers.lemma_filter_contains_rev(|r: AnswerRecord| r.question_uuid == q, recs[i]);
        let j = choose|j: int| 0 <= j < after.answers.len() && after.answers[j] == recs[i];
        assert(after.answers[j].answer_uuid != a);
    }
}

} // verus!
