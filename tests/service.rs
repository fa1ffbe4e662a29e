use qa_service::answers_dao::AnswersDao;
use qa_service::handlers::{handler_result, HandlerError, GENERIC_ERROR_MESSAGE};
use qa_service::models::{
    Answer, AnswerDetail, AnswerId, AnswerRow, DBError, Question, QuestionDetail, QuestionId,
    QuestionRow, StoreError, FOREIGN_KEY_VIOLATION,
};
use qa_service::questions_dao::QuestionsDao;

/// An in-memory stand-in for the relational store, running the statements
/// that the data-access steps ask for.
struct FakeStore {
    questions: Vec<QuestionRow>,
    answers: Vec<AnswerRow>,
    next_id: u128,
}

impl FakeStore {
    fn new() -> FakeStore {
        FakeStore { questions: Vec::new(), answers: Vec::new(), next_id: 0x1000 }
    }

    fn fresh(&mut self) -> u128 {
        self.next_id += 0x0123_4567_89ab;
        self.next_id
    }

    fn insert_question(&mut self, title: &str, description: &str) -> Result<QuestionRow, StoreError> {
        let row = QuestionRow {
            question_uuid: self.fresh(),
            title: title.to_string(),
            description: description.to_string(),
            created_at: "2024-01-01 00:00:00".to_string(),
        };
        self.questions.push(row.clone());
        Ok(row)
    }

    fn select_questions(&self) -> Result<Vec<QuestionRow>, StoreError> {
        Ok(self.questions.clone())
    }

    fn delete_question(&mut self, q: u128) -> Result<u64, StoreError> {
        let before = self.questions.len();
        self.questions.retain(|r| r.question_uuid != q);
        Ok((before - self.questions.len()) as u64)
    }

    fn insert_answer(&mut self, q: u128, content: &str) -> Result<AnswerRow, StoreError> {
        if !self.questions.iter().any(|r| r.question_uuid == q) {
            return Err(StoreError::Rejected {
                code: Some(FOREIGN_KEY_VIOLATION.to_string()),
                message: "insert or update on table \"answers\" violates foreign key constraint".to_string(),
            });
        }
        let row = AnswerRow {
            answer_uuid: self.fresh(),
            question_uuid: q,
            content: content.to_string(),
            created_at: "2024-01-01 00:00:01".to_string(),
        };
        self.answers.push(row.clone());
        Ok(row)
    }

    fn select_answers(&self, q: u128) -> Result<Vec<AnswerRow>, StoreError> {
        Ok(self.answers.iter().filter(|r| r.question_uuid == q).cloned().collect())
    }

    fn delete_answer(&mut self, a: u128) -> Result<u64, StoreError> {
        let before = self.answers.len();
        self.answers.retain(|r| r.answer_uuid != a);
        Ok((before - self.answers.len()) as u64)
    }
}

fn create_question(store: &mut FakeStore, question: Question) -> Result<QuestionDetail, DBError> {
    let reply = store.insert_question(&question.title, &question.description);
    QuestionsDao::finish_create_question(reply)
}

fn list_questions(store: &FakeStore) -> Result<Vec<QuestionDetail>, DBError> {
    QuestionsDao::finish_get_questions(store.select_questions())
}

fn delete_question(store: &mut FakeStore, id: QuestionId) -> Result<(), DBError> {
    let q = QuestionsDao::start_delete_question(&id.question_uuid)?;
    QuestionsDao::finish_delete_question(store.delete_question(q))
}

fn create_answer(store: &mut FakeStore, answer: Answer) -> Result<AnswerDetail, DBError> {
    let q = AnswersDao::start_create_answer(&answer)?;
    let reply = store.insert_answer(q, &answer.content);
    AnswersDao::finish_create_answer(&answer, reply)
}

fn list_answers(store: &FakeStore, id: QuestionId) -> Result<Vec<AnswerDetail>, DBError> {
    let q = AnswersDao::start_get_answers(&id.question_uuid)?;
    AnswersDao::finish_get_answers(store.select_answers(q))
}

fn delete_answer(store: &mut FakeStore, id: AnswerId) -> Result<(), DBError> {
    let a = AnswersDao::start_delete_answer(&id.answer_uuid)?;
    AnswersDao::finish_delete_answer(store.delete_answer(a))
}

fn question(title: &str, description: &str) -> Question {
    Question { title: title.to_string(), description: description.to_string() }
}

fn is_uuid_text(s: &str) -> bool {
    s.len() == 36
        && s.chars().enumerate().all(|(i, c)| {
            if i == 8 || i == 13 || i == 18 || i == 23 {
                c == '-'
            } else {
                c.is_ascii_digit() || ('a'..='f').contains(&c)
            }
        })
}

const MISSING: &str = "550e8400-e29b-41d4-a716-446655440000";

#[test]
fn created_question_is_listed() {
    let mut store = FakeStore::new();
    let detail = create_question(&mut store, question("How?", "Tell me how.")).unwrap();
    assert_eq!(detail.title, "How?");
    assert_eq!(detail.description, "Tell me how.");
    assert!(is_uuid_text(&detail.question_uuid));
    let listed = list_questions(&store).unwrap();
    assert_eq!(listed.len(), 1);
    assert_eq!(listed[0], detail);
}

#[test]
fn question_detail_keeps_created_at_and_formats_identifier() {
    let reply = Ok(QuestionRow {
        question_uuid: 0xa1a2a3a4b1b2c1c2d1d2d3d4d5d6d7d8,
        title: "t".to_string(),
        description: "d".to_string(),
        created_at: "2024-05-06 07:08:09".to_string(),
    });
    let detail = QuestionsDao::finish_create_question(reply).unwrap();
    assert_eq!(detail.question_uuid, "a1a2a3a4-b1b2-c1c2-d1d2-d3d4d5d6d7d8");
    assert_eq!(detail.created_at, "2024-05-06 07:08:09");
}

#[test]
fn identifier_with_leading_zeros_is_padded() {
    let reply = Ok(vec![QuestionRow {
        question_uuid: 1,
        title: String::new(),
        description: String::new(),
        created_at: String::new(),
    }]);
    let listed = QuestionsDao::finish_get_questions(reply).unwrap();
    assert_eq!(listed[0].question_uuid, "00000000-0000-0000-0000-000000000001");
}

#[test]
fn empty_question_listing_is_empty() {
    let store = FakeStore::new();
    assert_eq!(list_questions(&store).unwrap(), Vec::new());
}

#[test]
fn malformed_identifiers_are_refused_before_the_store() {
    for bad in ["not-a-uuid", "", "550e8400-e29b-41d4-a716-44665544000", "zzzzzzzz-e29b-41d4-a716-446655440000"] {
        assert!(matches!(QuestionsDao::start_delete_question(&bad.to_string()), Err(DBError::InvalidUUID(_))));
        assert!(matches!(AnswersDao::start_delete_answer(&bad.to_string()), Err(DBError::InvalidUUID(_))));
        assert!(matches!(AnswersDao::start_get_answers(&bad.to_string()), Err(DBError::InvalidUUID(_))));
        let answer = Answer { question_uuid: bad.to_string(), content: "x".to_string() };
        assert!(matches!(AnswersDao::start_create_answer(&answer), Err(DBError::InvalidUUID(_))));
    }
}

#[test]
fn malformed_question_delete_message_names_the_input() {
    match QuestionsDao::start_delete_question(&"abc".to_string()) {
        Err(DBError::InvalidUUID(m)) => assert!(m.starts_with("abc ")),
        other => panic!("unexpected {:?}", other),
    }
}

#[test]
fn other_accepted_identifier_forms_parse() {
    let expected = 0x550e8400e29b41d4a716446655440000u128;
    for form in [
        MISSING,
        "550e8400e29b41d4a716446655440000",
        "{550e8400-e29b-41d4-a716-446655440000}",
        "urn:uuid:550e8400-e29b-41d4-a716-446655440000",
        "550E8400-E29B-41D4-A716-446655440000",
    ] {
        assert_eq!(AnswersDao::start_delete_answer(&form.to_string()), Ok(expected));
    }
}

#[test]
fn answer_to_malformed_question_is_refused() {
    let mut store = FakeStore::new();
    let answer = Answer { question_uuid: "not-a-uuid".to_string(), content: "x".to_string() };
    let r = create_answer(&mut store, answer);
    assert!(matches!(r, Err(DBError::InvalidUUID(_))));
    assert!(store.answers.is_empty());
}

#[test]
fn answer_to_missing_question_is_invalid_identifier() {
    let mut store = FakeStore::new();
    let answer = Answer { question_uuid: MISSING.to_string(), content: "x".to_string() };
    let r = create_answer(&mut store, answer);
    assert_eq!(r, Err(DBError::InvalidUUID(format!("Invalid question uuid {}", MISSING))));
    assert!(store.answers.is_empty());
}

#[test]
fn other_rejection_of_answer_is_store_failure() {
    let answer = Answer { question_uuid: MISSING.to_string(), content: "x".to_string() };
    let reply = Err(StoreError::Rejected { code: Some("23505".to_string()), message: "duplicate".to_string() });
    assert_eq!(AnswersDao::finish_create_answer(&answer, reply), Err(DBError::Other("duplicate".to_string())));
    let reply = Err(StoreError::Rejected { code: None, message: "odd".to_string() });
    assert_eq!(AnswersDao::finish_create_answer(&answer, reply), Err(DBError::Other("odd".to_string())));
    let reply = Err(StoreError::Failed { message: "pool timed out".to_string() });
    assert_eq!(AnswersDao::finish_create_answer(&answer, reply), Err(DBError::Other("pool timed out".to_string())));
}

#[test]
fn foreign_key_code_is_recognised() {
    let fk = StoreError::Rejected { code: Some("23503".to_string()), message: String::new() };
    assert!(AnswersDao::is_foreign_key_violation(&fk));
    let unique = StoreError::Rejected { code: Some("23505".to_string()), message: String::new() };
    assert!(!AnswersDao::is_foreign_key_violation(&unique));
    let failed = StoreError::Failed { message: "23503".to_string() };
    assert!(!AnswersDao::is_foreign_key_violation(&failed));
}

#[test]
fn store_failures_are_other() {
    let failed = || StoreError::Failed { message: "connection refused".to_string() };
    let other = DBError::Other("connection refused".to_string());
    assert_eq!(QuestionsDao::finish_create_question(Err(failed())).unwrap_err(), other);
    assert_eq!(QuestionsDao::finish_get_questions(Err(failed())).unwrap_err(), other);
    assert_eq!(QuestionsDao::finish_delete_question(Err(failed())).unwrap_err(), other);
    assert_eq!(AnswersDao::finish_get_answers(Err(failed())).unwrap_err(), other);
    assert_eq!(AnswersDao::finish_delete_answer(Err(failed())).unwrap_err(), other);
}

#[test]
fn delete_of_missing_rows_succeeds() {
    let mut store = FakeStore::new();
    assert_eq!(delete_question(&mut store, QuestionId { question_uuid: MISSING.to_string() }), Ok(()));
    assert_eq!(delete_answer(&mut store, AnswerId { answer_uuid: MISSING.to_string() }), Ok(()));
}

#[test]
fn question_delete_is_idempotent() {
    let mut store = FakeStore::new();
    let q = create_question(&mut store, question("a", "b")).unwrap();
    let id = || QuestionId { question_uuid: q.question_uuid.clone() };
    assert_eq!(delete_question(&mut store, id()), Ok(()));
    assert!(list_questions(&store).unwrap().is_empty());
    assert_eq!(delete_question(&mut store, id()), Ok(()));
    assert!(list_questions(&store).unwrap().is_empty());
}

#[test]
fn question_without_answers_lists_empty() {
    let mut store = FakeStore::new();
    let q = create_question(&mut store, question("a", "b")).unwrap();
    let listed = list_answers(&store, QuestionId { question_uuid: q.question_uuid }).unwrap();
    assert!(listed.is_empty());
    let listed = list_answers(&store, QuestionId { question_uuid: MISSING.to_string() }).unwrap();
    assert!(listed.is_empty());
}

#[test]
fn answer_refers_to_its_question_and_is_listed() {
    let mut store = FakeStore::new();
    let q = create_question(&mut store, question("T1", "D1")).unwrap();
    let answer = Answer { question_uuid: q.question_uuid.clone(), content: "C1".to_string() };
    let a = create_answer(&mut store, answer).unwrap();
    assert_eq!(a.question_uuid, q.question_uuid);
    assert_eq!(a.content, "C1");
    let listed = list_answers(&store, QuestionId { question_uuid: q.question_uuid.clone() }).unwrap();
    assert_eq!(listed, vec![a]);
}

#[test]
fn deleted_answer_is_no_longer_listed() {
    let mut store = FakeStore::new();
    let q = create_question(&mut store, question("T1", "D1")).unwrap();
    let first = create_answer(&mut store, Answer { question_uuid: q.question_uuid.clone(), content: "C1".to_string() }).unwrap();
    let second = create_answer(&mut store, Answer { question_uuid: q.question_uuid.clone(), content: "C2".to_string() }).unwrap();
    assert_eq!(delete_answer(&mut store, AnswerId { answer_uuid: first.answer_uuid.clone() }), Ok(()));
    let listed = list_answers(&store, QuestionId { question_uuid: q.question_uuid.clone() }).unwrap();
    assert!(listed.iter().all(|a| a.answer_uuid != first.answer_uuid));
    assert_eq!(listed, vec![second]);
}

#[test]
fn question_delete_leaves_answers() {
    let mut store = FakeStore::new();
    let q = create_question(&mut store, question("T1", "D1")).unwrap();
    let a = create_answer(&mut store, Answer { question_uuid: q.question_uuid.clone(), content: "C1".to_string() }).unwrap();
    assert_eq!(delete_question(&mut store, QuestionId { question_uuid: q.question_uuid.clone() }), Ok(()));
    let listed = list_answers(&store, QuestionId { question_uuid: q.question_uuid }).unwrap();
    assert_eq!(listed, vec![a]);
}

#[test]
fn default_internal_error_is_generic() {
    assert_eq!(
        HandlerError::default_internal_error(),
        HandlerError::InternalError("Something went wrong! Please try again.".to_string())
    );
    assert_eq!(GENERIC_ERROR_MESSAGE, "Something went wrong! Please try again.");
}

#[test]
fn handler_errors_map_from_data_access_errors() {
    assert_eq!(HandlerError::from_db_error(DBError::InvalidUUID("bad".to_string())), HandlerError::BadRequest("bad".to_string()));
    assert_eq!(HandlerError::from_db_error(DBError::Other("down".to_string())), HandlerError::InternalError("down".to_string()));
    assert_eq!(handler_result::<u32>(Ok(7)), Ok(7));
    assert_eq!(handler_result::<u32>(Err(DBError::InvalidUUID("bad".to_string()))), Err(HandlerError::BadRequest("bad".to_string())));
}

#[test]
fn handler_errors_split_client_and_server_faults() {
    let bad = HandlerError::BadRequest("Invalid question uuid x".to_string());
    let internal = HandlerError::InternalError("password authentication failed".to_string());
    assert_eq!(bad.status_code(), 400);
    assert_eq!(internal.status_code(), 500);
    assert_eq!(bad.client_message(), "Invalid question uuid x");
    assert_eq!(internal.client_message(), GENERIC_ERROR_MESSAGE);
}
