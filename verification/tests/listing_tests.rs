use questions_web::classify::Variant;
use questions_web::error::QuestionsError;
use questions_web::listing::{collect_questions, plan_projections, project};
use questions_web::merge::{ChangeEvent, Merger, SignalKind};
use questions_web::model::{Answer, GenericAnswer, GenericQuestion, PasswordAnswer, Question};
use questions_web::submit::{submission_plan, WriteOp};
use std::collections::HashMap;

fn parts(id: u32, text: &str) -> GenericQuestion {
    GenericQuestion {
        id,
        class: String::from("general"),
        text: String::from(text),
        options: vec![String::from("yes"), String::from("no")],
        default_option: String::from("yes"),
        data: HashMap::new(),
    }
}

#[test]
fn plan_projections_classifies_every_object() {
    let objects = vec![
        (
            String::from("/org/opensuse/Agama1/Questions/1"),
            vec![String::from("org.opensuse.Agama1.Questions.Generic")],
        ),
        (
            String::from("/org/opensuse/Agama1/Questions/2"),
            vec![
                String::from("org.opensuse.Agama1.Questions.Generic"),
                String::from("org.opensuse.Agama1.Questions.WithPassword"),
            ],
        ),
    ];
    let plan = plan_projections(&objects);
    assert_eq!(plan.len(), 2);
    assert_eq!(plan[0].0, "/org/opensuse/Agama1/Questions/1");
    assert_eq!(plan[0].1, Variant::Generic);
    assert_eq!(plan[1].0, "/org/opensuse/Agama1/Questions/2");
    assert_eq!(plan[1].1, Variant::GenericWithPassword);
}

#[test]
fn empty_enumeration_lists_nothing() {
    let objects: Vec<(String, Vec<String>)> = Vec::new();
    assert!(plan_projections(&objects).is_empty());
    let questions = collect_questions(Vec::new()).expect("an empty listing succeeds");
    assert!(questions.is_empty());
}

#[test]
fn collect_keeps_enumeration_order() {
    let results: Vec<Result<Question, QuestionsError>> = vec![
        Ok(project(Variant::Generic, parts(1, "Continue?"), None)),
        Ok(project(Variant::Generic, parts(2, "Format disk?"), None)),
    ];
    let questions = collect_questions(results).expect("all projections succeeded");
    assert_eq!(questions.len(), 2);
    assert_eq!(questions[0].generic.id, 1);
    assert_eq!(questions[1].generic.id, 2);
}

#[test]
fn vanished_object_fails_the_whole_listing() {
    let results: Vec<Result<Question, QuestionsError>> = vec![
        Ok(project(Variant::Generic, parts(1, "Continue?"), None)),
        Err(QuestionsError::Ipc(String::from("object vanished"))),
        Ok(project(Variant::Generic, parts(3, "Retry?"), None)),
    ];
    match collect_questions(results) {
        Ok(_) => panic!("a failed projection must fail the whole listing"),
        Err(QuestionsError::Ipc(m)) => assert_eq!(m, "object vanished"),
        Err(QuestionsError::Connection(_)) => panic!("the transport failure must be kept"),
    }
}

#[test]
fn listing_reflects_fresh_values() {
    let first = collect_questions(vec![Ok(project(
        Variant::Generic,
        parts(1, "Continue?"),
        None,
    ))])
    .expect("projection succeeded");
    let second = collect_questions(vec![Ok(project(
        Variant::Generic,
        parts(1, "Proceed anyway?"),
        None,
    ))])
    .expect("projection succeeded");
    assert_eq!(first[0].generic.text, "Continue?");
    assert_eq!(second[0].generic.text, "Proceed anyway?");
    assert_ne!(first[0].generic.text, second[0].generic.text);
}

#[test]
fn error_messages_carry_the_description() {
    let e = QuestionsError::Ipc(String::from("boom"));
    assert_eq!(e.message(), "Question service error: boom");
    let c = QuestionsError::Connection(String::from("no bus"));
    assert_eq!(c.message(), "Question service error: no bus");
}

#[test]
fn merger_emits_one_event_per_signal() {
    let mut merger = Merger::new();
    let e1 = merger.on_signal(SignalKind::Added);
    let e2 = merger.on_signal(SignalKind::Removed);
    let e3 = merger.on_signal(SignalKind::Added);
    assert_eq!(e1, ChangeEvent::QuestionsChanged);
    assert_eq!(e2, ChangeEvent::QuestionsChanged);
    assert_eq!(e3, ChangeEvent::QuestionsChanged);
    assert_eq!(merger.emitted, 3);
    assert_eq!(merger.adds_seen, 2);
    assert_eq!(merger.removes_seen, 1);
}

#[test]
fn example_flow() {
    // Two pending objects: one generic, one password-extended.
    let objects = vec![
        (
            String::from("/org/opensuse/Agama1/Questions/1"),
            vec![String::from("org.opensuse.Agama1.Questions.Generic")],
        ),
        (
            String::from("/org/opensuse/Agama1/Questions/2"),
            vec![
                String::from("org.opensuse.Agama1.Questions.Generic"),
                String::from("org.opensuse.Agama1.Questions.WithPassword"),
            ],
        ),
    ];
    let plan = plan_projections(&objects);
    let results: Vec<Result<Question, QuestionsError>> = vec![
        Ok(project(plan[0].1, parts(1, "Continue?"), None)),
        Ok(project(plan[1].1, parts(2, "Unlock?"), Some(String::from("")))),
    ];
    let questions = collect_questions(results).expect("both projections succeeded");
    assert_eq!(questions.len(), 2);
    assert!(questions[0].with_password.is_none());
    assert!(questions[1].with_password.is_some());

    // Answering the extended question writes the password first.
    let answer = Answer {
        generic: GenericAnswer {
            answer: String::from("ok"),
        },
        with_password: Some(PasswordAnswer {
            password: String::from("s3cr3t"),
        }),
    };
    let writes = submission_plan(2, &answer);
    assert_eq!(writes.len(), 2);
    assert!(matches!(&writes[0], WriteOp::SetPassword { value, .. } if value.as_str() == "s3cr3t"));
    assert!(matches!(&writes[1], WriteOp::SetAnswer { value, .. } if value.as_str() == "ok"));

    // The answered object is gone from the next enumeration.
    let later = vec![objects[0].clone()];
    let later_plan = plan_projections(&later);
    let later_questions = collect_questions(vec![Ok(project(
        later_plan[0].1,
        parts(1, "Continue?"),
        None,
    ))])
    .expect("projection succeeded");
    assert_eq!(later_questions.len(), 1);
    assert_eq!(later_questions[0].generic.id, 1);

    // A subscriber observes exactly one impulse for the removal.
    let mut merger = Merger::new();
    let event = merger.on_signal(SignalKind::Removed);
    assert_eq!(event, ChangeEvent::QuestionsChanged);
    assert_eq!(merger.emitted, 1);
}
