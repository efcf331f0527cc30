use ganbare::content::{
    audio_file_name_pattern, check_fieldsets, initiate_event, is_event_done, narrator_name,
    new_quiz_question, post_question, set_event_done,
};
use ganbare::error::ErrorKind;
use ganbare::form::{AudioUpload, Fieldset, NewQuestion};
use ganbare::model::{Answer, AudioFile, Event, EventExperience, NewAnswer, QuizQuestion, Session, User, Word};
use ganbare::quiz::{Card, Quiz};
use ganbare::web::{
    card_to_json, editor_gate, failure_status, get_all, get_cookie, get_item, get_user,
    normalize_img_tags, set_published, update_item, CardJson, ItemKind, ListKind, Route,
};

fn upload(p: &str) -> AudioUpload {
    AudioUpload { path: p.into(), filename: None, mime: "audio/ogg".into() }
}

fn audio(id: i32) -> AudioFile {
    AudioFile { id, narrators_id: 1, bundle_id: 1, file_path: "f".into(), mime: "audio/ogg".into() }
}

#[test]
fn session_cookie() {
    let cookies = vec![
        ("theme".to_string(), "dark".to_string()),
        ("session_id".to_string(), "ABC".to_string()),
        ("session_id".to_string(), "DEF".to_string()),
    ];
    assert_eq!(get_cookie(&cookies).map(|s| s.as_str()), Some("ABC"));
    assert_eq!(get_cookie(&vec![]), None);
}

#[test]
fn logged_in_user() {
    let u = User { id: 1, email: "a@b".into() };
    let s = Session { sess_id: vec![0; 16], user_id: 1, started: 0, last_seen: 0, last_ip: vec![] };
    assert_eq!(get_user(Ok((u, s))).unwrap().unwrap().0.id, 1);
    assert!(get_user(Err(ErrorKind::BadSessId)).unwrap().is_none());
    assert!(get_user(Err(ErrorKind::NoSuchSess)).unwrap().is_none());
    assert_eq!(get_user(Err(ErrorKind::DatabaseOdd)).unwrap_err(), ErrorKind::DatabaseOdd);
}

#[test]
fn endpoints() {
    assert_eq!(get_item(&"get_word".into()), Some(ItemKind::Word));
    assert_eq!(get_item(&"get_question".into()), Some(ItemKind::Question));
    assert_eq!(get_item(&"get_answer".into()), None);
    assert_eq!(get_all(&"get_nuggets".into()), Some(ListKind::Nuggets));
    assert_eq!(get_all(&"get_bundles".into()), Some(ListKind::Bundles));
    assert_eq!(get_all(&"get_words".into()), None);
    assert_eq!(set_published(&"publish_words".into()), Some((ItemKind::Word, true)));
    assert_eq!(set_published(&"publish_questions".into()), Some((ItemKind::Question, true)));
    assert_eq!(set_published(&"unpublish_words".into()), Some((ItemKind::Word, false)));
    assert_eq!(set_published(&"unpublish_questions".into()), Some((ItemKind::Question, false)));
    assert_eq!(set_published(&"publish".into()), None);
    assert_eq!(update_item(&"update_word".into()), Some(ItemKind::Word));
    assert_eq!(update_item(&"update_question".into()), Some(ItemKind::Question));
    assert_eq!(update_item(&"update_answer".into()), Some(ItemKind::Answer));
    assert_eq!(update_item(&"update".into()), None);
}

#[test]
fn failure_statuses() {
    assert_eq!(failure_status(Route::Login, &ErrorKind::AuthError), 401);
    assert_eq!(failure_status(Route::Login, &ErrorKind::DatabaseOdd), 500);
    assert_eq!(failure_status(Route::AddQuiz, &ErrorKind::FormParseError), 400);
    assert_eq!(failure_status(Route::AudioFile, &ErrorKind::FileNotFound), 404);
    assert_eq!(failure_status(Route::ChangePassword, &ErrorKind::PasswordTooShort), 400);
    assert_eq!(failure_status(Route::ChangePassword, &ErrorKind::PasswordTooLong), 500);
    assert_eq!(failure_status(Route::Other, &ErrorKind::FileNotFound), 500);
    assert_eq!(editor_gate(true, true), None);
    assert_eq!(editor_gate(true, false), Some(401));
    assert_eq!(editor_gate(false, true), Some(401));
}

#[test]
fn image_tags_keep_only_their_source() {
    let text = r#"{"explanation":"<p>x <img class=\"big\" src=\"/a.png\" alt=\"a\"> y <img src=\"b.png\"></p>"}"#;
    let out = normalize_img_tags(text).unwrap();
    assert_eq!(out, r#"{"explanation":"<p>x <img src=\"/a.png\"> y <img src=\"b.png\"></p>"}"#);
    assert_eq!(normalize_img_tags("plain").unwrap(), "plain");
}

fn quiz_card() -> Card {
    Card::Quiz(Quiz {
        question: QuizQuestion {
            id: 10,
            skill_id: 1,
            q_name: "n".into(),
            q_explanation: "expl".into(),
            question_text: "which?".into(),
            published: true,
            skill_level: 2,
        },
        question_audio: vec![audio(21), audio(22)],
        right_answer_id: 2,
        answers: vec![
            Answer { id: 1, question_id: 10, a_audio_bundle: None, q_audio_bundle: 100, answer_text: "one".into() },
            Answer { id: 2, question_id: 10, a_audio_bundle: Some(7), q_audio_bundle: 200, answer_text: "two".into() },
        ],
        due_delay: 60,
        due_date: Some(1_234_567_000),
    })
}

#[test]
fn question_card_json() {
    match card_to_json(quiz_card(), 123) {
        CardJson::Quiz(j) => {
            assert_eq!(j.quiz_type, "question");
            assert_eq!((j.question_id, j.right_a, j.due_delay), (10, 2, 60));
            assert_eq!(j.explanation, "expl");
            assert_eq!(j.question.0, "which?");
            assert!(j.question.1 == 21 || j.question.1 == 22);
            let mut answers = j.answers.clone();
            answers.sort();
            assert_eq!(answers, vec![(1, "one".to_string(), None), (2, "two".to_string(), Some(7))]);
            assert_eq!(j.due_date.as_deref(), Some("1970-01-01T00:00:01.234567+00:00"));
        },
        _ => panic!("expected a question card"),
    }
}

#[test]
fn word_card_json() {
    let w = Word { id: 5, word: "e\u{301}".into(), explanation: "x".into(), audio_bundle: 1, skill_nugget: 1, published: true };
    match card_to_json(Card::Word((w, vec![audio(31)])), 1_500_000_001) {
        CardJson::Word(j) => {
            assert!(j.show_accents);
            assert_eq!(j.quiz_type, "word");
            assert_eq!((j.id, j.audio_id, j.due_delay), (5, 31, 30));
            assert_eq!(j.word, "\u{e9}");
            assert_eq!(j.explanation, "x");
            assert_eq!(j.due_date.as_deref(), Some("1970-01-01T00:00:01.500000001+00:00"));
        },
        _ => panic!("expected a word card"),
    }
}

#[test]
fn question_answers_need_recordings() {
    let fs = |n: usize| Fieldset { q_variants: (0..n).map(|i| upload(&i.to_string())).collect(), answer_audio: None, answer_text: "t".into() };
    assert_eq!(check_fieldsets(&vec![fs(1), fs(2)]), Ok(()));
    assert_eq!(check_fieldsets(&vec![]), Err(ErrorKind::FormParseError));
    assert_eq!(check_fieldsets(&vec![fs(1), fs(0)]), Err(ErrorKind::FormParseError));
}

#[test]
fn new_questions_start_at_level_two() {
    let nq = NewQuestion { q_name: "n".into(), q_explanation: "e".into(), question_text: "t".into(), skill_nugget: "s".into() };
    let q = new_quiz_question(&nq, 8);
    assert_eq!((q.skill_id, q.skill_level), (8, 2));
    assert_eq!((q.q_name.as_str(), q.q_explanation.as_str(), q.question_text.as_str()), ("n", "e", "t"));
}

#[test]
fn posted_answers_belong_to_the_new_question() {
    let mut answers = vec![
        NewAnswer { question_id: 1, a_audio_bundle: None, q_audio_bundle: 3, answer_text: "a".into() },
        NewAnswer { question_id: 2, a_audio_bundle: Some(4), q_audio_bundle: 5, answer_text: "b".into() },
    ];
    post_question(&mut answers, 42);
    assert!(answers.iter().all(|a| a.question_id == 42));
    assert_eq!((answers[1].a_audio_bundle, answers[1].q_audio_bundle, answers[1].answer_text.as_str()), (Some(4), 5, "b"));
}

#[test]
fn narrators() {
    assert_eq!(narrator_name(""), ("anonymous".to_string(), false));
    assert_eq!(narrator_name("Aiko"), ("Aiko".to_string(), true));
}

#[test]
fn recording_names() {
    let p = audio_file_name_pattern("take1.mp3");
    assert!(p.starts_with("%FT%H-%M-%SZ"));
    assert!(p.ends_with(".mp3"));
    assert_eq!(p.len(), "%FT%H-%M-%SZ".len() + 10 + ".mp3".len());
    assert!(p["%FT%H-%M-%SZ".len()..p.len() - 4].chars().all(|c| c.is_ascii_alphanumeric()));
    assert!(audio_file_name_pattern("take1").ends_with(".noextension"));
    assert!(audio_file_name_pattern(".hidden").ends_with(".noextension"));
    assert!(audio_file_name_pattern("").ends_with(".noextension"));
}

#[test]
fn events() {
    let u = User { id: 3, email: "a@b".into() };
    let ev = Event { id: 9, name: "intro".into(), published: true };
    let exp = initiate_event(&u, &ev);
    assert_eq!((exp.user_id, exp.event_id, exp.event_time), (3, 9, None));
    assert!(!is_event_done(&Some((ev.clone(), exp))));
    let done = set_event_done(&exp, 77);
    assert_eq!(done.event_time, Some(77));
    assert!(is_event_done(&Some((ev, done))));
    assert!(!is_event_done(&None::<(Event, EventExperience)>));
}
