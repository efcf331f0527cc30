use ganbare::decimal::{parse_i32, push_decimal};
use ganbare::error::ErrorKind;
use ganbare::form::{
    parse_aa, parse_answer, parse_password_form, parse_qq, parse_quiz_form, parse_word_form,
    password_changed_flag, FormData, UploadedFile,
};
use ganbare::model::{UpdateAnswer, UpdateQuestion};
use ganbare::scheduling::Answered;

fn form(fields: &[(&str, &str)]) -> FormData {
    FormData { fields: fields.iter().map(|(k, v)| (k.to_string(), v.to_string())).collect() }
}

fn file(key: &str, path: &str, size: u64) -> (String, UploadedFile) {
    (
        key.to_string(),
        UploadedFile {
            path: path.to_string(),
            size,
            filename: Ok(Some(format!("{}.ogg", path))),
            content_type: Some("audio/ogg".to_string()),
        },
    )
}

#[test]
fn decimal_integers() {
    assert_eq!(parse_i32("42"), Ok(42));
    assert_eq!(parse_i32("-7"), Ok(-7));
    assert_eq!(parse_i32("+5"), Ok(5));
    assert_eq!(parse_i32("007"), Ok(7));
    assert_eq!(parse_i32("2147483647"), Ok(2147483647));
    assert_eq!(parse_i32("-2147483648"), Ok(-2147483648));
    assert_eq!(parse_i32("00000000000000000000001"), Ok(1));
    for bad in ["", "+", "-", "2147483648", "-2147483649", "12a", " 1", "1 ", "--1", "99999999999999999999"] {
        assert_eq!(parse_i32(bad), Err(ErrorKind::ParseIntError), "{:?}", bad);
        assert!(bad.parse::<i32>().is_err());
    }
}

#[test]
fn decimal_text() {
    for n in [0u32, 7, 10, 99, 1234, u32::MAX] {
        let mut s = String::from("k");
        push_decimal(&mut s, n);
        assert_eq!(s, format!("k{}", n));
    }
}

fn quiz_form_fields() -> Vec<(&'static str, &'static str)> {
    vec![
        ("lowest_fieldset", "2"),
        ("name", "q"),
        ("explanation", "expl"),
        ("question_text", "which?"),
        ("skill_nugget", "pitch"),
        ("choice_1_q_variations", "2"),
        ("choice_1_answer_text", "one"),
        ("choice_2_q_variations", "1"),
        ("choice_2_answer_text", "two"),
    ]
}

#[test]
fn new_question_form() {
    let files = vec![
        file("choice_1_q_variant_1", "tmp/a", 10),
        file("choice_1_q_variant_2", "tmp/b", 0),
        file("choice_1_answer_audio", "tmp/c", 5),
        file("choice_2_q_variant_1", "tmp/d", 7),
        file("choice_2_answer_audio", "tmp/e", 0),
    ];
    let (q, fs) = parse_quiz_form(&form(&quiz_form_fields()), &files).unwrap();
    assert_eq!((q.q_name.as_str(), q.q_explanation.as_str()), ("q", "expl"));
    assert_eq!((q.question_text.as_str(), q.skill_nugget.as_str()), ("which?", "pitch"));
    assert_eq!(fs.len(), 2);
    assert_eq!(fs[0].q_variants.iter().map(|u| u.path.as_str()).collect::<Vec<_>>(), vec!["tmp/a"]);
    assert_eq!(fs[0].q_variants[0].filename.as_deref(), Some("tmp/a.ogg"));
    assert_eq!(fs[0].q_variants[0].mime, "audio/ogg");
    assert_eq!(fs[0].answer_audio.as_ref().map(|u| u.path.as_str()), Some("tmp/c"));
    assert_eq!(fs[0].answer_text, "one");
    assert_eq!(fs[1].q_variants.iter().map(|u| u.path.as_str()).collect::<Vec<_>>(), vec!["tmp/d"]);
    assert!(fs[1].answer_audio.is_none());
    assert_eq!(fs[1].answer_text, "two");
}

#[test]
fn new_question_form_failures() {
    let mut fields = quiz_form_fields();
    fields[0] = ("lowest_fieldset", "11");
    assert_eq!(parse_quiz_form(&form(&fields), &vec![]).unwrap_err(), ErrorKind::FormParseError);
    fields[0] = ("lowest_fieldset", "two");
    assert_eq!(parse_quiz_form(&form(&fields), &vec![]).unwrap_err(), ErrorKind::ParseIntError);
    let without_name: Vec<_> = quiz_form_fields().into_iter().filter(|(k, _)| *k != "name").collect();
    assert_eq!(parse_quiz_form(&form(&without_name), &vec![]).unwrap_err(), ErrorKind::FormParseError);
    let without_text: Vec<_> =
        quiz_form_fields().into_iter().filter(|(k, _)| *k != "choice_2_answer_text").collect();
    assert_eq!(parse_quiz_form(&form(&without_text), &vec![]).unwrap_err(), ErrorKind::FormParseError);
    let mut bad = file("choice_1_q_variant_1", "tmp/a", 10);
    bad.1.filename = Err(());
    assert_eq!(parse_quiz_form(&form(&quiz_form_fields()), &vec![bad]).unwrap_err(), ErrorKind::FormParseError);
    let mut untyped = file("choice_2_answer_audio", "tmp/a", 10);
    untyped.1.content_type = None;
    assert_eq!(parse_quiz_form(&form(&quiz_form_fields()), &vec![untyped]).unwrap_err(), ErrorKind::FormParseError);
}

#[test]
fn new_question_form_without_answers() {
    let mut fields = quiz_form_fields();
    fields[0] = ("lowest_fieldset", "0");
    let (_, fs) = parse_quiz_form(&form(&fields), &vec![]).unwrap();
    assert!(fs.is_empty());
}

#[test]
fn new_word_form() {
    let fields = [("audio_variations", "3"), ("word", "はし"), ("explanation", "bridge"), ("skill_nugget", "hashi")];
    let files = vec![file("audio_variant_1", "tmp/1", 3), file("audio_variant_3", "tmp/3", 4), file("audio_variant_2", "tmp/2", 0)];
    let w = parse_word_form(&form(&fields), &files).unwrap();
    assert_eq!((w.word.as_str(), w.explanation.as_str(), w.nugget.as_str(), w.narrator.as_str()), ("はし", "bridge", "hashi", ""));
    assert_eq!(w.files.iter().map(|u| u.path.as_str()).collect::<Vec<_>>(), vec!["tmp/1", "tmp/3"]);
    let too_many = [("audio_variations", "21"), ("word", "x"), ("explanation", "y"), ("skill_nugget", "z")];
    assert_eq!(parse_word_form(&form(&too_many), &vec![]).unwrap_err(), ErrorKind::FormParseError);
}

#[test]
fn answer_forms() {
    let w = parse_answer(&form(&[("type", "word"), ("word_id", "3"), ("times_audio_played", "2"), ("time", "1500")])).unwrap();
    match w {
        Answered::Word(w) => assert_eq!((w.word_id, w.times_audio_played, w.time), (3, 2, 1500)),
        _ => panic!("expected a word answer"),
    }
    let q_fields = |answered: &'static str| {
        form(&[
            ("type", "question"),
            ("question_id", "4"),
            ("right_a_id", "5"),
            ("answered_id", answered),
            ("q_audio_id", "6"),
            ("active_answer_time", "700"),
            ("full_answer_time", "800"),
        ])
    };
    match parse_answer(&q_fields("5")).unwrap() {
        Answered::Question(q) => {
            assert_eq!((q.question_id, q.right_answer_id, q.answered_id), (4, 5, Some(5)));
            assert_eq!((q.q_audio_id, q.active_answer_time, q.full_answer_time), (6, 700, 800));
        },
        _ => panic!("expected a question answer"),
    }
    match parse_answer(&q_fields("-1")).unwrap() {
        Answered::Question(q) => assert_eq!(q.answered_id, None),
        _ => panic!("expected a question answer"),
    }
    match parse_answer(&q_fields("0")).unwrap() {
        Answered::Question(q) => assert_eq!(q.answered_id, None),
        _ => panic!("expected a question answer"),
    }
    assert_eq!(parse_answer(&form(&[("type", "exercise")])).unwrap_err(), ErrorKind::FormParseError);
    assert_eq!(parse_answer(&form(&[])).unwrap_err(), ErrorKind::FormParseError);
    assert_eq!(parse_answer(&form(&[("type", "word"), ("word_id", "x")])).unwrap_err(), ErrorKind::ParseIntError);
}

#[test]
fn password_forms() {
    let ok = form(&[("old_password", "old"), ("new_password", "newpass1"), ("new_password_check", "newpass1")]);
    assert_eq!(parse_password_form(&ok), Ok(("old".to_string(), "newpass1".to_string())));
    let mismatch = form(&[("old_password", "old"), ("new_password", "newpass1"), ("new_password_check", "newpass2")]);
    assert_eq!(parse_password_form(&mismatch), Err(ErrorKind::Msg("New passwords don't match!".to_string())));
    let missing = form(&[("old_password", "old"), ("new_password", "newpass1")]);
    assert_eq!(parse_password_form(&missing), Err(ErrorKind::FormParseError));
}

#[test]
fn password_changed_argument() {
    assert!(password_changed_flag(&form(&[("password_changed", "true")])));
    assert!(!password_changed_flag(&form(&[("password_changed", "yes")])));
    assert!(!password_changed_flag(&form(&[])));
    assert!(!password_changed_flag(&form(&[("password_changed", "no"), ("password_changed", "true")])));
}

#[test]
fn posted_question_documents() {
    let full = UpdateQuestion {
        q_name: Some("n".into()),
        q_explanation: Some("e".into()),
        question_text: Some("t".into()),
        skill_id: Some(3),
        published: None,
        skill_level: Some(2),
    };
    let q = parse_qq(&full).unwrap();
    assert_eq!((q.skill_id, q.skill_level, q.q_name.as_str(), q.q_explanation.as_str(), q.question_text.as_str()), (3, 2, "n", "e", "t"));
    let partial = UpdateQuestion { skill_level: None, ..full };
    assert_eq!(parse_qq(&partial).unwrap_err(), ErrorKind::FormParseError);
    let aa = UpdateAnswer { question_id: Some(9), a_audio_bundle: None, q_audio_bundle: Some(4), answer_text: Some("x".into()) };
    let a = parse_aa(&aa).unwrap();
    assert_eq!((a.question_id, a.a_audio_bundle, a.q_audio_bundle, a.answer_text.as_str()), (9, None, 4, "x"));
    let aa2 = UpdateAnswer { a_audio_bundle: Some(Some(7)), ..aa.clone() };
    assert_eq!(parse_aa(&aa2).unwrap().a_audio_bundle, Some(7));
    let aa3 = UpdateAnswer { q_audio_bundle: None, ..aa };
    assert_eq!(parse_aa(&aa3).unwrap_err(), ErrorKind::FormParseError);
}
