use ganbare::error::ErrorKind;
use ganbare::model::{Answer, AudioFile, QuestionData, QuizQuestion, UserMetrics, Word};
use ganbare::quiz::{
    after_question_logged, check_audio_groups, find_answer_index, get_new_quiz, get_new_quiz_start,
    get_next_quiz, pick_quiz_card, quiz_card, repeat_question_card, AnswerAction, Card, CardAction,
    CardEvent, CardPhase, DueQuestion, LoadedQuiz,
};
use ganbare::scheduling::{answer_is_correct, schedule_question, Answered, AnsweredQuestion, AnsweredWord};

fn question() -> QuizQuestion {
    QuizQuestion {
        id: 10,
        skill_id: 3,
        q_name: "n".into(),
        q_explanation: "e".into(),
        question_text: "t".into(),
        published: true,
        skill_level: 2,
    }
}

fn answer(id: i32) -> Answer {
    Answer { id, question_id: 10, a_audio_bundle: None, q_audio_bundle: id * 100, answer_text: format!("a{}", id) }
}

fn audio(id: i32, bundle: i32) -> AudioFile {
    AudioFile { id, narrators_id: 1, bundle_id: bundle, file_path: format!("audio/{}", id), mime: "audio/mpeg".into() }
}

fn loaded() -> LoadedQuiz {
    LoadedQuiz {
        question: question(),
        answers: vec![answer(1), answer(2), answer(3)],
        q_audio_files: vec![vec![audio(11, 100)], vec![audio(21, 200), audio(22, 200)], vec![audio(31, 300)]],
    }
}

fn word(id: i32) -> Word {
    Word { id, word: "ことば".into(), explanation: "word".into(), audio_bundle: 5, skill_nugget: 3, published: true }
}

fn metrics(today: i32, since_break: i32) -> UserMetrics {
    UserMetrics { id: 1, new_words_today: today, new_words_since_break: since_break }
}

#[test]
fn choice_starts_with_due_questions() {
    let (phase, action) = get_new_quiz_start();
    assert_eq!(phase, CardPhase::Due);
    assert!(matches!(action, CardAction::FetchDueQuestion));
}

#[test]
fn due_question_comes_first() {
    let due = DueQuestion { question_id: 8, due_delay: 60, due_date: 123 };
    let (phase, action) = get_new_quiz(CardPhase::Due, CardEvent::DueQuestion(Some(due)));
    assert_eq!(phase, CardPhase::Done);
    assert!(matches!(action, CardAction::LoadQuiz { question_id: 8, due_delay: 60, due_date: Some(123) }));
}

#[test]
fn new_question_when_nothing_is_due() {
    let (phase, action) = get_new_quiz(CardPhase::Due, CardEvent::DueQuestion(None));
    assert_eq!(phase, CardPhase::New);
    assert!(matches!(action, CardAction::FetchNewQuestion));
    let (phase, action) = get_new_quiz(phase, CardEvent::NewQuestion(Some(12)));
    assert_eq!(phase, CardPhase::Done);
    assert!(matches!(action, CardAction::LoadQuiz { question_id: 12, due_delay: 0, due_date: None }));
}

#[test]
fn words_only_while_allowed() {
    let (phase, action) = get_new_quiz(CardPhase::New, CardEvent::NewQuestion(None));
    assert_eq!(phase, CardPhase::Metrics);
    assert!(matches!(action, CardAction::FetchMetrics));
    let (p, a) = get_new_quiz(CardPhase::Metrics, CardEvent::Metrics(metrics(3, 3)));
    assert_eq!(p, CardPhase::Words);
    assert!(matches!(a, CardAction::FetchNewWord));
    let (p, a) = get_new_quiz(p, CardEvent::NewWord(Some(word(5))));
    assert_eq!(p, CardPhase::Done);
    assert!(matches!(a, CardAction::ShowWord(w) if w.id == 5));
    let (p, a) = get_new_quiz(CardPhase::Metrics, CardEvent::Metrics(metrics(19, 7)));
    assert_eq!(p, CardPhase::Peek);
    assert!(matches!(a, CardAction::PeekDueQuestion));
}

#[test]
fn peeking_ends_the_choice() {
    let (p, a) = get_new_quiz(CardPhase::Words, CardEvent::NewWord(None));
    assert_eq!(p, CardPhase::Peek);
    assert!(matches!(a, CardAction::PeekDueQuestion));
    let due = DueQuestion { question_id: 2, due_delay: 240, due_date: 999 };
    let (p, a) = get_new_quiz(CardPhase::Peek, CardEvent::PeekQuestion(Some(due)));
    assert_eq!(p, CardPhase::Done);
    assert!(matches!(a, CardAction::LoadQuiz { question_id: 2, due_delay: 240, due_date: Some(999) }));
    let (p, a) = get_new_quiz(CardPhase::Peek, CardEvent::PeekQuestion(None));
    assert_eq!(p, CardPhase::Done);
    assert!(matches!(a, CardAction::NoCard));
}

#[test]
fn quiz_card_for_an_answer() {
    match quiz_card(loaded(), 1, 30, Some(5)) {
        Card::Quiz(q) => {
            assert_eq!(q.right_answer_id, 2);
            assert_eq!(q.question_audio.iter().map(|a| a.id).collect::<Vec<_>>(), vec![21, 22]);
            assert_eq!(q.answers.len(), 3);
            assert_eq!((q.due_delay, q.due_date), (30, Some(5)));
            assert_eq!(q.question.id, 10);
        },
        _ => panic!("expected a question card"),
    }
}

#[test]
fn random_quiz_card_asks_its_right_answer() {
    assert!(pick_quiz_card(None, 0, None).is_none());
    for _ in 0..20 {
        match pick_quiz_card(Some(loaded()), 0, None) {
            Some(Card::Quiz(q)) => {
                let i = q.answers.iter().position(|a| a.id == q.right_answer_id).unwrap();
                assert_eq!(q.question_audio[0].bundle_id, (i as i32 + 1) * 100);
            },
            _ => panic!("expected a question card"),
        }
    }
}

#[test]
fn answer_positions() {
    let answers = vec![answer(4), answer(7), answer(7)];
    assert_eq!(find_answer_index(&answers, 7), Some(1));
    assert_eq!(find_answer_index(&answers, 4), Some(0));
    assert_eq!(find_answer_index(&answers, 5), None);
}

#[test]
fn reported_answers_are_recorded_first() {
    let w = AnsweredWord { word_id: 1, time: 2, times_audio_played: 3 };
    assert!(matches!(get_next_quiz(&Answered::Word(w)), AnswerAction::LogWord(x) if x.word_id == 1));
    let q = AnsweredQuestion {
        question_id: 4,
        right_answer_id: 5,
        answered_id: None,
        q_audio_id: 6,
        active_answer_time: 7,
        full_answer_time: 8,
    };
    assert!(matches!(get_next_quiz(&Answered::Question(q)), AnswerAction::LogQuestion(x) if x.question_id == 4));
}

#[test]
fn wrong_answers_repeat_the_question() {
    let qd = |streak| QuestionData { user_id: 1, question_id: 10, due_date: 50, due_delay: 0, correct_streak: streak };
    assert!(after_question_logged(&qd(0)));
    assert!(!after_question_logged(&qd(1)));
    match repeat_question_card(Some(loaded()), 3, &qd(0)) {
        Ok(Some(Card::Quiz(q))) => {
            assert_eq!(q.right_answer_id, 3);
            assert_eq!(q.question_audio[0].id, 31);
            assert_eq!((q.due_delay, q.due_date), (0, Some(50)));
        },
        _ => panic!("expected the same question again"),
    }
    assert!(matches!(repeat_question_card(None, 3, &qd(0)), Ok(None)));
    assert!(matches!(repeat_question_card(Some(loaded()), 99, &qd(0)), Err(ErrorKind::DatabaseOdd)));
}

#[test]
fn every_answer_needs_a_recording() {
    assert_eq!(check_audio_groups(&vec![vec![audio(1, 1)], vec![audio(2, 2)]]), Ok(()));
    assert_eq!(check_audio_groups(&vec![vec![audio(1, 1)], vec![]]), Err(ErrorKind::DatabaseOdd));
    assert_eq!(check_audio_groups(&vec![]), Ok(()));
}

#[test]
fn right_answers_move_on_to_a_new_card() {
    let q = |answered| AnsweredQuestion {
        question_id: 10,
        right_answer_id: 3,
        answered_id: answered,
        q_audio_id: 6,
        active_answer_time: 7,
        full_answer_time: 8,
    };
    let before = QuestionData { user_id: 1, question_id: 10, due_date: 0, due_delay: 0, correct_streak: 0 };
    for prev in [None, Some(before)] {
        let right = q(Some(3));
        let (after, _) = schedule_question(1, 10, prev, answer_is_correct(&right), 1_000);
        assert!(!after_question_logged(&after));
        let wrong = q(Some(2));
        let (after, _) = schedule_question(1, 10, prev, answer_is_correct(&wrong), 1_000);
        assert!(after_question_logged(&after));
    }
}
