//! The records the backend stores. Instants are UTC nanoseconds since the UNIX epoch.
use vstd::prelude::*;

verus! {

/// A registered user.
#[derive(Debug, Clone)]
pub struct User {
    pub id: i32,
    pub email: String,
}

/// A login session as stored.
#[derive(Debug, Clone)]
pub struct Session {
    pub sess_id: Vec<u8>,
    pub user_id: i32,
    pub started: i64,
    pub last_seen: i64,
    pub last_ip: Vec<u8>,
}

/// A login session about to be stored.
#[derive(Debug, Clone)]
pub struct NewSession {
    pub sess_id: Vec<u8>,
    pub user_id: i32,
    pub started: i64,
    pub last_seen: i64,
    pub last_ip: Vec<u8>,
}

/// A quiz question.
#[derive(Debug, Clone)]
pub struct QuizQuestion {
    pub id: i32,
    pub skill_id: i32,
    pub q_name: String,
    pub q_explanation: String,
    pub question_text: String,
    pub published: bool,
    pub skill_level: i32,
}

/// A quiz question about to be stored.
#[derive(Debug, Clone)]
pub struct NewQuizQuestion {
    pub skill_id: i32,
    pub q_name: String,
    pub q_explanation: String,
    pub question_text: String,
    pub skill_level: i32,
}

/// An edit of a quiz question: the fields that are present change.
#[derive(Debug, Clone)]
pub struct UpdateQuestion {
    pub q_name: Option<String>,
    pub q_explanation: Option<String>,
    pub question_text: Option<String>,
    pub skill_id: Option<i32>,
    pub published: Option<bool>,
    pub skill_level: Option<i32>,
}

/// One of the answers of a quiz question, with the bundle of audio that asks for it.
#[derive(Debug, Clone)]
pub struct Answer {
    pub id: i32,
    pub question_id: i32,
    pub a_audio_bundle: Option<i32>,
    pub q_audio_bundle: i32,
    pub answer_text: String,
}

/// An answer about to be stored.
#[derive(Debug, Clone)]
pub struct NewAnswer {
    pub question_id: i32,
    pub a_audio_bundle: Option<i32>,
    pub q_audio_bundle: i32,
    pub answer_text: String,
}

/// An edit of an answer: the fields that are present change.
#[derive(Debug, Clone)]
pub struct UpdateAnswer {
    pub question_id: Option<i32>,
    pub a_audio_bundle: Option<Option<i32>>,
    pub q_audio_bundle: Option<i32>,
    pub answer_text: Option<String>,
}

/// A recorded audio file.
#[derive(Debug, Clone)]
pub struct AudioFile {
    pub id: i32,
    pub narrators_id: i32,
    pub bundle_id: i32,
    pub file_path: String,
    pub mime: String,
}

/// A vocabulary word.
#[derive(Debug, Clone)]
pub struct Word {
    pub id: i32,
    pub word: String,
    pub explanation: String,
    pub audio_bundle: i32,
    pub skill_nugget: i32,
    pub published: bool,
}

/// A user's schedule for one question.
#[derive(Debug, Clone, Copy)]
pub struct QuestionData {
    pub user_id: i32,
    pub question_id: i32,
    pub due_date: i64,
    pub due_delay: i32,
    pub correct_streak: i32,
}

/// A user's level in one skill.
#[derive(Debug, Clone, Copy)]
pub struct SkillData {
    pub user_id: i32,
    pub skill_nugget: i32,
    pub skill_level: i32,
}

/// How many new words a user has seen today and since the last break.
#[derive(Debug, Clone, Copy)]
pub struct UserMetrics {
    pub id: i32,
    pub new_words_today: i32,
    pub new_words_since_break: i32,
}

/// The record of one answer to a question.
#[derive(Debug, Clone, Copy)]
pub struct NewAnswerData {
    pub user_id: i32,
    pub question_id: i32,
    pub q_audio_id: i32,
    pub correct_qa_id: i32,
    pub answered_qa_id: Option<i32>,
    pub active_answer_time_ms: i32,
    pub full_answer_time_ms: i32,
    pub correct: bool,
}

/// The record of one view of a word.
#[derive(Debug, Clone, Copy)]
pub struct NewWordData {
    pub user_id: i32,
    pub word_id: i32,
    pub audio_times: i32,
    pub answer_time_ms: i32,
}

/// A scripted event that users experience once.
#[derive(Debug, Clone)]
pub struct Event {
    pub id: i32,
    pub name: String,
    pub published: bool,
}

/// A user's experience of an event; `event_time` is set once it is done.
#[derive(Debug, Clone, Copy)]
pub struct EventExperience {
    pub user_id: i32,
    pub event_id: i32,
    pub event_time: Option<i64>,
}

} // verus!
