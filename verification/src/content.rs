//! Editing content: the checks and records behind new questions, words and their
//! recordings, and the events users go through.
use vstd::prelude::*;
use crate::error::ErrorKind;
use crate::form::{Fieldset, NewQuestion};
use crate::model::{NewQuizQuestion, NewAnswer, Event, EventExperience, User};
use crate::random::{random_alphanumeric, is_ascii_alphanumeric};
use crate::text::{file_extension, path_extension};

verus! {

/// The skill level that new questions get.
pub const NEW_QUESTION_SKILL_LEVEL: i32 = 2;

/// How many random characters an uploaded recording's stored name holds.
pub const AUDIO_NAME_RANDOM_CHARS: usize = 10;

/// Whether a new question's answers can be stored: there is at least one, and every one has
/// at least one recording that asks for it.
pub open spec fn fieldsets_acceptable(answers: Seq<Fieldset>) -> bool {
    answers.len() > 0 && forall|i: int| 0 <= i < answers.len() ==> answers[i].q_variants@.len() > 0
}

/// Checks a new question's answers before anything is stored.
pub fn check_fieldsets(answers: &Vec<Fieldset>) -> (res: Result<(), ErrorKind>)
    ensures
        res is Ok <==> fieldsets_acceptable(answers@),
        res matches Err(e) ==> e == ErrorKind::FormParseError,
{
    if answers.len() == 0 {
        return Err(ErrorKind::FormParseError);
    }
    for i in 0..answers.len()
        invariant
            forall|j: int| 0 <= j < i ==> answers@[j].q_variants@.len() > 0,
    {
        if answers[i].q_variants.len() == 0 {
            return Err(ErrorKind::FormParseError);
        }
    }
    Ok(())
}

/// The question record of a new question whose skill is `skill_id`.
pub fn new_quiz_question(new_q: &NewQuestion, skill_id: i32) -> (res: NewQuizQuestion)
    ensures
        res.q_name == new_q.q_name,
        res.q_explanation == new_q.q_explanation,
        res.question_text == new_q.question_text,
        res.skill_id == skill_id,
        res.skill_level == NEW_QUESTION_SKILL_LEVEL,
{
    NewQuizQuestion {
        q_name: new_q.q_name.clone(),
        q_explanation: new_q.q_explanation.clone(),
        question_text: new_q.question_text.clone(),
        skill_id,
        skill_level: NEW_QUESTION_SKILL_LEVEL,
    }
}

/// Ties every answer of a posted question to the question as stored, whatever question
/// they named.
pub fn post_question(answers: &mut Vec<NewAnswer>, question_id: i32)
    ensures
        final(answers)@.len() == old(answers)@.len(),
        forall|i: int|
            0 <= i < final(answers)@.len() ==> {
                &&& #[trigger] final(answers)@[i].question_id == question_id
                &&& final(answers)@[i].a_audio_bundle == old(answers)@[i].a_audio_bundle
                &&& final(answers)@[i].q_audio_bundle == old(answers)@[i].q_audio_bundle
                &&& final(answers)@[i].answer_text == old(answers)@[i].answer_text
            },
{
    let n = answers.len();
    for i in 0..n
        invariant
            n == answers@.len(),
            answers@.len() == old(answers)@.len(),
            forall|j: int|
                0 <= j < answers@.len() ==> {
                    &&& answers@[j].a_audio_bundle == old(answers)@[j].a_audio_bundle
                    &&& answers@[j].q_audio_bundle == old(answers)@[j].q_audio_bundle
                    &&& answers@[j].answer_text == old(answers)@[j].answer_text
                },
            forall|j: int| 0 <= j < i ==> #[trigger] answers@[j].question_id == question_id,
    {
        answers[i].question_id = question_id;
    }
}

/// The name under which a narrator is stored, and whether it is looked up first: an empty
/// name stands for a new anonymous narrator.
pub fn narrator_name(name: &str) -> (res: (String, bool))
    ensures
        name@.len() == 0 ==> res.0@ == "anonymous"@ && !res.1,
        name@.len() > 0 ==> res.0@ == name@ && res.1,
{
    if name.is_empty() {
        (String::from_str("anonymous"), false)
    } else {
        (name.to_owned(), true)
    }
}

/// The `time::strftime` pattern of the stored name of an uploaded recording: the upload
/// instant, random characters, and the extension of the name the client gave.
pub open spec fn audio_name_pattern(random: Seq<char>, orig_filename: Seq<char>) -> Seq<char> {
    "%FT%H-%M-%SZ"@ + random + "."@ + match path_extension(orig_filename) {
        Some(e) => e,
        None => "noextension"@,
    }
}

/// The `time::strftime` pattern under which an uploaded recording named `orig_filename` is
/// stored, with ten fresh random characters of `A-Za-z0-9`.
pub fn audio_file_name_pattern(orig_filename: &str) -> (res: String)
    ensures
        exists|random: Seq<char>|
            random.len() == AUDIO_NAME_RANDOM_CHARS && (forall|i: int|
                0 <= i < random.len() ==> is_ascii_alphanumeric(#[trigger] random[i]))
                && res@ == audio_name_pattern(random, orig_filename@),
{
    let mut name = String::from_str("%FT%H-%M-%SZ");
    let random = random_alphanumeric(AUDIO_NAME_RANDOM_CHARS);
    name.append(random.as_str());
    name.append(".");
    match file_extension(orig_filename) {
        Some(ext) => name.append(ext.as_str()),
        None => name.append("noextension"),
    }
    assert(name@ == audio_name_pattern(random@, orig_filename@));
    name
}

/// Whether a user has done an event: the user started it and it was marked done.
pub fn is_event_done(state: &Option<(Event, EventExperience)>) -> (res: bool)
    ensures
        res == (state matches Some((_, exp)) && exp.event_time is Some),
{
    match state {
        Some((_, exp)) => match exp.event_time {
            Some(_) => true,
            None => false,
        },
        None => false,
    }
}

/// A user's experience of an event that starts now: not done yet.
pub fn initiate_event(user: &User, ev: &Event) -> (res: EventExperience)
    ensures
        res.user_id == user.id,
        res.event_id == ev.id,
        res.event_time is None,
{
    EventExperience { user_id: user.id, event_id: ev.id, event_time: None }
}

/// A user's experience of an event, marked done at `now`.
pub fn set_event_done(exp: &EventExperience, now: i64) -> (res: EventExperience)
    ensures
        res.user_id == exp.user_id,
        res.event_id == exp.event_id,
        res.event_time == Some(now),
{
    EventExperience { user_id: exp.user_id, event_id: exp.event_id, event_time: Some(now) }
}

} // verus!
