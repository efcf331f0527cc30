//! The decisions of the web front end: which session cookie counts, which endpoint asks for
//! what, how failures are answered, and the JSON shape of a card.
use vstd::prelude::*;
use crate::error::ErrorKind;
use crate::form::{first_entry, find_entry};
use crate::model::{User, Session, Answer, AudioFile};
use crate::quiz::{Card, Quiz};
use crate::random::{random_choice, random_shuffle};
use crate::text::{regex_replace_all, regex_replace_all_result, nfc, nfc_text, rfc3339_of_nanos, rfc3339_text};

verus! {

/// The name of the cookie that holds the session identifier.
pub open spec fn session_cookie_name() -> Seq<char> {
    "session_id"@
}

/// The value of the first `session_id` cookie among `(name, value)` pairs.
pub fn get_cookie(cookies: &Vec<(String, String)>) -> (res: Option<&String>)
    ensures
        res matches Some(v) ==> first_entry(cookies@, session_cookie_name()) == Some(*v),
        res is None ==> first_entry(cookies@, session_cookie_name()) is None,
{
    find_entry(cookies, &String::from_str("session_id"))
}

/// The logged-in user, from the result of checking the session cookie: a malformed or
/// unknown session means nobody is logged in; other failures are passed on.
pub fn get_user(checked: Result<(User, Session), ErrorKind>) -> (res: Result<Option<(User, Session)>, ErrorKind>)
    ensures
        checked matches Ok(us) ==> res == Ok::<Option<(User, Session)>, ErrorKind>(Some(us)),
        checked matches Err(e) ==> ((e is BadSessId || e is NoSuchSess) ==> res == Ok::<
            Option<(User, Session)>,
            ErrorKind,
        >(None)),
        checked matches Err(e) ==> (!(e is BadSessId || e is NoSuchSess) ==> res == Err::<
            Option<(User, Session)>,
            ErrorKind,
        >(e)),
{
    match checked {
        Ok(us) => Ok(Some(us)),
        Err(ErrorKind::BadSessId) => Ok(None),
        Err(ErrorKind::NoSuchSess) => Ok(None),
        Err(e) => Err(e),
    }
}

/// The kinds of content an editor reads, publishes or edits.
#[derive(Debug, Clone, Copy, PartialEq, Eq)]
pub enum ItemKind {
    Word,
    Question,
    Answer,
}

/// The lists an editor reads.
#[derive(Debug, Clone, Copy, PartialEq, Eq)]
pub enum ListKind {
    Nuggets,
    Bundles,
}

/// What an item endpoint reads: `get_word` a word, `get_question` a question.
pub fn get_item(endpoint: &String) -> (res: Option<ItemKind>)
    ensures
        res == if endpoint@ == "get_word"@ {
            Some(ItemKind::Word)
        } else if endpoint@ == "get_question"@ {
            Some(ItemKind::Question)
        } else {
            None::<ItemKind>
        },
{
    if *endpoint == String::from_str("get_word") {
        Some(ItemKind::Word)
    } else if *endpoint == String::from_str("get_question") {
        Some(ItemKind::Question)
    } else {
        None
    }
}

/// What a list endpoint reads: `get_nuggets` the skills with their content, `get_bundles`
/// the recording bundles.
pub fn get_all(endpoint: &String) -> (res: Option<ListKind>)
    ensures
        res == if endpoint@ == "get_nuggets"@ {
            Some(ListKind::Nuggets)
        } else if endpoint@ == "get_bundles"@ {
            Some(ListKind::Bundles)
        } else {
            None::<ListKind>
        },
{
    if *endpoint == String::from_str("get_nuggets") {
        Some(ListKind::Nuggets)
    } else if *endpoint == String::from_str("get_bundles") {
        Some(ListKind::Bundles)
    } else {
        None
    }
}

/// What a publishing endpoint does: which kind of item, and whether it becomes published.
pub fn set_published(endpoint: &String) -> (res: Option<(ItemKind, bool)>)
    ensures
        res == if endpoint@ == "publish_words"@ {
            Some((ItemKind::Word, true))
        } else if endpoint@ == "publish_questions"@ {
            Some((ItemKind::Question, true))
        } else if endpoint@ == "unpublish_words"@ {
            Some((ItemKind::Word, false))
        } else if endpoint@ == "unpublish_questions"@ {
            Some((ItemKind::Question, false))
        } else {
            None::<(ItemKind, bool)>
        },
{
    if *endpoint == String::from_str("publish_words") {
        Some((ItemKind::Word, true))
    } else if *endpoint == String::from_str("publish_questions") {
        Some((ItemKind::Question, true))
    } else if *endpoint == String::from_str("unpublish_words") {
        Some((ItemKind::Word, false))
    } else if *endpoint == String::from_str("unpublish_questions") {
        Some((ItemKind::Question, false))
    } else {
        None
    }
}

/// What an editing endpoint edits.
pub fn update_item(endpoint: &String) -> (res: Option<ItemKind>)
    ensures
        res == if endpoint@ == "update_word"@ {
            Some(ItemKind::Word)
        } else if endpoint@ == "update_question"@ {
            Some(ItemKind::Question)
        } else if endpoint@ == "update_answer"@ {
            Some(ItemKind::Answer)
        } else {
            None::<ItemKind>
        },
{
    if *endpoint == String::from_str("update_word") {
        Some(ItemKind::Word)
    } else if *endpoint == String::from_str("update_question") {
        Some(ItemKind::Question)
    } else if *endpoint == String::from_str("update_answer") {
        Some(ItemKind::Answer)
    } else {
        None
    }
}

/// The pattern of an image tag in a JSON-encoded edit, where `"` is written `\"`.
pub open spec fn img_tag_pattern() -> Seq<char> {
    "<img ([^>]* )?src=\\\\\"(?P<src>[^\"]*)\\\\\"( [^>]*)?>"@
}

/// What an image tag is rewritten to: only its source is kept.
pub open spec fn img_tag_replacement() -> Seq<char> {
    "<img src=\\\"$src\\\">"@
}

/// Strips every image tag in a JSON-encoded edit down to its source; `None` only if the
/// pattern were refused.
pub fn normalize_img_tags(text: &str) -> (res: Option<String>)
    ensures
        res is Some <==> regex_replace_all_result(img_tag_pattern(), text@, img_tag_replacement()) is Some,
        res matches Some(s) ==> s@ == regex_replace_all_result(img_tag_pattern(), text@, img_tag_replacement())->0,
{
    regex_replace_all(
        "<img ([^>]* )?src=\\\\\"(?P<src>[^\"]*)\\\\\"( [^>]*)?>",
        text,
        "<img src=\\\"$src\\\">",
    )
}

/// The requests whose failures are answered with something other than an internal error.
#[derive(Debug, Clone, Copy, PartialEq, Eq)]
pub enum Route {
    /// Logging in: a failed authentication is answered `401`.
    Login,
    /// Posting a new question: a malformed form is answered `400`.
    AddQuiz,
    /// Fetching a recording: a missing file is answered `404`.
    AudioFile,
    /// Changing the password: a too short new password is answered `400`.
    ChangePassword,
    /// Anything else.
    Other,
}

/// The HTTP status that answers failure `e` of a request to `route`.
pub open spec fn spec_failure_status(route: Route, e: ErrorKind) -> u16 {
    match (route, e) {
        (Route::Login, ErrorKind::AuthError) => 401,
        (Route::AddQuiz, ErrorKind::FormParseError) => 400,
        (Route::AudioFile, ErrorKind::FileNotFound) => 404,
        (Route::ChangePassword, ErrorKind::PasswordTooShort) => 400,
        _ => 500,
    }
}

/// The HTTP status that answers failure `e` of a request to `route`.
pub fn failure_status(route: Route, e: &ErrorKind) -> (res: u16)
    ensures
        res == spec_failure_status(route, *e),
{
    match (route, e) {
        (Route::Login, ErrorKind::AuthError) => 401,
        (Route::AddQuiz, ErrorKind::FormParseError) => 400,
        (Route::AudioFile, ErrorKind::FileNotFound) => 404,
        (Route::ChangePassword, ErrorKind::PasswordTooShort) => 400,
        _ => 500,
    }
}

/// The status of an editor's request: `401` unless a user is logged in and belongs to
/// the editors.
pub fn editor_gate(logged_in: bool, is_editor: bool) -> (res: Option<u16>)
    ensures
        res == if logged_in && is_editor {
            None::<u16>
        } else {
            Some(401u16)
        },
{
    if logged_in && is_editor {
        None
    } else {
        Some(401)
    }
}

/// A question card as the front end reads it.
#[derive(Debug)]
pub struct QuizJson {
    pub quiz_type: String,
    pub question_id: i32,
    pub explanation: String,
    pub question: (String, i32),
    pub right_a: i32,
    pub answers: Vec<(i32, String, Option<i32>)>,
    pub due_delay: i32,
    pub due_date: Option<String>,
}

/// A word card as the front end reads it.
#[derive(Debug)]
pub struct WordJson {
    pub show_accents: bool,
    pub quiz_type: String,
    pub id: i32,
    pub word: String,
    pub explanation: String,
    pub audio_id: i32,
    pub due_delay: i32,
    pub due_date: Option<String>,
}

/// A card as the front end reads it.
#[derive(Debug)]
pub enum CardJson {
    Quiz(QuizJson),
    Word(WordJson),
}

/// The delay that a word card announces.
pub const WORD_CARD_DUE_DELAY: i32 = 30;

/// The entry of an answer in a question card: its identifier, text and recording bundle.
pub open spec fn answer_entry(a: Answer) -> (i32, String, Option<i32>) {
    (a.id, a.answer_text, a.a_audio_bundle)
}

/// Lists the answers of a question card, in order.
fn answer_entries(answers: Vec<Answer>) -> (res: Vec<(i32, String, Option<i32>)>)
    ensures
        res@ == answers@.map_values(|a: Answer| answer_entry(a)),
{
    let mut res: Vec<(i32, String, Option<i32>)> = Vec::new();
    let n = answers.len();
    let mut rest = answers;
    let ghost all = answers@;
    let mut k: usize = 0;
    while rest.len() > 0
        invariant
            k + rest@.len() == all.len(),
            all.len() == n,
            rest@ == all.skip(k as int),
            res@ == all.take(k as int).map_values(|a: Answer| answer_entry(a)),
        decreases rest@.len(),
    {
        let a = rest.remove(0);
        assert(a == all[k as int]);
        res.push((a.id, a.answer_text, a.a_audio_bundle));
        assert(all.take(k + 1).map_values(|a: Answer| answer_entry(a)) =~= all.take(k as int).map_values(
            |a: Answer| answer_entry(a),
        ).push(answer_entry(all[k as int])));
        assert(rest@ =~= all.skip(k + 1));
        k = k + 1;
    }
    assert(all.take(k as int) =~= all);
    res
}

/// The JSON form of a question card given the recording that asks it and the order of its
/// answers.
pub open spec fn spec_quiz_json(q: Quiz, audio_id: i32, answers: Seq<(i32, String, Option<i32>)>) -> (
    i32,
    String,
    (String, i32),
    i32,
    Seq<(i32, String, Option<i32>)>,
    i32,
    Option<Seq<char>>,
) {
    (
        q.question.id,
        q.question.q_explanation,
        (q.question.question_text, audio_id),
        q.right_answer_id,
        answers,
        q.due_delay,
        match q.due_date {
            Some(d) => Some(rfc3339_text(d)),
            None => None,
        },
    )
}

/// Turns a card into the JSON that the front end reads at `now` (nanoseconds since the UNIX
/// epoch). A question is asked with one of its recordings drawn at random and its answers
/// in random order; a word is shown normalized to NFC with one of its recordings drawn at
/// random, with a delay of 30 seconds and `now` as its due date.
pub fn card_to_json(card: Card, now: i64) -> (res: CardJson)
    requires
        card matches Card::Quiz(q) ==> q.question_audio@.len() > 0,
        card matches Card::Word((_, files)) ==> files@.len() > 0,
    ensures
        card matches Card::Quiz(q) ==> (res matches CardJson::Quiz(j) && {
            &&& j.quiz_type@ == "question"@
            &&& exists|i: int| 0 <= i < q.question_audio@.len() && j.question.1 == q.question_audio@[i].id
            &&& j.answers@.to_multiset() == q.answers@.map_values(|a: Answer| answer_entry(a)).to_multiset()
            &&& (j.question_id, j.explanation, j.question, j.right_a, j.answers@, j.due_delay, match j.due_date {
                Some(s) => Some(s@),
                None => None,
            }) == spec_quiz_json(q, j.question.1, j.answers@)
        }),
        card matches Card::Word((w, files)) ==> (res matches CardJson::Word(j) && {
            &&& j.show_accents
            &&& j.quiz_type@ == "word"@
            &&& j.id == w.id
            &&& j.word@ == nfc_text(w.word@)
            &&& j.explanation == w.explanation
            &&& exists|i: int| 0 <= i < files@.len() && j.audio_id == files@[i].id
            &&& j.due_delay == WORD_CARD_DUE_DELAY
            &&& j.due_date matches Some(s) && s@ == rfc3339_text(now)
        }),
{
    match card {
        Card::Quiz(q) => {
            let ghost q0 = q;
            let chosen = random_choice(q.question_audio.as_slice());
            let audio_id = match chosen {
                Some(a) => a.id,
                None => {
                    assert(false);
                    0
                },
            };
            let due_date = match q.due_date {
                Some(d) => Some(rfc3339_of_nanos(d)),
                None => None,
            };
            let Quiz { question, question_audio, right_answer_id, answers, due_delay, due_date: _ } = q;
            let mut entries = answer_entries(answers);
            random_shuffle(&mut entries);
            CardJson::Quiz(
                QuizJson {
                    quiz_type: String::from_str("question"),
                    question_id: question.id,
                    explanation: question.q_explanation,
                    question: (question.question_text, audio_id),
                    right_a: right_answer_id,
                    answers: entries,
                    due_delay,
                    due_date,
                },
            )
        },
        Card::Word((w, files)) => {
            let chosen = random_choice(files.as_slice());
            let audio_id = match chosen {
                Some(a) => a.id,
                None => {
                    assert(false);
                    0
                },
            };
            CardJson::Word(
                WordJson {
                    show_accents: true,
                    quiz_type: String::from_str("word"),
                    id: w.id,
                    word: nfc(w.word.as_str()),
                    explanation: w.explanation,
                    audio_id,
                    due_delay: WORD_CARD_DUE_DELAY,
                    due_date: Some(rfc3339_of_nanos(now)),
                },
            )
        },
    }
}

} // verus!
