//! Choosing the next card to show: a due question first, then a new question, then a new
//! word while the user may still see new words, then a question that will soon be due.
//! The database reads in between are the caller's; the decisions are here.
use vstd::prelude::*;
use crate::error::ErrorKind;
use crate::model::{QuizQuestion, Answer, AudioFile, Word, UserMetrics, QuestionData};
use crate::scheduling::{Answered, AnsweredWord, AnsweredQuestion, spec_may_show_new_words, may_show_new_words, spec_is_correct, next_streak, schedule_well_formed, lemma_streak_tells_last_answer};
use crate::random::random_below;

verus! {

/// A question card: the question, the audio that asks for the right answer, and the
/// answers to choose from.
#[derive(Debug)]
pub struct Quiz {
    pub question: QuizQuestion,
    pub question_audio: Vec<AudioFile>,
    pub right_answer_id: i32,
    pub answers: Vec<Answer>,
    pub due_delay: i32,
    pub due_date: Option<i64>,
}

/// What the user is shown next: a word with its recordings, or a question.
#[derive(Debug)]
pub enum Card {
    Word((Word, Vec<AudioFile>)),
    Quiz(Quiz),
}

/// A question, its answers, and for each answer (in the same order) the recordings that
/// ask for it.
#[derive(Debug)]
pub struct LoadedQuiz {
    pub question: QuizQuestion,
    pub answers: Vec<Answer>,
    pub q_audio_files: Vec<Vec<AudioFile>>,
}

/// The first question of a user's schedule, with its delay and due instant.
#[derive(Debug, Clone, Copy)]
pub struct DueQuestion {
    pub question_id: i32,
    pub due_delay: i32,
    pub due_date: i64,
}

/// Where the choice of the next card stands.
#[derive(Debug, Clone, Copy, PartialEq, Eq)]
pub enum CardPhase {
    /// Waiting for the first question that is due now.
    Due,
    /// Waiting for the first question the user has never seen.
    New,
    /// Waiting for the user's word counts.
    Metrics,
    /// Waiting for the first word the user has never seen.
    Words,
    /// Waiting for the first question of the schedule, due or not.
    Peek,
    /// The choice is made.
    Done,
}

/// What the caller read, as the current phase asked.
#[derive(Debug, Clone)]
pub enum CardEvent {
    DueQuestion(Option<DueQuestion>),
    NewQuestion(Option<i32>),
    Metrics(UserMetrics),
    NewWord(Option<Word>),
    PeekQuestion(Option<DueQuestion>),
}

/// What the caller does next.
#[derive(Debug, Clone)]
pub enum CardAction {
    /// Read the first published question of the schedule that is due now.
    FetchDueQuestion,
    /// Read the first published question never answered whose skill has level above one.
    FetchNewQuestion,
    /// Read the user's word counts.
    FetchMetrics,
    /// Read the first published word never seen.
    FetchNewWord,
    /// Read the first published question of the schedule, due or not.
    PeekDueQuestion,
    /// Load this question and turn it into a card with `pick_quiz_card`.
    LoadQuiz { question_id: i32, due_delay: i32, due_date: Option<i64> },
    /// Load the recordings of this word and show it.
    ShowWord(Word),
    /// There is nothing to show.
    NoCard,
}

/// Whether `event` answers what `phase` waits for.
pub open spec fn event_fits(phase: CardPhase, event: CardEvent) -> bool {
    match phase {
        CardPhase::Due => event is DueQuestion,
        CardPhase::New => event is NewQuestion,
        CardPhase::Metrics => event is Metrics,
        CardPhase::Words => event is NewWord,
        CardPhase::Peek => event is PeekQuestion,
        CardPhase::Done => false,
    }
}

/// The action that loads a question of the schedule.
pub open spec fn load_scheduled(q: DueQuestion) -> CardAction {
    CardAction::LoadQuiz { question_id: q.question_id, due_delay: q.due_delay, due_date: Some(q.due_date) }
}

/// One step of the choice of the next card.
pub open spec fn card_step(phase: CardPhase, event: CardEvent) -> (CardPhase, CardAction) {
    match event {
        CardEvent::DueQuestion(Some(q)) => (CardPhase::Done, load_scheduled(q)),
        CardEvent::DueQuestion(None) => (CardPhase::New, CardAction::FetchNewQuestion),
        CardEvent::NewQuestion(Some(id)) => (
            CardPhase::Done,
            CardAction::LoadQuiz { question_id: id, due_delay: 0, due_date: None },
        ),
        CardEvent::NewQuestion(None) => (CardPhase::Metrics, CardAction::FetchMetrics),
        CardEvent::Metrics(m) => if spec_may_show_new_words(m) {
            (CardPhase::Words, CardAction::FetchNewWord)
        } else {
            (CardPhase::Peek, CardAction::PeekDueQuestion)
        },
        CardEvent::NewWord(Some(w)) => (CardPhase::Done, CardAction::ShowWord(w)),
        CardEvent::NewWord(None) => (CardPhase::Peek, CardAction::PeekDueQuestion),
        CardEvent::PeekQuestion(Some(q)) => (CardPhase::Done, load_scheduled(q)),
        CardEvent::PeekQuestion(None) => (CardPhase::Done, CardAction::NoCard),
    }
}

/// The first step of the choice of the next card.
pub fn get_new_quiz_start() -> (res: (CardPhase, CardAction))
    ensures
        res == (CardPhase::Due, CardAction::FetchDueQuestion),
{
    (CardPhase::Due, CardAction::FetchDueQuestion)
}

/// Takes what the caller read in `phase` and says what to do next.
pub fn get_new_quiz(phase: CardPhase, event: CardEvent) -> (res: (CardPhase, CardAction))
    requires
        event_fits(phase, event),
    ensures
        res == card_step(phase, event),
{
    match event {
        CardEvent::DueQuestion(Some(q)) => (
            CardPhase::Done,
            CardAction::LoadQuiz {
                question_id: q.question_id,
                due_delay: q.due_delay,
                due_date: Some(q.due_date),
            },
        ),
        CardEvent::DueQuestion(None) => (CardPhase::New, CardAction::FetchNewQuestion),
        CardEvent::NewQuestion(Some(id)) => (
            CardPhase::Done,
            CardAction::LoadQuiz { question_id: id, due_delay: 0, due_date: None },
        ),
        CardEvent::NewQuestion(None) => (CardPhase::Metrics, CardAction::FetchMetrics),
        CardEvent::Metrics(m) => if may_show_new_words(&m) {
            (CardPhase::Words, CardAction::FetchNewWord)
        } else {
            (CardPhase::Peek, CardAction::PeekDueQuestion)
        },
        CardEvent::NewWord(Some(w)) => (CardPhase::Done, CardAction::ShowWord(w)),
        CardEvent::NewWord(None) => (CardPhase::Peek, CardAction::PeekDueQuestion),
        CardEvent::PeekQuestion(Some(q)) => (
            CardPhase::Done,
            CardAction::LoadQuiz {
                question_id: q.question_id,
                due_delay: q.due_delay,
                due_date: Some(q.due_date),
            },
        ),
        CardEvent::PeekQuestion(None) => (CardPhase::Done, CardAction::NoCard),
    }
}

/// What the database holds for the choice: the first question due now, the first new
/// question, the word counts, the first new word and the first question of the schedule.
pub struct CardWorld {
    pub due: Option<DueQuestion>,
    pub new_question: Option<i32>,
    pub metrics: UserMetrics,
    pub new_word: Option<Word>,
    pub peek: Option<DueQuestion>,
}

/// What the database answers to a read action.
pub open spec fn world_answer(w: CardWorld, action: CardAction) -> CardEvent {
    match action {
        CardAction::FetchDueQuestion => CardEvent::DueQuestion(w.due),
        CardAction::FetchNewQuestion => CardEvent::NewQuestion(w.new_question),
        CardAction::FetchMetrics => CardEvent::Metrics(w.metrics),
        CardAction::FetchNewWord => CardEvent::NewWord(w.new_word),
        _ => CardEvent::PeekQuestion(w.peek),
    }
}

/// Runs the choice against `w` for at most `fuel` steps from `state`.
pub open spec fn run_card_choice(w: CardWorld, state: (CardPhase, CardAction), fuel: nat) -> (
    CardPhase,
    CardAction,
)
    decreases fuel,
{
    if fuel == 0 || state.0 == CardPhase::Done {
        state
    } else {
        run_card_choice(w, card_step(state.0, world_answer(w, state.1)), (fuel - 1) as nat)
    }
}

/// The card that the backend promises: a question due now; else a question never seen;
/// else, while new words may be shown, a word never seen; else the next question of the
/// schedule; else nothing.
pub open spec fn chosen_card(w: CardWorld) -> CardAction {
    if w.due is Some {
        load_scheduled(w.due->0)
    } else if w.new_question is Some {
        CardAction::LoadQuiz { question_id: w.new_question->0, due_delay: 0, due_date: None }
    } else if spec_may_show_new_words(w.metrics) && w.new_word is Some {
        CardAction::ShowWord(w.new_word->0)
    } else if w.peek is Some {
        load_scheduled(w.peek->0)
    } else {
        CardAction::NoCard
    }
}

/// Driving `get_new_quiz` from its first step, answering each read from the same database,
/// ends within five steps on the promised card.
pub proof fn lemma_card_choice_priority(w: CardWorld)
    ensures
        run_card_choice(w, (CardPhase::Due, CardAction::FetchDueQuestion), 5) == (
            CardPhase::Done,
            chosen_card(w),
        ),
{
    reveal_with_fuel(run_card_choice, 6);
}

/// The question card for answer `index` of `q`: the right answer is that one, asked with
/// its recordings.
pub open spec fn spec_quiz_card(q: LoadedQuiz, index: int, due_delay: i32, due_date: Option<i64>) -> Card {
    Card::Quiz(
        Quiz {
            question: q.question,
            question_audio: q.q_audio_files@[index],
            right_answer_id: q.answers@[index].id,
            answers: q.answers,
            due_delay,
            due_date,
        },
    )
}

/// Builds the question card for answer `index` of `q`.
pub fn quiz_card(q: LoadedQuiz, index: usize, due_delay: i32, due_date: Option<i64>) -> (res: Card)
    requires
        index < q.answers@.len(),
        index < q.q_audio_files@.len(),
    ensures
        res == spec_quiz_card(q, index as int, due_delay, due_date),
{
    let LoadedQuiz { question, answers, mut q_audio_files } = q;
    let right_answer_id = answers[index].id;
    let question_audio = q_audio_files.remove(index);
    Card::Quiz(Quiz { question, question_audio, right_answer_id, answers, due_delay, due_date })
}

/// Turns a loaded question into a card whose right answer is drawn at random; a question
/// that could not be loaded gives no card.
pub fn pick_quiz_card(loaded: Option<LoadedQuiz>, due_delay: i32, due_date: Option<i64>) -> (res:
    Option<Card>)
    requires
        loaded matches Some(q) ==> 0 < q.answers@.len() <= q.q_audio_files@.len(),
    ensures
        loaded is None ==> res is None,
        loaded matches Some(q) ==> exists|i: int|
            0 <= i < q.answers@.len() && res == Some(spec_quiz_card(q, i, due_delay, due_date)),
{
    match loaded {
        None => None,
        Some(q) => {
            let index = random_below(q.answers.len());
            Some(quiz_card(q, index, due_delay, due_date))
        },
    }
}

/// The position of the first answer with identifier `id`.
pub fn find_answer_index(answers: &Vec<Answer>, id: i32) -> (res: Option<usize>)
    ensures
        res matches Some(i) ==> i < answers@.len() && answers@[i as int].id == id && forall|j: int|
            0 <= j < i ==> answers@[j].id != id,
        res is None ==> forall|j: int| 0 <= j < answers@.len() ==> answers@[j].id != id,
{
    for i in 0..answers.len()
        invariant
            forall|j: int| 0 <= j < i ==> answers@[j].id != id,
    {
        if answers[i].id == id {
            return Some(i);
        }
    }
    None
}

/// What the caller does first with a reported answer.
#[derive(Debug, Clone, Copy)]
pub enum AnswerAction {
    /// Record the word view, then choose a card with `get_new_quiz`.
    LogWord(AnsweredWord),
    /// Record the answer and reschedule the question, then call `after_question_logged`.
    LogQuestion(AnsweredQuestion),
}

/// The first thing to do with a reported answer. Exercises have no recording yet.
pub fn get_next_quiz(answer: &Answered) -> (res: AnswerAction)
    requires
        !(answer is AnsweredExercise),
    ensures
        answer matches Answered::Word(w) ==> res == AnswerAction::LogWord(*w),
        answer matches Answered::Question(q) ==> res == AnswerAction::LogQuestion(*q),
        res == answer_action(*answer),
{
    match answer {
        Answered::Word(w) => AnswerAction::LogWord(*w),
        Answered::Question(q) => AnswerAction::LogQuestion(*q),
        Answered::AnsweredExercise(_) => {
            assert(false);
            AnswerAction::LogWord(AnsweredWord { word_id: 0, time: 0, times_audio_played: 0 })
        },
    }
}

/// Whether the same question is asked again after an answer left `q_data` behind: it is
/// after a wrong answer (no run of right answers); otherwise a new card is chosen.
pub fn after_question_logged(q_data: &QuestionData) -> (ask_again: bool)
    ensures
        ask_again == (q_data.correct_streak <= 0),
        ask_again == asks_again(*q_data),
{
    !(q_data.correct_streak > 0)
}

/// The card that asks the question again after a wrong answer: the same right answer,
/// asked with its recordings, on the new schedule. A question that is gone gives no card;
/// a right answer that is not among the answers is a database inconsistency.
pub fn repeat_question_card(loaded: Option<LoadedQuiz>, right_answer_id: i32, q_data: &QuestionData) -> (res:
    Result<Option<Card>, ErrorKind>)
    requires
        loaded matches Some(q) ==> q.answers@.len() <= q.q_audio_files@.len(),
    ensures
        loaded is None ==> res == Ok::<Option<Card>, ErrorKind>(None),
        loaded matches Some(q) ==> {
            (forall|j: int| 0 <= j < q.answers@.len() ==> q.answers@[j].id != right_answer_id)
                ==> res == Err::<Option<Card>, ErrorKind>(ErrorKind::DatabaseOdd)
        },
        loaded matches Some(q) ==> {
            forall|i: int|
                0 <= i < q.answers@.len() && q.answers@[i].id == right_answer_id && (forall|j: int|
                    0 <= j < i ==> q.answers@[j].id != right_answer_id) ==> res == Ok::<
                    Option<Card>,
                    ErrorKind,
                >(Some(spec_quiz_card(q, i, q_data.due_delay, Some(q_data.due_date))))
        },
{
    match loaded {
        None => Ok(None),
        Some(q) => match find_answer_index(&q.answers, right_answer_id) {
            None => Err(ErrorKind::DatabaseOdd),
            Some(i) => Ok(Some(quiz_card(q, i, q_data.due_delay, Some(q_data.due_date)))),
        },
    }
}

/// After an answer that left a well-formed schedule, the same question is asked again
/// exactly when the answer was wrong.
pub proof fn lemma_wrong_answer_asks_again(
    prev: Option<QuestionData>,
    correct: bool,
    q_data: QuestionData,
)
    requires
        prev matches Some(d) ==> crate::scheduling::schedule_well_formed(d),
        q_data.correct_streak == crate::scheduling::next_streak(prev, correct),
    ensures
        (q_data.correct_streak <= 0) == !correct,
{
    crate::scheduling::lemma_streak_tells_last_answer(prev, correct);
}

/// What the caller does first with a reported answer that is not an exercise.
pub open spec fn answer_action(answer: Answered) -> AnswerAction {
    match answer {
        Answered::Word(w) => AnswerAction::LogWord(w),
        Answered::Question(q) => AnswerAction::LogQuestion(q),
        Answered::AnsweredExercise(_) => AnswerAction::LogWord(AnsweredWord { word_id: 0, time: 0, times_audio_played: 0 }),
    }
}

/// Whether the question is asked again once the answer left `q_data` behind.
pub open spec fn asks_again(q_data: QuestionData) -> bool {
    q_data.correct_streak <= 0
}

/// A word answer is recorded and followed by a fresh choice of card with
/// `get_new_quiz`; an answer to a question is recorded, and when it was right on a
/// well-formed schedule the question is not asked again, so a fresh choice of card follows
/// as well.
pub proof fn lemma_answer_moves_on(answer: Answered, prev: Option<QuestionData>, q_data: QuestionData)
    requires
        !(answer is AnsweredExercise),
        prev matches Some(d) ==> schedule_well_formed(d),
        answer matches Answered::Question(a) ==> q_data.correct_streak == next_streak(prev, spec_is_correct(a)),
    ensures
        answer matches Answered::Word(w) ==> answer_action(answer) == AnswerAction::LogWord(w),
        answer matches Answered::Question(a) ==> answer_action(answer) == AnswerAction::LogQuestion(a),
        answer matches Answered::Question(a) ==> (spec_is_correct(a) ==> !asks_again(q_data)),
        answer matches Answered::Question(a) ==> (!spec_is_correct(a) ==> asks_again(q_data)),
{
    if let Answered::Question(a) = answer {
        lemma_streak_tells_last_answer(prev, spec_is_correct(a));
    }
}

/// Checks that every answer of a loaded question has at least one recording.
pub fn check_audio_groups(groups: &Vec<Vec<AudioFile>>) -> (res: Result<(), ErrorKind>)
    ensures
        res is Ok <==> forall|i: int| 0 <= i < groups@.len() ==> groups@[i]@.len() > 0,
        res matches Err(e) ==> e == ErrorKind::DatabaseOdd,
{
    for i in 0..groups.len()
        invariant
            forall|j: int| 0 <= j < i ==> groups@[j]@.len() > 0,
    {
        if groups[i].len() == 0 {
            return Err(ErrorKind::DatabaseOdd);
        }
    }
    Ok(())
}

} // verus!
