//! Spaced repetition: what an answer does to the schedule of a question, to the user's
//! skill levels and to the count of new words seen.
use vstd::prelude::*;
use crate::model::{QuestionData, SkillData, UserMetrics, NewAnswerData, NewWordData, User};

verus! {

/// The delay, in seconds, after the first right answer to a question.
pub const FIRST_DUE_DELAY: i32 = 30;

/// The number of nanoseconds in a second: instants are counted in nanoseconds.
pub const NANOS_PER_SECOND: i64 = 1000000000;

/// The least delay, in seconds, after a right answer to a question seen before.
pub const MIN_DUE_DELAY: i32 = 15;

/// How long a word view took and how often its audio was played.
#[derive(Debug, Clone, Copy)]
pub struct AnsweredWord {
    pub word_id: i32,
    pub time: i32,
    pub times_audio_played: i32,
}

/// How long an exercise took and how often its audio was played.
#[derive(Debug, Clone, Copy)]
pub struct AnsweredExercise {
    pub word_id: i32,
    pub time: i32,
    pub times_audio_played: i32,
}

/// An answer to a quiz question: `answered_id` is `None` when time ran out.
#[derive(Debug, Clone, Copy)]
pub struct AnsweredQuestion {
    pub question_id: i32,
    pub right_answer_id: i32,
    pub answered_id: Option<i32>,
    pub q_audio_id: i32,
    pub active_answer_time: i32,
    pub full_answer_time: i32,
}

/// What the front end reports when a card is done.
#[derive(Debug, Clone, Copy)]
pub enum Answered {
    Word(AnsweredWord),
    Question(AnsweredQuestion),
    AnsweredExercise(AnsweredExercise),
}

/// Whether the chosen answer is the right one; no answer counts as `-1`.
pub open spec fn spec_is_correct(answer: AnsweredQuestion) -> bool {
    answer.right_answer_id == match answer.answered_id {
        Some(a) => a,
        None => -1i32,
    }
}

/// Whether `answer` picked the right answer.
pub fn answer_is_correct(answer: &AnsweredQuestion) -> (res: bool)
    ensures
        res == spec_is_correct(*answer),
        res == (answer.right_answer_id == match answer.answered_id {
            Some(a) => a,
            None => -1i32,
        }),
{
    let answered = match answer.answered_id {
        Some(a) => a,
        None => -1,
    };
    answer.right_answer_id == answered
}

/// The record that an answer to a question leaves.
pub fn answer_data(user: &User, answer: &AnsweredQuestion) -> (res: NewAnswerData)
    ensures
        res.user_id == user.id,
        res.question_id == answer.question_id,
        res.q_audio_id == answer.q_audio_id,
        res.correct_qa_id == answer.right_answer_id,
        res.answered_qa_id == answer.answered_id,
        res.active_answer_time_ms == answer.active_answer_time,
        res.full_answer_time_ms == answer.full_answer_time,
        res.correct == spec_is_correct(*answer),
{
    NewAnswerData {
        user_id: user.id,
        question_id: answer.question_id,
        q_audio_id: answer.q_audio_id,
        correct_qa_id: answer.right_answer_id,
        answered_qa_id: answer.answered_id,
        active_answer_time_ms: answer.active_answer_time,
        full_answer_time_ms: answer.full_answer_time,
        correct: answer_is_correct(answer),
    }
}

/// The delay, in seconds, until a question is due again after an answer: a right answer
/// to a question seen before doubles the delay, to at least 15 seconds; the first right
/// answer sets 30 seconds; a wrong answer makes the question due at once.
pub open spec fn next_due_delay(prev: Option<QuestionData>, correct: bool) -> int {
    match prev {
        Some(d) => if correct {
            if 2 * d.due_delay >= MIN_DUE_DELAY {
                2 * d.due_delay
            } else {
                MIN_DUE_DELAY as int
            }
        } else {
            0
        },
        None => if correct {
            FIRST_DUE_DELAY as int
        } else {
            0
        },
    }
}

/// The run of right answers after an answer: a right answer extends it, a wrong one
/// ends it.
pub open spec fn next_streak(prev: Option<QuestionData>, correct: bool) -> int {
    match prev {
        Some(d) => if correct {
            d.correct_streak + 1
        } else {
            0
        },
        None => if correct {
            1
        } else {
            0
        },
    }
}

/// Whether an answer raises the level of the question's skill: always the first time a
/// question is answered, and afterwards once the run of right answers exceeds two.
pub open spec fn earns_skill_bonus(prev: Option<QuestionData>, correct: bool) -> bool {
    match prev {
        Some(d) => next_streak(prev, correct) > 2,
        None => true,
    }
}

/// Whether `schedule_question` can compute the next schedule without leaving the range
/// of its integers.
pub open spec fn schedule_in_range(prev: Option<QuestionData>, correct: bool, now: i64) -> bool {
    &&& prev matches Some(d) ==> (correct ==> i32::MIN <= 2 * d.due_delay <= i32::MAX && d.correct_streak
        < i32::MAX)
    &&& i64::MIN <= now + NANOS_PER_SECOND * next_due_delay(prev, correct) <= i64::MAX
}

/// The schedule of question `question_id` for user `user_id` after an answer at `now`, given
/// the schedule before (`None` if the user never answered it), and whether the answer
/// raises the level of the question's skill.
pub fn schedule_question(
    user_id: i32,
    question_id: i32,
    prev: Option<QuestionData>,
    correct: bool,
    now: i64,
) -> (res: (QuestionData, bool))
    requires
        schedule_in_range(prev, correct, now),
    ensures
        res.0.user_id == user_id,
        res.0.question_id == question_id,
        res.0.due_delay == next_due_delay(prev, correct),
        res.0.correct_streak == next_streak(prev, correct),
        res.0.due_date == now + NANOS_PER_SECOND * next_due_delay(prev, correct),
        res.1 == earns_skill_bonus(prev, correct),
        (prev matches Some(d) ==> schedule_consistent(d.due_delay as int, d.correct_streak as int))
            ==> schedule_consistent(res.0.due_delay as int, res.0.correct_streak as int),
{
    proof {
        if prev matches Some(d) ==> schedule_consistent(d.due_delay as int, d.correct_streak as int) {
            lemma_schedule_stays_consistent(prev, correct);
        }
    }
    match prev {
        Some(d) => {
            let due_delay: i32 = if correct {
                let doubled: i32 = d.due_delay * 2;
                if doubled >= MIN_DUE_DELAY {
                    doubled
                } else {
                    MIN_DUE_DELAY
                }
            } else {
                0
            };
            let streak: i32 = if correct {
                d.correct_streak + 1
            } else {
                0
            };
            let due_date: i64 = now + NANOS_PER_SECOND * (due_delay as i64);
            (
                QuestionData {
                    user_id,
                    question_id,
                    due_date,
                    due_delay,
                    correct_streak: streak,
                },
                streak > 2,
            )
        },
        None => {
            let due_delay: i32 = if correct {
                FIRST_DUE_DELAY
            } else {
                0
            };
            let due_date: i64 = now + NANOS_PER_SECOND * (due_delay as i64);
            (
                QuestionData {
                    user_id,
                    question_id,
                    due_date,
                    due_delay,
                    correct_streak: if correct {
                        1
                    } else {
                        0
                    },
                },
                true,
            )
        },
    }
}

/// The level of a skill after an increase by `level_increment`, given the user's level
/// before (`None` if the user has none yet).
pub fn log_skill_by_id(
    user: &User,
    skill_id: i32,
    prev: Option<SkillData>,
    level_increment: i32,
) -> (res: SkillData)
    requires
        prev matches Some(s) ==> i32::MIN <= s.skill_level + level_increment <= i32::MAX,
    ensures
        res.user_id == user.id,
        res.skill_nugget == skill_id,
        res.skill_level == match prev {
            Some(s) => s.skill_level + level_increment,
            None => level_increment as int,
        },
{
    match prev {
        Some(s) => SkillData {
            user_id: user.id,
            skill_nugget: skill_id,
            skill_level: s.skill_level + level_increment,
        },
        None => SkillData { user_id: user.id, skill_nugget: skill_id, skill_level: level_increment },
    }
}

/// The record that a view of a word leaves.
pub fn word_data(user: &User, answer: &AnsweredWord) -> (res: NewWordData)
    ensures
        res.user_id == user.id,
        res.word_id == answer.word_id,
        res.audio_times == answer.times_audio_played,
        res.answer_time_ms == answer.time,
{
    NewWordData {
        user_id: user.id,
        word_id: answer.word_id,
        audio_times: answer.times_audio_played,
        answer_time_ms: answer.time,
    }
}

/// The metrics after one more new word was seen.
pub fn count_new_word(metrics: &UserMetrics) -> (res: UserMetrics)
    requires
        metrics.new_words_today < i32::MAX,
        metrics.new_words_since_break < i32::MAX,
    ensures
        res.id == metrics.id,
        res.new_words_today == metrics.new_words_today + 1,
        res.new_words_since_break == metrics.new_words_since_break + 1,
{
    UserMetrics {
        id: metrics.id,
        new_words_today: metrics.new_words_today + 1,
        new_words_since_break: metrics.new_words_since_break + 1,
    }
}

/// Whether new words may still be shown: while at most 18 were seen today, or at most 6
/// since the last break.
pub open spec fn spec_may_show_new_words(metrics: UserMetrics) -> bool {
    metrics.new_words_today <= 18 || metrics.new_words_since_break <= 6
}

/// Whether new words may still be shown to a user with `metrics`.
pub fn may_show_new_words(metrics: &UserMetrics) -> (res: bool)
    ensures
        res == spec_may_show_new_words(*metrics),
        res == (metrics.new_words_today <= 18 || metrics.new_words_since_break <= 6),
{
    metrics.new_words_today <= 18 || metrics.new_words_since_break <= 6
}

/// An answer is right exactly when the chosen answer is the right one, whatever the answer
/// times; an answer left unchosen is right only if the right answer's identifier is `-1`.
pub proof fn lemma_correct_is_the_chosen_answer(answer: AnsweredQuestion)
    ensures
        answer.answered_id matches Some(a) ==> (spec_is_correct(answer) <==> a == answer.right_answer_id),
        answer.answered_id is None ==> (spec_is_correct(answer) <==> answer.right_answer_id == -1),
        forall|t1: i32, t2: i32|
            #[trigger] spec_is_correct(AnsweredQuestion { active_answer_time: t1, full_answer_time: t2, ..answer })
                == spec_is_correct(answer),
{
}

/// New words are shown while at most 18 were seen today or at most 6 since the last break,
/// and not once both limits are passed.
pub proof fn lemma_new_word_limits(metrics: UserMetrics)
    ensures
        metrics.new_words_today <= 18 ==> spec_may_show_new_words(metrics),
        metrics.new_words_since_break <= 6 ==> spec_may_show_new_words(metrics),
        metrics.new_words_today > 18 && metrics.new_words_since_break > 6 ==> !spec_may_show_new_words(metrics),
{
}

/// A schedule whose delay and run of right answers are not negative.
pub open spec fn schedule_well_formed(d: QuestionData) -> bool {
    d.due_delay >= 0 && d.correct_streak >= 0
}

/// Whether `schedule_question` can compute the next schedule after an answer at `now`:
/// tells the inputs that its `requires` admits.
pub fn schedule_fits(prev: Option<QuestionData>, correct: bool, now: i64) -> (res: bool)
    ensures
        res == schedule_in_range(prev, correct, now),
{
    let delay: i64 = match prev {
        Some(d) => if correct {
            if d.correct_streak == i32::MAX {
                return false;
            }
            let doubled: i64 = 2 * (d.due_delay as i64);
            if doubled < i32::MIN as i64 || doubled > i32::MAX as i64 {
                return false;
            }
            if doubled >= MIN_DUE_DELAY as i64 {
                doubled
            } else {
                MIN_DUE_DELAY as i64
            }
        } else {
            0
        },
        None => if correct {
            FIRST_DUE_DELAY as i64
        } else {
            0
        },
    };
    assert(delay == next_due_delay(prev, correct));
    let ns: i64 = NANOS_PER_SECOND * delay;
    if ns >= 0 {
        now <= i64::MAX - ns
    } else {
        now >= i64::MIN - ns
    }
}

/// The invariant of a stored schedule, over its delay and its run of right answers: the
/// run is not negative, it is zero exactly when the delay is zero, and a delay that is
/// not zero is at least 15 seconds.
pub open spec fn schedule_consistent(due_delay: int, correct_streak: int) -> bool {
    &&& correct_streak >= 0
    &&& (correct_streak == 0) == (due_delay == 0)
    &&& (due_delay == 0 || due_delay >= MIN_DUE_DELAY)
}

/// Every answer keeps the schedule invariant: the first answer to a question sets it up,
/// and an answer to a question whose schedule satisfies it leaves a schedule that does.
pub proof fn lemma_schedule_stays_consistent(prev: Option<QuestionData>, correct: bool)
    requires
        prev matches Some(d) ==> schedule_consistent(d.due_delay as int, d.correct_streak as int),
    ensures
        schedule_consistent(next_due_delay(prev, correct), next_streak(prev, correct)),
{
}

/// The schedule, as mathematical values, after an answer at `now`.
pub open spec fn scheduled(prev: Option<QuestionData>, correct: bool, now: int) -> (int, int, int) {
    (next_due_delay(prev, correct), next_streak(prev, correct), now + NANOS_PER_SECOND * next_due_delay(
        prev,
        correct,
    ))
}

/// Every answer leaves a well-formed schedule behind, due no earlier than the answer.
pub proof fn lemma_schedule_stays_well_formed(prev: Option<QuestionData>, correct: bool)
    requires
        prev matches Some(d) ==> schedule_well_formed(d),
    ensures
        next_due_delay(prev, correct) >= 0,
        next_streak(prev, correct) >= 0,
{
}

/// A wrong answer makes the question due at once and ends the run of right answers.
pub proof fn lemma_wrong_answer_resets(prev: Option<QuestionData>, now: int)
    ensures
        scheduled(prev, false, now) == (0int, 0int, now),
{
}

/// A right answer to a question seen before at least doubles its delay, to at least 15
/// seconds, and extends the run of right answers by one.
pub proof fn lemma_right_answer_backs_off(d: QuestionData)
    requires
        schedule_well_formed(d),
    ensures
        next_due_delay(Some(d), true) >= 2 * d.due_delay,
        next_due_delay(Some(d), true) >= MIN_DUE_DELAY,
        next_streak(Some(d), true) == d.correct_streak + 1,
{
}

/// On a well-formed schedule the run of right answers after an answer is positive exactly
/// when the answer was right.
pub proof fn lemma_streak_tells_last_answer(prev: Option<QuestionData>, correct: bool)
    requires
        prev matches Some(d) ==> schedule_well_formed(d),
    ensures
        next_streak(prev, correct) > 0 <==> correct,
{
}

/// The first answer to a question always raises the skill; later ones from the third
/// right answer in a row on.
pub proof fn lemma_skill_bonus(prev: Option<QuestionData>, correct: bool)
    ensures
        prev is None ==> earns_skill_bonus(prev, correct),
        prev matches Some(d) ==> (earns_skill_bonus(prev, correct) <==> (correct
            && d.correct_streak >= 2)),
{
}

/// The schedule, as `(delay, run of right answers)`, after a sequence of answers to a
/// question never answered before.
pub open spec fn delay_and_streak_after(answers: Seq<bool>) -> (int, int)
    decreases answers.len(),
{
    if answers.len() == 0 {
        (0, 0)
    } else {
        let before = delay_and_streak_after(answers.drop_last());
        let prev = if answers.len() == 1 {
            None
        } else {
            Some(
                QuestionData {
                    user_id: 0,
                    question_id: 0,
                    due_date: 0,
                    due_delay: before.0 as i32,
                    correct_streak: before.1 as i32,
                },
            )
        };
        (next_due_delay(prev, answers.last()), next_streak(prev, answers.last()))
    }
}

/// `n >= 1` right answers in a row to a new question give a delay of `30 * 2^(n-1)`
/// seconds and a run of `n`, as long as the values fit the stored integers.
pub proof fn lemma_right_answers_double_delay(n: nat)
    requires
        1 <= n,
        FIRST_DUE_DELAY * vstd::arithmetic::power2::pow2((n - 1) as nat) <= i32::MAX,
        n <= i32::MAX,
    ensures
        delay_and_streak_after(Seq::new(n, |i: int| true)) == (FIRST_DUE_DELAY
            * vstd::arithmetic::power2::pow2((n - 1) as nat), n as int),
    decreases n,
{
    let s = Seq::new(n, |i: int| true);
    vstd::arithmetic::power2::lemma_pow2_pos((n - 1) as nat);
    if n == 1 {
        vstd::arithmetic::power2::lemma2_to64();
        assert(s.drop_last() =~= Seq::<bool>::empty());
    } else {
        assert(s.drop_last() =~= Seq::new((n - 1) as nat, |i: int| true));
        vstd::arithmetic::power2::lemma_pow2_adds((n - 2) as nat, 1);
        vstd::arithmetic::power2::lemma2_to64();
        vstd::arithmetic::power2::lemma_pow2_pos((n - 2) as nat);
        lemma_right_answers_double_delay((n - 1) as nat);
    }
}

} // verus!
