//! The forms the web front end posts: looking fields up, and reading the question, word,
//! answer and password forms into the library's records.
use vstd::prelude::*;
use crate::error::ErrorKind;
use crate::decimal::{parse_i32, parses_as_i32, decimal_value, decimal_chars, push_decimal};
use crate::scheduling::{Answered, AnsweredWord, AnsweredQuestion};
use crate::model::{NewQuizQuestion, NewAnswer, UpdateQuestion, UpdateAnswer};
use vstd::string::StringSliceAdditionalSpecFns;
use vstd::utf8::encode_utf8;

verus! {

/// The first value stored under `key` in `entries`.
pub open spec fn first_entry<T>(entries: Seq<(String, T)>, key: Seq<char>) -> Option<T>
    decreases entries.len(),
{
    if entries.len() == 0 {
        None
    } else if entries[0].0@ == key {
        Some(entries[0].1)
    } else {
        first_entry(entries.drop_first(), key)
    }
}

proof fn lemma_first_entry_skip<T>(entries: Seq<(String, T)>, key: Seq<char>, k: int)
    requires
        0 <= k < entries.len(),
        entries[k].0@ != key,
    ensures
        first_entry(entries.skip(k), key) == first_entry(entries.skip(k + 1), key),
{
    assert(entries.skip(k).drop_first() =~= entries.skip(k + 1));
}

/// Returns the first value stored under `key`.
pub fn find_entry<'a, T>(entries: &'a Vec<(String, T)>, key: &String) -> (res: Option<&'a T>)
    ensures
        res matches Some(v) ==> first_entry(entries@, key@) == Some(*v),
        res is None ==> first_entry(entries@, key@) is None,
{
    let mut k: usize = 0;
    assert(entries@.skip(0) =~= entries@);
    while k < entries.len()
        invariant
            k <= entries@.len(),
            first_entry(entries@, key@) == first_entry(entries@.skip(k as int), key@),
        decreases entries@.len() - k,
    {
        if entries[k].0 == *key {
            assert(entries@.skip(k as int)[0] == entries@[k as int]);
            return Some(&entries[k].1);
        }
        proof {
            lemma_first_entry_skip(entries@, key@, k as int);
        }
        k = k + 1;
    }
    assert(entries@.skip(k as int).len() == 0);
    None
}

/// The fields of a posted form, in the order they came.
#[derive(Debug, Clone)]
pub struct FormData {
    pub fields: Vec<(String, String)>,
}

/// A file that came with a posted form, as stored in a temporary file.
#[derive(Debug)]
pub struct UploadedFile {
    pub path: String,
    pub size: u64,
    /// The name the client gave, or `Err` when it could not be decoded.
    pub filename: Result<Option<String>, ()>,
    pub content_type: Option<String>,
}

/// An uploaded recording: where it is, the name the client gave, and its MIME type.
#[derive(Debug, Clone)]
pub struct AudioUpload {
    pub path: String,
    pub filename: Option<String>,
    pub mime: String,
}

/// The value of a required field: a missing field is a form error.
pub open spec fn spec_field(form: Seq<(String, String)>, key: Seq<char>) -> Result<String, ErrorKind> {
    match first_entry(form, key) {
        Some(v) => Ok(v),
        None => Err(ErrorKind::FormParseError),
    }
}

/// The value of a required integer field: a missing field is a form error, a malformed
/// one an integer error.
pub open spec fn spec_int_field(form: Seq<(String, String)>, key: Seq<char>) -> Result<i32, ErrorKind> {
    match first_entry(form, key) {
        Some(v) => if parses_as_i32(encode_utf8(v@)) {
            Ok(decimal_value(encode_utf8(v@))->0 as i32)
        } else {
            Err(ErrorKind::ParseIntError)
        },
        None => Err(ErrorKind::FormParseError),
    }
}

/// Reads a required field.
pub fn field(form: &FormData, key: &String) -> (res: Result<String, ErrorKind>)
    ensures
        res == spec_field(form.fields@, key@),
{
    match find_entry(&form.fields, key) {
        Some(v) => Ok(v.clone()),
        None => Err(ErrorKind::FormParseError),
    }
}

/// Reads a required integer field.
pub fn int_field(form: &FormData, key: &String) -> (res: Result<i32, ErrorKind>)
    ensures
        res == spec_int_field(form.fields@, key@),
{
    match find_entry(&form.fields, key) {
        Some(v) => parse_i32(v.as_str()),
        None => Err(ErrorKind::FormParseError),
    }
}

/// The recording that an uploaded file holds: a name that cannot be decoded, or a missing
/// content type, is a form error.
pub open spec fn spec_upload(f: UploadedFile) -> Result<AudioUpload, ErrorKind> {
    match f.filename {
        Err(_) => Err(ErrorKind::FormParseError),
        Ok(name) => match f.content_type {
            None => Err(ErrorKind::FormParseError),
            Some(mime) => Ok(AudioUpload { path: f.path, filename: name, mime }),
        },
    }
}

/// Reads the recording that an uploaded file holds.
pub fn upload_of(f: &UploadedFile) -> (res: Result<AudioUpload, ErrorKind>)
    ensures
        res == spec_upload(*f),
{
    match &f.filename {
        Err(_) => Err(ErrorKind::FormParseError),
        Ok(name) => {
            let filename = match name {
                Some(n) => Some(n.clone()),
                None => None,
            };
            match &f.content_type {
                None => Err(ErrorKind::FormParseError),
                Some(mime) => Ok(AudioUpload { path: f.path.clone(), filename, mime: mime.clone() }),
            }
        },
    }
}

/// Appends, to what `prev` collected, the recording of an optional uploaded file: an
/// absent or empty file adds nothing.
pub open spec fn collect_upload(prev: Result<Seq<AudioUpload>, ErrorKind>, file: Option<UploadedFile>) -> Result<
    Seq<AudioUpload>,
    ErrorKind,
> {
    match prev {
        Err(e) => Err(e),
        Ok(ups) => match file {
            None => Ok(ups),
            Some(f) => if f.size == 0 {
                Ok(ups)
            } else {
                match spec_upload(f) {
                    Ok(u) => Ok(ups.push(u)),
                    Err(e) => Err(e),
                }
            },
        },
    }
}

/// The recordings uploaded under the keys `prefix` followed by `1`, ..., `n`, in that
/// order; the first unreadable file is the error.
pub open spec fn uploads_for(files: Seq<(String, UploadedFile)>, prefix: Seq<char>, n: int) -> Result<
    Seq<AudioUpload>,
    ErrorKind,
>
    decreases n,
{
    if n <= 0 {
        Ok(seq![])
    } else {
        collect_upload(uploads_for(files, prefix, n - 1), first_entry(files, prefix + decimal_chars(n as nat)))
    }
}

proof fn lemma_uploads_error_sticks(files: Seq<(String, UploadedFile)>, prefix: Seq<char>, k: int, m: int)
    requires
        0 <= k <= m,
        uploads_for(files, prefix, k) is Err,
    ensures
        uploads_for(files, prefix, m) == uploads_for(files, prefix, k),
    decreases m - k,
{
    if m > k {
        lemma_uploads_error_sticks(files, prefix, k, m - 1);
    }
}

/// Whether an exec result holds what a specified result says.
pub open spec fn vec_result_is<T>(res: Result<Vec<T>, ErrorKind>, s: Result<Seq<T>, ErrorKind>) -> bool {
    match res {
        Ok(v) => s == Ok::<Seq<T>, ErrorKind>(v@),
        Err(e) => s == Err::<Seq<T>, ErrorKind>(e),
    }
}

/// Reads the recordings uploaded under `prefix` followed by `1`, ..., `n`: absent and
/// empty files are skipped.
pub fn read_uploads(files: &Vec<(String, UploadedFile)>, prefix: &String, n: i32) -> (res: Result<
    Vec<AudioUpload>,
    ErrorKind,
>)
    ensures
        vec_result_is(res, uploads_for(files@, prefix@, n as int)),
{
    let mut ups: Vec<AudioUpload> = Vec::new();
    let mut v: i64 = 1;
    while v <= n as i64
        invariant
            1 <= v,
            v <= n + 1 || v == 1,
            uploads_for(files@, prefix@, v - 1) == Ok::<Seq<AudioUpload>, ErrorKind>(ups@),
        decreases n + 1 - v,
    {
        let mut key = prefix.clone();
        push_decimal(&mut key, v as u32);
        match find_entry(files, &key) {
            None => {},
            Some(f) => {
                if f.size != 0 {
                    match upload_of(f) {
                        Ok(u) => {
                            ups.push(u);
                        },
                        Err(e) => {
                            proof {
                                lemma_uploads_error_sticks(files@, prefix@, v as int, n as int);
                            }
                            return Err(e);
                        },
                    }
                }
            },
        }
        v = v + 1;
    }
    Ok(ups)
}

/// The text fields of a new quiz question.
#[derive(Debug, Clone)]
pub struct NewQuestion {
    pub q_name: String,
    pub q_explanation: String,
    pub question_text: String,
    pub skill_nugget: String,
}

/// One answer of a new quiz question: the recordings that ask for it, an optional
/// recording of the answer itself, and its text.
#[derive(Debug, Clone)]
pub struct Fieldset {
    pub q_variants: Vec<AudioUpload>,
    pub answer_audio: Option<AudioUpload>,
    pub answer_text: String,
}

/// A fieldset as mathematical values.
pub open spec fn fieldset_view(f: Fieldset) -> (Seq<AudioUpload>, Option<AudioUpload>, String) {
    (f.q_variants@, f.answer_audio, f.answer_text)
}

/// The key `choice_<i>` followed by `suffix`.
pub open spec fn choice_key(i: nat, suffix: Seq<char>) -> Seq<char> {
    "choice_"@ + decimal_chars(i) + suffix
}

/// Builds the key `choice_<i>` followed by `suffix`.
fn make_choice_key(i: u32, suffix: &str) -> (res: String)
    ensures
        res@ == choice_key(i as nat, suffix@),
{
    let mut key = String::from_str("choice_");
    push_decimal(&mut key, i);
    key.append(suffix);
    key
}

/// The optional recording of an answer: absent and empty files give none.
pub open spec fn spec_answer_audio(file: Option<UploadedFile>) -> Result<Option<AudioUpload>, ErrorKind> {
    match file {
        None => Ok(None),
        Some(f) => if f.size == 0 {
            Ok(None)
        } else {
            match spec_upload(f) {
                Ok(u) => Ok(Some(u)),
                Err(e) => Err(e),
            }
        },
    }
}

/// Fieldset `i` of the new-question form.
pub open spec fn spec_fieldset(
    form: Seq<(String, String)>,
    files: Seq<(String, UploadedFile)>,
    i: nat,
    lowest_fieldset: i32,
) -> Result<(Seq<AudioUpload>, Option<AudioUpload>, String), ErrorKind> {
    match spec_int_field(form, choice_key(i, "_q_variations"@)) {
        Err(e) => Err(e),
        Ok(q_variations) => if lowest_fieldset > 100 {
            Err(ErrorKind::FormParseError)
        } else {
            match uploads_for(files, choice_key(i, "_q_variant_"@), q_variations as int) {
                Err(e) => Err(e),
                Ok(variants) => match spec_answer_audio(first_entry(files, choice_key(i, "_answer_audio"@))) {
                    Err(e) => Err(e),
                    Ok(answer_audio) => match spec_field(form, choice_key(i, "_answer_text"@)) {
                        Err(e) => Err(e),
                        Ok(text) => Ok((variants, answer_audio, text)),
                    },
                },
            }
        },
    }
}

/// Fieldsets `1`, ..., `n` of the new-question form, in that order.
pub open spec fn spec_fieldsets(
    form: Seq<(String, String)>,
    files: Seq<(String, UploadedFile)>,
    n: int,
    lowest_fieldset: i32,
) -> Result<Seq<(Seq<AudioUpload>, Option<AudioUpload>, String)>, ErrorKind>
    decreases n,
{
    if n <= 0 {
        Ok(seq![])
    } else {
        match spec_fieldsets(form, files, n - 1, lowest_fieldset) {
            Err(e) => Err(e),
            Ok(prev) => match spec_fieldset(form, files, n as nat, lowest_fieldset) {
                Err(e) => Err(e),
                Ok(f) => Ok(prev.push(f)),
            },
        }
    }
}

proof fn lemma_fieldsets_error_sticks(
    form: Seq<(String, String)>,
    files: Seq<(String, UploadedFile)>,
    k: int,
    m: int,
    lowest_fieldset: i32,
)
    requires
        0 <= k <= m,
        spec_fieldsets(form, files, k, lowest_fieldset) is Err,
    ensures
        spec_fieldsets(form, files, m, lowest_fieldset) == spec_fieldsets(form, files, k, lowest_fieldset),
    decreases m - k,
{
    if m > k {
        lemma_fieldsets_error_sticks(form, files, k, m - 1, lowest_fieldset);
    }
}

/// Whether every field and file of fieldset `i` is present where needed and readable: its
/// count of recordings is an integer, each non-empty recording and the non-empty answer
/// recording can be read, and the answer text is there.
pub open spec fn fieldset_readable(form: Seq<(String, String)>, files: Seq<(String, UploadedFile)>, i: nat) -> bool {
    &&& spec_int_field(form, choice_key(i, "_q_variations"@)) is Ok
    &&& uploads_for(files, choice_key(i, "_q_variant_"@), spec_int_field(form, choice_key(i, "_q_variations"@))->Ok_0 as int) is Ok
    &&& spec_answer_audio(first_entry(files, choice_key(i, "_answer_audio"@))) is Ok
    &&& first_entry(form, choice_key(i, "_answer_text"@)) is Some
}

/// A fieldset is read whatever number of answers the form announces, up to a hundred: it
/// is read exactly when its fields and files are readable, and its text is the answer
/// text field.
pub proof fn lemma_fieldset_reads_its_fields(
    form: Seq<(String, String)>,
    files: Seq<(String, UploadedFile)>,
    i: nat,
    lowest_fieldset: i32,
)
    requires
        lowest_fieldset <= 100,
    ensures
        spec_fieldset(form, files, i, lowest_fieldset) == spec_fieldset(form, files, i, 0),
        spec_fieldset(form, files, i, lowest_fieldset) is Ok <==> fieldset_readable(form, files, i),
        spec_fieldset(form, files, i, lowest_fieldset) matches Ok((_, _, t)) ==> first_entry(
            form,
            choice_key(i, "_answer_text"@),
        ) == Some(t),
{
}

proof fn lemma_fieldsets_read(
    form: Seq<(String, String)>,
    files: Seq<(String, UploadedFile)>,
    k: int,
    lowest_fieldset: i32,
)
    requires
        0 <= k,
        lowest_fieldset <= 100,
        forall|i: nat| 1 <= i <= k ==> #[trigger] fieldset_readable(form, files, i),
    ensures
        spec_fieldsets(form, files, k, lowest_fieldset) matches Ok(fs) && fs.len() == k,
    decreases k,
{
    if k > 0 {
        lemma_fieldsets_read(form, files, k - 1, lowest_fieldset);
        assert(fieldset_readable(form, files, k as nat));
        lemma_fieldset_reads_its_fields(form, files, k as nat, lowest_fieldset);
    }
}

/// A new-question form that announces more than ten answers is refused.
pub proof fn lemma_quiz_form_at_most_ten(form: Seq<(String, String)>, files: Seq<(String, UploadedFile)>, n: i32)
    requires
        spec_int_field(form, "lowest_fieldset"@) == Ok::<i32, ErrorKind>(n),
        n > 10,
    ensures
        spec_quiz_form(form, files) == Err::<(NewQuestion, Seq<(Seq<AudioUpload>, Option<AudioUpload>, String)>), ErrorKind>(
            ErrorKind::FormParseError,
        ),
{
}

/// A new-question form that announces `n` answers, at most ten, and holds the question's
/// texts and readable fieldsets `1`, ..., `n` is read, with exactly `n` fieldsets (none for
/// a count below one) and the texts of its fields.
pub proof fn lemma_quiz_form_reads_every_fieldset(
    form: Seq<(String, String)>,
    files: Seq<(String, UploadedFile)>,
    n: i32,
)
    requires
        spec_int_field(form, "lowest_fieldset"@) == Ok::<i32, ErrorKind>(n),
        n <= 10,
        first_entry(form, "name"@) is Some,
        first_entry(form, "explanation"@) is Some,
        first_entry(form, "question_text"@) is Some,
        first_entry(form, "skill_nugget"@) is Some,
        forall|i: nat| 1 <= i <= n ==> #[trigger] fieldset_readable(form, files, i),
    ensures
        spec_quiz_form(form, files) matches Ok((q, fs)) && {
            &&& fs.len() == if n < 0 { 0 } else { n as int }
            &&& first_entry(form, "name"@) == Some(q.q_name)
            &&& first_entry(form, "explanation"@) == Some(q.q_explanation)
            &&& first_entry(form, "question_text"@) == Some(q.question_text)
            &&& first_entry(form, "skill_nugget"@) == Some(q.skill_nugget)
        },
{
    if n >= 0 {
        lemma_fieldsets_read(form, files, n as int, n);
    }
}

/// Reads fieldset `i` of the new-question form.
fn parse_fieldset(form: &FormData, files: &Vec<(String, UploadedFile)>, i: u32, lowest_fieldset: i32) -> (res:
    Result<Fieldset, ErrorKind>)
    ensures
        match res {
            Ok(f) => spec_fieldset(form.fields@, files@, i as nat, lowest_fieldset) == Ok::<
                (Seq<AudioUpload>, Option<AudioUpload>, String),
                ErrorKind,
            >(fieldset_view(f)),
            Err(e) => spec_fieldset(form.fields@, files@, i as nat, lowest_fieldset) == Err::<
                (Seq<AudioUpload>, Option<AudioUpload>, String),
                ErrorKind,
            >(e),
        },
{
    let q_variations = int_field(form, &make_choice_key(i, "_q_variations"))?;
    if lowest_fieldset > 100 {
        return Err(ErrorKind::FormParseError);
    }
    let q_variants = read_uploads(files, &make_choice_key(i, "_q_variant_"), q_variations)?;
    let answer_audio = match find_entry(files, &make_choice_key(i, "_answer_audio")) {
        None => None,
        Some(f) => {
            if f.size == 0 {
                None
            } else {
                Some(upload_of(f)?)
            }
        },
    };
    let answer_text = field(form, &make_choice_key(i, "_answer_text"))?;
    Ok(Fieldset { q_variants, answer_audio, answer_text })
}

/// The new-question form: at most ten answers (`lowest_fieldset`), the question's texts and
/// skill, and each answer's fieldset.
pub open spec fn spec_quiz_form(form: Seq<(String, String)>, files: Seq<(String, UploadedFile)>) -> Result<
    (NewQuestion, Seq<(Seq<AudioUpload>, Option<AudioUpload>, String)>),
    ErrorKind,
> {
    match spec_int_field(form, "lowest_fieldset"@) {
        Err(e) => Err(e),
        Ok(lowest) => if lowest > 10 {
            Err(ErrorKind::FormParseError)
        } else {
            match spec_field(form, "name"@) {
                Err(e) => Err(e),
                Ok(q_name) => match spec_field(form, "explanation"@) {
                    Err(e) => Err(e),
                    Ok(q_explanation) => match spec_field(form, "question_text"@) {
                        Err(e) => Err(e),
                        Ok(question_text) => match spec_field(form, "skill_nugget"@) {
                            Err(e) => Err(e),
                            Ok(skill_nugget) => match spec_fieldsets(form, files, lowest as int, lowest) {
                                Err(e) => Err(e),
                                Ok(fs) => Ok(
                                    (NewQuestion { q_name, q_explanation, question_text, skill_nugget }, fs),
                                ),
                            },
                        },
                    },
                },
            }
        },
    }
}

/// Reads the new-question form that an editor posts.
#[verifier::loop_isolation(false)]
pub fn parse_quiz_form(form: &FormData, files: &Vec<(String, UploadedFile)>) -> (res: Result<
    (NewQuestion, Vec<Fieldset>),
    ErrorKind,
>)
    ensures
        match res {
            Ok((q, fs)) => spec_quiz_form(form.fields@, files@) == Ok::<
                (NewQuestion, Seq<(Seq<AudioUpload>, Option<AudioUpload>, String)>),
                ErrorKind,
            >((q, fs@.map_values(|f: Fieldset| fieldset_view(f)))),
            Err(e) => spec_quiz_form(form.fields@, files@) == Err::<
                (NewQuestion, Seq<(Seq<AudioUpload>, Option<AudioUpload>, String)>),
                ErrorKind,
            >(e),
        },
{
    let lowest_fieldset = int_field(form, &String::from_str("lowest_fieldset"))?;
    if lowest_fieldset > 10 {
        return Err(ErrorKind::FormParseError);
    }
    let q_name = field(form, &String::from_str("name"))?;
    let q_explanation = field(form, &String::from_str("explanation"))?;
    let question_text = field(form, &String::from_str("question_text"))?;
    let skill_nugget = field(form, &String::from_str("skill_nugget"))?;
    let mut fieldsets: Vec<Fieldset> = Vec::new();
    assert(fieldsets@.map_values(|f: Fieldset| fieldset_view(f)) =~= seq![]);
    let mut i: i32 = 1;
    while i <= lowest_fieldset
        invariant
            1 <= i <= 11,
            lowest_fieldset <= 10,
            i <= lowest_fieldset + 1 || i == 1,
            spec_fieldsets(form.fields@, files@, i - 1, lowest_fieldset) == Ok::<
                Seq<(Seq<AudioUpload>, Option<AudioUpload>, String)>,
                ErrorKind,
            >(fieldsets@.map_values(|f: Fieldset| fieldset_view(f))),
        decreases lowest_fieldset + 1 - i,
    {
        match parse_fieldset(form, files, i as u32, lowest_fieldset) {
            Ok(f) => {
                let ghost before = fieldsets@;
                fieldsets.push(f);
                assert(fieldsets@.map_values(|f: Fieldset| fieldset_view(f)) =~= before.map_values(
                    |f: Fieldset| fieldset_view(f),
                ).push(fieldset_view(f)));
            },
            Err(e) => {
                assert((i as u32) as nat == i as int);
                assert(spec_fieldsets(form.fields@, files@, i as int, lowest_fieldset) == Err::<
                    Seq<(Seq<AudioUpload>, Option<AudioUpload>, String)>,
                    ErrorKind,
                >(e));
                proof {
                    lemma_fieldsets_error_sticks(
                        form.fields@,
                        files@,
                        i as int,
                        lowest_fieldset as int,
                        lowest_fieldset,
                    );
                }
                return Err(e);
            },
        }
        i = i + 1;
    }
    Ok((NewQuestion { q_name, q_explanation, question_text, skill_nugget }, fieldsets))
}

/// The fields of a new word, and its recordings.
#[derive(Debug, Clone)]
pub struct NewWordFromStrings {
    pub word: String,
    pub explanation: String,
    pub nugget: String,
    pub narrator: String,
    pub files: Vec<AudioUpload>,
}

/// The new-word form: at most twenty recordings (`audio_variations`), the word, its
/// explanation and skill, and the recordings `audio_variant_1`, ... that are not empty.
/// The result is `(word, explanation, skill, recordings)`.
pub open spec fn spec_word_form(form: Seq<(String, String)>, files: Seq<(String, UploadedFile)>) -> Result<
    (String, String, String, Seq<AudioUpload>),
    ErrorKind,
> {
    match spec_int_field(form, "audio_variations"@) {
        Err(e) => Err(e),
        Ok(num_variants) => if num_variants > 20 {
            Err(ErrorKind::FormParseError)
        } else {
            match spec_field(form, "word"@) {
                Err(e) => Err(e),
                Ok(word) => match spec_field(form, "explanation"@) {
                    Err(e) => Err(e),
                    Ok(explanation) => match spec_field(form, "skill_nugget"@) {
                        Err(e) => Err(e),
                        Ok(nugget) => match uploads_for(files, "audio_variant_"@, num_variants as int) {
                            Err(e) => Err(e),
                            Ok(ups) => Ok((word, explanation, nugget, ups)),
                        },
                    },
                },
            }
        },
    }
}

/// A new-word form is refused for its number of recordings only when it announces more
/// than twenty; one that announces at most twenty and holds the word, its explanation and
/// skill, with readable recordings, is read into those fields and recordings.
pub proof fn lemma_word_form_reads_its_fields(form: Seq<(String, String)>, files: Seq<(String, UploadedFile)>, n: i32)
    requires
        spec_int_field(form, "audio_variations"@) == Ok::<i32, ErrorKind>(n),
    ensures
        n > 20 ==> spec_word_form(form, files) == Err::<(String, String, String, Seq<AudioUpload>), ErrorKind>(
            ErrorKind::FormParseError,
        ),
        n <= 20 && first_entry(form, "word"@) is Some && first_entry(form, "explanation"@) is Some && first_entry(
            form,
            "skill_nugget"@,
        ) is Some && uploads_for(files, "audio_variant_"@, n as int) is Ok ==> spec_word_form(form, files) is Ok,
        spec_word_form(form, files) matches Ok((w, e, k, ups)) ==> {
            &&& n <= 20
            &&& first_entry(form, "word"@) == Some(w)
            &&& first_entry(form, "explanation"@) == Some(e)
            &&& first_entry(form, "skill_nugget"@) == Some(k)
            &&& uploads_for(files, "audio_variant_"@, n as int) == Ok::<Seq<AudioUpload>, ErrorKind>(ups)
        },
{
}

/// Reads the new-word form that an editor posts; the narrator is left empty.
pub fn parse_word_form(form: &FormData, files: &Vec<(String, UploadedFile)>) -> (res: Result<
    NewWordFromStrings,
    ErrorKind,
>)
    ensures
        match res {
            Ok(w) => w.narrator@ == Seq::<char>::empty() && spec_word_form(form.fields@, files@) == Ok::<
                (String, String, String, Seq<AudioUpload>),
                ErrorKind,
            >((w.word, w.explanation, w.nugget, w.files@)),
            Err(e) => spec_word_form(form.fields@, files@) == Err::<
                (String, String, String, Seq<AudioUpload>),
                ErrorKind,
            >(e),
        },
{
    let num_variants = int_field(form, &String::from_str("audio_variations"))?;
    if num_variants > 20 {
        return Err(ErrorKind::FormParseError);
    }
    let word = field(form, &String::from_str("word"))?;
    let explanation = field(form, &String::from_str("explanation"))?;
    let nugget = field(form, &String::from_str("skill_nugget"))?;
    let files = read_uploads(files, &String::from_str("audio_variant_"), num_variants)?;
    Ok(NewWordFromStrings { word, explanation, nugget, narrator: String::new(), files })
}

/// The answer form that the front end posts when a card is done: of `type` `word` or
/// `question`, with its integer fields read in order. A non-positive `answered_id` means
/// that time ran out.
pub open spec fn spec_answer_form(form: Seq<(String, String)>) -> Result<Answered, ErrorKind> {
    match spec_field(form, "type"@) {
        Err(e) => Err(e),
        Ok(t) => if t@ == "word"@ {
            match spec_int_field(form, "word_id"@) {
                Err(e) => Err(e),
                Ok(word_id) => match spec_int_field(form, "times_audio_played"@) {
                    Err(e) => Err(e),
                    Ok(times_audio_played) => match spec_int_field(form, "time"@) {
                        Err(e) => Err(e),
                        Ok(time) => Ok(Answered::Word(AnsweredWord { word_id, time, times_audio_played })),
                    },
                },
            }
        } else if t@ == "question"@ {
            match spec_int_field(form, "question_id"@) {
                Err(e) => Err(e),
                Ok(question_id) => match spec_int_field(form, "right_a_id"@) {
                    Err(e) => Err(e),
                    Ok(right_answer_id) => match spec_int_field(form, "answered_id"@) {
                        Err(e) => Err(e),
                        Ok(answered) => match spec_int_field(form, "q_audio_id"@) {
                            Err(e) => Err(e),
                            Ok(q_audio_id) => match spec_int_field(form, "active_answer_time"@) {
                                Err(e) => Err(e),
                                Ok(active_answer_time) => match spec_int_field(form, "full_answer_time"@) {
                                    Err(e) => Err(e),
                                    Ok(full_answer_time) => Ok(
                                        Answered::Question(
                                            AnsweredQuestion {
                                                question_id,
                                                right_answer_id,
                                                answered_id: if answered > 0 {
                                                    Some(answered)
                                                } else {
                                                    None
                                                },
                                                q_audio_id,
                                                active_answer_time,
                                                full_answer_time,
                                            },
                                        ),
                                    ),
                                },
                            },
                        },
                    },
                },
            }
        } else {
            Err(ErrorKind::FormParseError)
        },
    }
}

/// Reads the answer form that the front end posts when a card is done.
pub fn parse_answer(form: &FormData) -> (res: Result<Answered, ErrorKind>)
    ensures
        res == spec_answer_form(form.fields@),
{
    let answer_type = field(form, &String::from_str("type"))?;
    if answer_type == String::from_str("word") {
        let word_id = int_field(form, &String::from_str("word_id"))?;
        let times_audio_played = int_field(form, &String::from_str("times_audio_played"))?;
        let time = int_field(form, &String::from_str("time"))?;
        Ok(Answered::Word(AnsweredWord { word_id, time, times_audio_played }))
    } else if answer_type == String::from_str("question") {
        let question_id = int_field(form, &String::from_str("question_id"))?;
        let right_answer_id = int_field(form, &String::from_str("right_a_id"))?;
        let answered = int_field(form, &String::from_str("answered_id"))?;
        let answered_id = if answered > 0 {
            Some(answered)
        } else {
            None
        };
        let q_audio_id = int_field(form, &String::from_str("q_audio_id"))?;
        let active_answer_time = int_field(form, &String::from_str("active_answer_time"))?;
        let full_answer_time = int_field(form, &String::from_str("full_answer_time"))?;
        Ok(
            Answered::Question(
                AnsweredQuestion {
                    question_id,
                    right_answer_id,
                    answered_id,
                    q_audio_id,
                    active_answer_time,
                    full_answer_time,
                },
            ),
        )
    } else {
        Err(ErrorKind::FormParseError)
    }
}

/// The message when the two new passwords differ.
pub open spec fn password_mismatch_message() -> Seq<char> {
    "New passwords don't match!"@
}

/// What the change-password form holds.
pub enum PasswordForm {
    /// The old password and the new one, typed twice alike.
    Valid(String, String),
    /// The new password was typed differently the second time.
    Mismatch,
    /// A field is missing.
    Failed(ErrorKind),
}

/// The change-password form: the old password, and the new one typed twice alike.
pub open spec fn spec_password_form(form: Seq<(String, String)>) -> PasswordForm {
    match spec_field(form, "old_password"@) {
        Err(e) => PasswordForm::Failed(e),
        Ok(old) => match spec_field(form, "new_password"@) {
            Err(e) => PasswordForm::Failed(e),
            Ok(new) => match spec_field(form, "new_password_check"@) {
                Err(e) => PasswordForm::Failed(e),
                Ok(check) => if new@ != check@ {
                    PasswordForm::Mismatch
                } else {
                    PasswordForm::Valid(old, new)
                },
            },
        },
    }
}

/// The change-password form is valid only when the new password was typed twice alike, as
/// whole texts; it is then the old password and the new one as typed. With all three
/// fields present, two typings that differ in any way are a mismatch.
pub proof fn lemma_new_password_typed_twice(form: Seq<(String, String)>)
    ensures
        spec_password_form(form) matches PasswordForm::Valid(old, new) ==> {
            &&& first_entry(form, "old_password"@) == Some(old)
            &&& first_entry(form, "new_password"@) == Some(new)
            &&& first_entry(form, "new_password_check"@) matches Some(c) && c@ == new@
        },
        spec_password_form(form) is Mismatch ==> (first_entry(form, "new_password"@) matches Some(n)
            && first_entry(form, "new_password_check"@) matches Some(c) && n@ != c@),
        first_entry(form, "old_password"@) is Some && first_entry(form, "new_password"@) is Some && first_entry(
            form,
            "new_password_check"@,
        ) is Some ==> (spec_password_form(form) is Valid || spec_password_form(form) is Mismatch),
{
}

/// Reads the change-password form: `(old password, new password)`.
pub fn parse_password_form(form: &FormData) -> (res: Result<(String, String), ErrorKind>)
    ensures
        res matches Ok((old, new)) ==> {
            &&& first_entry(form.fields@, "old_password"@) == Some(old)
            &&& first_entry(form.fields@, "new_password"@) == Some(new)
            &&& first_entry(form.fields@, "new_password_check"@) matches Some(c) && c@ == new@
        },
        match spec_password_form(form.fields@) {
            PasswordForm::Valid(old, new) => res == Ok::<(String, String), ErrorKind>((old, new)),
            PasswordForm::Mismatch => res matches Err(ErrorKind::Msg(m)) && m@ == password_mismatch_message(),
            PasswordForm::Failed(e) => res == Err::<(String, String), ErrorKind>(e),
        },
{
    let old_password = field(form, &String::from_str("old_password"))?;
    let new_password = field(form, &String::from_str("new_password"))?;
    let check = field(form, &String::from_str("new_password_check"))?;
    if new_password != check {
        return Err(ErrorKind::Msg(String::from_str("New passwords don't match!")));
    }
    Ok((old_password, new_password))
}

/// Whether the query arguments say that the password was just changed: the first
/// `password_changed` argument is `true`.
pub fn password_changed_flag(args: &FormData) -> (res: bool)
    ensures
        res == (first_entry(args.fields@, "password_changed"@) matches Some(v) && v@ == "true"@),
{
    match find_entry(&args.fields, &String::from_str("password_changed")) {
        Some(v) => *v == String::from_str("true"),
        None => false,
    }
}

/// The question of a posted question-and-answers document: all of its fields are needed.
pub open spec fn spec_parse_qq(qq: UpdateQuestion) -> Result<NewQuizQuestion, ErrorKind> {
    if qq.skill_id is Some && qq.q_name is Some && qq.q_explanation is Some && qq.question_text is Some
        && qq.skill_level is Some {
        Ok(
            NewQuizQuestion {
                skill_id: qq.skill_id->0,
                q_name: qq.q_name->0,
                q_explanation: qq.q_explanation->0,
                question_text: qq.question_text->0,
                skill_level: qq.skill_level->0,
            },
        )
    } else {
        Err(ErrorKind::FormParseError)
    }
}

/// Reads the question of a posted question-and-answers document.
pub fn parse_qq(qq: &UpdateQuestion) -> (res: Result<NewQuizQuestion, ErrorKind>)
    ensures
        res == spec_parse_qq(*qq),
{
    match (&qq.skill_id, &qq.q_name, &qq.q_explanation, &qq.question_text, &qq.skill_level) {
        (Some(skill_id), Some(q_name), Some(q_explanation), Some(question_text), Some(skill_level)) => Ok(
            NewQuizQuestion {
                skill_id: *skill_id,
                q_name: q_name.clone(),
                q_explanation: q_explanation.clone(),
                question_text: question_text.clone(),
                skill_level: *skill_level,
            },
        ),
        _ => Err(ErrorKind::FormParseError),
    }
}

/// An answer of a posted question-and-answers document: all fields are needed but the
/// answer's own recording, which may be left out.
pub open spec fn spec_parse_aa(aa: UpdateAnswer) -> Result<NewAnswer, ErrorKind> {
    if aa.question_id is Some && aa.q_audio_bundle is Some && aa.answer_text is Some {
        Ok(
            NewAnswer {
                question_id: aa.question_id->0,
                a_audio_bundle: match aa.a_audio_bundle {
                    Some(b) => b,
                    None => None,
                },
                q_audio_bundle: aa.q_audio_bundle->0,
                answer_text: aa.answer_text->0,
            },
        )
    } else {
        Err(ErrorKind::FormParseError)
    }
}

/// Reads an answer of a posted question-and-answers document.
pub fn parse_aa(aa: &UpdateAnswer) -> (res: Result<NewAnswer, ErrorKind>)
    ensures
        res == spec_parse_aa(*aa),
{
    let a_audio_bundle = match aa.a_audio_bundle {
        Some(b) => b,
        None => None,
    };
    match (&aa.question_id, &aa.q_audio_bundle, &aa.answer_text) {
        (Some(question_id), Some(q_audio_bundle), Some(answer_text)) => Ok(
            NewAnswer {
                question_id: *question_id,
                a_audio_bundle,
                q_audio_bundle: *q_audio_bundle,
                answer_text: answer_text.clone(),
            },
        ),
        _ => Err(ErrorKind::FormParseError),
    }
}

} // verus!
