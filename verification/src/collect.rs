//! The variable collector: from the declared variables, the project's name,
//! the year and the user's answers to the rendering context.

use vstd::prelude::*;
use vstd::string::*;
use crate::context::{ContextMap, ContextValue, RenderContext};
use crate::manifest::{VariableModel, VariableSpec};
use crate::text::{append, same_text, trim, trimmed};

verus! {

/// The key of the project's name.
pub open spec fn name_key() -> Seq<char> {
    "name"@
}

/// The key of the current year.
pub open spec fn year_key() -> Seq<char> {
    "year"@
}

/// The keys that the collector supplies itself. A manifest that declares one
/// of them is not heard on it.
pub open spec fn is_reserved(key: Seq<char>) -> bool {
    key == name_key() || key == year_key()
}

/// The context that every collection starts from.
pub open spec fn seeded(name: Seq<char>, year: Seq<char>) -> ContextMap {
    Map::<Seq<char>, Option<Seq<char>>>::empty().insert(name_key(), Some(name)).insert(
        year_key(),
        Some(year),
    )
}

/// What a variable holds where the user is not asked: its default, or the
/// empty text where it has none.
pub open spec fn default_value(v: VariableModel) -> Option<Seq<char>> {
    match v.default {
        Some(d) => Some(d),
        None => Some(Seq::empty()),
    }
}

/// What a variable holds after the user answered with `line`: the trimmed
/// answer; where that is empty the default; and where there is none either,
/// the marker for "no value".
pub open spec fn answered_value(v: VariableModel, line: Seq<char>) -> Option<Seq<char>> {
    if trimmed(line).len() == 0 {
        v.default
    } else {
        Some(trimmed(line))
    }
}

/// The variables that the user is asked for: the declared ones without the
/// reserved keys, in their order.
pub open spec fn prompted(variables: Seq<VariableModel>) -> Seq<VariableModel>
    decreases variables.len(),
{
    if variables.len() == 0 {
        Seq::empty()
    } else if is_reserved(variables.last().key) {
        prompted(variables.drop_last())
    } else {
        prompted(variables.drop_last()).push(variables.last())
    }
}

/// The answer to the question `i`; the empty line where the answers ran out.
pub open spec fn answer_at(answers: Seq<Seq<char>>, i: int) -> Seq<char> {
    if 0 <= i < answers.len() {
        answers[i]
    } else {
        Seq::empty()
    }
}

/// `context` with each of `asked` set to its default, in their order.
pub open spec fn with_defaults(context: ContextMap, asked: Seq<VariableModel>) -> ContextMap
    decreases asked.len(),
{
    if asked.len() == 0 {
        context
    } else {
        with_defaults(context, asked.drop_last()).insert(
            asked.last().key,
            default_value(asked.last()),
        )
    }
}

/// `context` with each of `asked` set from the answer at its position.
pub open spec fn with_answers(
    context: ContextMap,
    asked: Seq<VariableModel>,
    answers: Seq<Seq<char>>,
) -> ContextMap
    decreases asked.len(),
{
    if asked.len() == 0 {
        context
    } else {
        with_answers(context, asked.drop_last(), answers).insert(
            asked.last().key,
            answered_value(asked.last(), answer_at(answers, asked.len() - 1)),
        )
    }
}

/// The context of a collection without questions.
pub open spec fn defaults_context(
    variables: Seq<VariableModel>,
    name: Seq<char>,
    year: Seq<char>,
) -> ContextMap {
    with_defaults(seeded(name, year), prompted(variables))
}

/// The context of a collection in which the user gave `answers`, one line
/// for each variable asked for.
pub open spec fn answers_context(
    variables: Seq<VariableModel>,
    name: Seq<char>,
    year: Seq<char>,
    answers: Seq<Seq<char>>,
) -> ContextMap {
    with_answers(seeded(name, year), prompted(variables), answers)
}

/// Where the values of the declared variables come from.
#[derive(Clone, Debug, PartialEq, Eq)]
pub enum VariableSource {
    /// From the defaults that the manifest declares; the user is not asked.
    Defaults,
    /// From the lines that the user answered with, one for each variable
    /// asked for, in that order.
    Answers(Vec<String>),
}

/// The mathematical content of a `VariableSource`.
pub enum SourceModel {
    Defaults,
    Answers(Seq<Seq<char>>),
}

impl VariableSource {
    pub open spec fn view(&self) -> SourceModel {
        match self {
            VariableSource::Defaults => SourceModel::Defaults,
            VariableSource::Answers(lines) => SourceModel::Answers(
                lines@.map_values(|s: String| s@),
            ),
        }
    }
}

/// The context of a collection from `source`.
pub open spec fn collected(
    variables: Seq<VariableModel>,
    name: Seq<char>,
    year: Seq<char>,
    source: SourceModel,
) -> ContextMap {
    match source {
        SourceModel::Defaults => defaults_context(variables, name, year),
        SourceModel::Answers(answers) => answers_context(variables, name, year, answers),
    }
}

/// The questions to put to the user before a collection: none where the
/// defaults are wanted, else one for each variable asked for.
pub open spec fn questions(variables: Seq<VariableModel>, use_defaults: bool) -> Seq<Seq<char>> {
    if use_defaults {
        Seq::empty()
    } else {
        prompted(variables).map_values(|v: VariableModel| question(v))
    }
}

/// The line that asks for a variable: its prompt, then its default.
pub open spec fn question(v: VariableModel) -> Seq<char> {
    v.prompt + " (default: "@ + match v.default {
        Some(d) => d,
        None => Seq::empty(),
    } + "):"@
}

/// No variable that is asked for has a reserved key.
pub proof fn lemma_prompted_not_reserved(variables: Seq<VariableModel>)
    ensures
        forall|i: int|
            0 <= i < prompted(variables).len() ==> !is_reserved(
                (#[trigger] prompted(variables)[i]).key,
            ),
    decreases variables.len(),
{
    if variables.len() > 0 {
        lemma_prompted_not_reserved(variables.drop_last());
    }
}

/// Setting variables to their defaults leaves every other key as it was.
pub proof fn lemma_with_defaults_keeps(context: ContextMap, asked: Seq<VariableModel>, key: Seq<char>)
    requires
        forall|i: int| 0 <= i < asked.len() ==> (#[trigger] asked[i]).key != key,
    ensures
        with_defaults(context, asked).dom().contains(key) == context.dom().contains(key),
        with_defaults(context, asked)[key] == context[key],
    decreases asked.len(),
{
    if asked.len() > 0 {
        let front = asked.drop_last();
        assert forall|i: int| 0 <= i < front.len() implies (#[trigger] front[i]).key != key by {
            assert(asked[i].key != key);
        }
        lemma_with_defaults_keeps(context, front, key);
        assert(asked[asked.len() - 1].key != key);
    }
}

/// Setting variables from answers leaves every other key as it was.
pub proof fn lemma_with_answers_keeps(
    context: ContextMap,
    asked: Seq<VariableModel>,
    answers: Seq<Seq<char>>,
    key: Seq<char>,
)
    requires
        forall|i: int| 0 <= i < asked.len() ==> (#[trigger] asked[i]).key != key,
    ensures
        with_answers(context, asked, answers).dom().contains(key) == context.dom().contains(key),
        with_answers(context, asked, answers)[key] == context[key],
    decreases asked.len(),
{
    if asked.len() > 0 {
        let front = asked.drop_last();
        assert forall|i: int| 0 <= i < front.len() implies (#[trigger] front[i]).key != key by {
            assert(asked[i].key != key);
        }
        lemma_with_answers_keeps(context, front, answers, key);
        assert(asked[asked.len() - 1].key != key);
    }
}

/// The reserved keys are always present and hold the project's name and the
/// year that the collection was given, whatever the manifest declares and
/// whatever the user answers.
pub proof fn law_reserved_keys(
    variables: Seq<VariableModel>,
    name: Seq<char>,
    year: Seq<char>,
    answers: Seq<Seq<char>>,
)
    ensures
        defaults_context(variables, name, year).dom().contains(name_key()),
        defaults_context(variables, name, year).dom().contains(year_key()),
        defaults_context(variables, name, year)[name_key()] == Some(name),
        defaults_context(variables, name, year)[year_key()] == Some(year),
        answers_context(variables, name, year, answers).dom().contains(name_key()),
        answers_context(variables, name, year, answers).dom().contains(year_key()),
        answers_context(variables, name, year, answers)[name_key()] == Some(name),
        answers_context(variables, name, year, answers)[year_key()] == Some(year),
{
    reveal_strlit("name");
    reveal_strlit("year");
    assert(name_key() != year_key()) by {
        assert(name_key()[0] == 'n');
        assert(year_key()[0] == 'y');
    }
    lemma_prompted_not_reserved(variables);
    lemma_with_defaults_keeps(seeded(name, year), prompted(variables), name_key());
    lemma_with_defaults_keeps(seeded(name, year), prompted(variables), year_key());
    lemma_with_answers_keeps(seeded(name, year), prompted(variables), answers, name_key());
    lemma_with_answers_keeps(seeded(name, year), prompted(variables), answers, year_key());
}

/// Setting variables to their defaults commutes with dropping a key that is
/// none of theirs.
proof fn lemma_with_defaults_remove(context: ContextMap, asked: Seq<VariableModel>, key: Seq<char>)
    requires
        forall|i: int| 0 <= i < asked.len() ==> (#[trigger] asked[i]).key != key,
    ensures
        with_defaults(context, asked).remove(key) == with_defaults(context.remove(key), asked),
    decreases asked.len(),
{
    if asked.len() > 0 {
        let front = asked.drop_last();
        assert forall|i: int| 0 <= i < front.len() implies (#[trigger] front[i]).key != key by {
            assert(asked[i].key != key);
        }
        lemma_with_defaults_remove(context, front, key);
        assert(asked[asked.len() - 1].key != key);
        let v = asked.last();
        assert(with_defaults(context, front).insert(v.key, default_value(v)).remove(key)
            =~= with_defaults(context, front).remove(key).insert(v.key, default_value(v)));
    }
}

/// A collection without questions depends on the manifest, the project's name
/// and the year alone, and on the year only under the key of the year: two
/// collections for the same manifest and name agree on every other key, and
/// on all keys where the year is the same.
pub proof fn law_defaults_repeatable(
    variables: Seq<VariableModel>,
    name: Seq<char>,
    year1: Seq<char>,
    year2: Seq<char>,
)
    ensures
        defaults_context(variables, name, year1).remove(year_key()) == defaults_context(
            variables,
            name,
            year2,
        ).remove(year_key()),
        year1 == year2 ==> defaults_context(variables, name, year1) == defaults_context(
            variables,
            name,
            year2,
        ),
{
    lemma_prompted_not_reserved(variables);
    lemma_with_defaults_remove(seeded(name, year1), prompted(variables), year_key());
    lemma_with_defaults_remove(seeded(name, year2), prompted(variables), year_key());
    assert(seeded(name, year1).remove(year_key()) =~= seeded(name, year2).remove(year_key()));
}

/// Whether `c` is one of the ten decimal digits.
pub open spec fn is_decimal_digit(c: char) -> bool {
    0x30 <= c as u32 <= 0x39
}

/// Whether `s` is the text of a year: four digits for the years 0 to 9999;
/// for any other year a sign and then four digits or more.
pub open spec fn is_year_text(s: Seq<char>) -> bool {
    ||| s.len() == 4 && forall|i: int| 0 <= i < s.len() ==> is_decimal_digit(#[trigger] s[i])
    ||| s.len() >= 5 && (s[0] == '+' || s[0] == '-') && forall|i: int|
        1 <= i < s.len() ==> is_decimal_digit(#[trigger] s[i])
}

/// Takes the moment from `std::time::SystemTime::now`, turns it into a
/// `chrono::DateTime<Utc>` with chrono's `From` and formats its year with
/// `%Y`.
///
/// Trusted: the text is the text of a year, as `%Y` writes one. Which year
/// depends on the clock. The conversion takes moments before 1970 as well
/// as after.
#[verifier::external_body]
pub(crate) fn current_year() -> (r: String)
    ensures
        is_year_text(r@),
{
    chrono::DateTime::<chrono::Utc>::from(std::time::SystemTime::now()).format("%Y").to_string()
}

/// Whether the collector supplies `key` itself.
pub fn reserved(key: &str) -> (r: bool)
    ensures
        r == is_reserved(key@),
{
    same_text(key, "name") || same_text(key, "year")
}

/// The context that every collection starts from: the project's name and the
/// year.
pub fn seed(name: &str, year: &str) -> (r: RenderContext)
    ensures
        r@ == seeded(name@, year@),
{
    let mut context = RenderContext::new();
    context.insert(String::from_str("name"), ContextValue::Text(String::from_str(name)));
    context.insert(String::from_str("year"), ContextValue::Text(String::from_str(year)));
    context
}

/// The variables that the user is asked for, in the order of the manifest.
pub fn prompts(variables: &Vec<VariableSpec>) -> (r: Vec<VariableSpec>)
    ensures
        r@.map_values(|v: VariableSpec| v@) == prompted(variables@.map_values(|v: VariableSpec| v@)),
{
    let ghost all = variables@.map_values(|v: VariableSpec| v@);
    let mut out: Vec<VariableSpec> = Vec::new();
    let mut i: usize = 0;
    assert(all.take(0) =~= Seq::empty());
    while i < variables.len()
        invariant
            i <= variables.len(),
            all == variables@.map_values(|v: VariableSpec| v@),
            out@.map_values(|v: VariableSpec| v@) =~= prompted(all.take(i as int)),
        decreases variables.len() - i,
    {
        assert(all.take(i + 1).drop_last() =~= all.take(i as int));
        assert(all.take(i + 1).last() == variables[i as int]@);
        if !reserved(variables[i].key.as_str()) {
            let v = &variables[i];
            let copy = VariableSpec {
                key: v.key.clone(),
                prompt: v.prompt.clone(),
                default: match &v.default {
                    Some(d) => Some(d.clone()),
                    None => None,
                },
            };
            assert(copy@ == v@);
            let ghost before = out@.map_values(|v: VariableSpec| v@);
            out.push(copy);
            assert(out@.map_values(|v: VariableSpec| v@) =~= before.push(copy@));
        }
        i = i + 1;
    }
    assert(all.take(i as int) =~= all);
    out
}

/// The line that asks for a variable.
pub fn question_line(v: &VariableSpec) -> (r: String)
    ensures
        r@ == question(v@),
{
    let default: &str = match &v.default {
        Some(d) => d.as_str(),
        None => "",
    };
    proof {
        reveal_strlit("");
        assert(""@ =~= Seq::<char>::empty());
    }
    append(v.prompt.as_str(), " (default: ").concat(default).concat("):")
}

/// What a variable holds where the user is not asked.
pub fn value_by_default(v: &VariableSpec) -> (r: ContextValue)
    ensures
        r@ == default_value(v@),
{
    match &v.default {
        Some(d) => ContextValue::Text(d.clone()),
        None => {
            let empty = String::new();
            ContextValue::Text(empty)
        },
    }
}

/// What a variable holds after the user answered with `line`.
pub fn value_from_answer(v: &VariableSpec, line: &str) -> (r: ContextValue)
    ensures
        r@ == answered_value(v@, line@),
{
    let answer = trim(line);
    if answer.as_str().unicode_len() == 0 {
        match &v.default {
            Some(d) => ContextValue::Text(d.clone()),
            None => ContextValue::Missing,
        }
    } else {
        ContextValue::Text(answer)
    }
}

/// Collects the context without asking: every declared variable but the
/// reserved ones holds its default.
pub fn collect_defaults(variables: &Vec<VariableSpec>, name: &str, year: &str) -> (r: RenderContext)
    ensures
        r@ == defaults_context(variables@.map_values(|v: VariableSpec| v@), name@, year@),
        r@.dom().contains(name_key()) && r@[name_key()] == Some(name@),
        r@.dom().contains(year_key()) && r@[year_key()] == Some(year@),
{
    let asked = prompts(variables);
    let ghost models = asked@.map_values(|v: VariableSpec| v@);
    let mut context = seed(name, year);
    let mut i: usize = 0;
    assert(models.take(0) =~= Seq::empty());
    while i < asked.len()
        invariant
            i <= asked.len(),
            models == asked@.map_values(|v: VariableSpec| v@),
            context@ == with_defaults(seeded(name@, year@), models.take(i as int)),
        decreases asked.len() - i,
    {
        assert(models.take(i + 1).drop_last() =~= models.take(i as int));
        assert(models.take(i + 1).last() == asked[i as int]@);
        context.insert(asked[i].key.clone(), value_by_default(&asked[i]));
        i = i + 1;
    }
    proof {
        assert(models.take(i as int) =~= models);
        law_reserved_keys(variables@.map_values(|v: VariableSpec| v@), name@, year@, Seq::empty());
    }
    context
}

/// Collects the context from the user's answers: `answers` holds the line
/// read for each variable asked for, in the order of `prompts`. Where the
/// answers run out the empty line stands for the rest.
pub fn collect_answers(
    variables: &Vec<VariableSpec>,
    name: &str,
    year: &str,
    answers: &Vec<String>,
) -> (r: RenderContext)
    ensures
        r@ == answers_context(
            variables@.map_values(|v: VariableSpec| v@),
            name@,
            year@,
            answers@.map_values(|s: String| s@),
        ),
        r@.dom().contains(name_key()) && r@[name_key()] == Some(name@),
        r@.dom().contains(year_key()) && r@[year_key()] == Some(year@),
{
    let asked = prompts(variables);
    let ghost models = asked@.map_values(|v: VariableSpec| v@);
    let ghost lines = answers@.map_values(|s: String| s@);
    let mut context = seed(name, year);
    let mut i: usize = 0;
    assert(models.take(0) =~= Seq::empty());
    while i < asked.len()
        invariant
            i <= asked.len(),
            models == asked@.map_values(|v: VariableSpec| v@),
            lines == answers@.map_values(|s: String| s@),
            context@ == with_answers(seeded(name@, year@), models.take(i as int), lines),
        decreases asked.len() - i,
    {
        assert(models.take(i + 1).drop_last() =~= models.take(i as int));
        assert(models.take(i + 1).last() == asked[i as int]@);
        let value = if i < answers.len() {
            value_from_answer(&asked[i], answers[i].as_str())
        } else {
            proof {
                reveal_strlit("");
                assert(""@ =~= Seq::<char>::empty());
            }
            value_from_answer(&asked[i], "")
        };
        context.insert(asked[i].key.clone(), value);
        i = i + 1;
    }
    proof {
        assert(models.take(i as int) =~= models);
        law_reserved_keys(variables@.map_values(|v: VariableSpec| v@), name@, year@, lines);
    }
    context
}

/// Collects the context from `source`.
///
/// The reserved keys hold the project's name and the year, whatever the
/// manifest declares and whatever the user answers.
pub fn collect(
    variables: &Vec<VariableSpec>,
    name: &str,
    year: &str,
    source: &VariableSource,
) -> (r: RenderContext)
    ensures
        r@ == collected(variables@.map_values(|v: VariableSpec| v@), name@, year@, source@),
        r@.dom().contains(name_key()) && r@[name_key()] == Some(name@),
        r@.dom().contains(year_key()) && r@[year_key()] == Some(year@),
{
    match source {
        VariableSource::Defaults => collect_defaults(variables, name, year),
        VariableSource::Answers(answers) => collect_answers(variables, name, year, answers),
    }
}

/// The questions to put to the user before a collection, in the order in
/// which the answers are expected.
pub fn question_lines(variables: &Vec<VariableSpec>, use_defaults: bool) -> (r: Vec<String>)
    ensures
        r@.map_values(|s: String| s@) == questions(
            variables@.map_values(|v: VariableSpec| v@),
            use_defaults,
        ),
{
    let mut out: Vec<String> = Vec::new();
    if use_defaults {
        assert(out@.map_values(|s: String| s@) =~= Seq::<Seq<char>>::empty());
        return out;
    }
    let asked = prompts(variables);
    let mut i: usize = 0;
    while i < asked.len()
        invariant
            i <= asked.len(),
            out.len() == i,
            forall|k: int| 0 <= k < i ==> (#[trigger] out[k])@ == question(asked[k]@),
        decreases asked.len() - i,
    {
        out.push(question_line(&asked[i]));
        i = i + 1;
    }
    assert(out@.map_values(|s: String| s@) =~= asked@.map_values(|v: VariableSpec| v@).map_values(
        |v: VariableModel| question(v),
    ));
    out
}

} // verus!
