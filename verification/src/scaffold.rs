//! Scaffolding from a set of templates that is shipped with the program: the
//! files of one flavor are rendered into a new project directory.

use vstd::prelude::*;
use vstd::string::*;
use vstd::utf8::{decode_utf8, encode_utf8, valid_utf8};
use crate::collect::{current_year, is_year_text, seed, seeded};
use crate::context::{ContextMap, RenderContext};
use crate::engine::{has_tag_opener, render, render_error, rendered};
use crate::error::Error;
use crate::render::{decode_text, Action, RenderPlan, Step};
use crate::text::starts_with;

verus! {

/// A shipped template file: its path among the shipped files and its bytes.
#[derive(Clone, Debug, PartialEq, Eq)]
pub struct EmbeddedFile {
    pub path: String,
    pub contents: Vec<u8>,
}

/// The directory of the shipped templates for a library or an executable.
pub open spec fn flavor_of(is_lib: bool) -> Seq<char> {
    if is_lib {
        "cpp/single/library"@
    } else {
        "cpp/single/executable"@
    }
}

/// `s` without the slashes at its start.
pub open spec fn skip_slashes(s: Seq<char>) -> Seq<char>
    decreases s.len(),
{
    if s.len() > 0 && s.first() == '/' {
        skip_slashes(s.drop_first())
    } else {
        s
    }
}

/// The path of a shipped file relative to the flavor it belongs to: what
/// follows the flavor, without leading slashes. `None` for a file of another
/// flavor.
pub open spec fn relative_template(flavor: Seq<char>, path: Seq<char>) -> Option<Seq<char>> {
    if flavor.is_prefix_of(path) {
        Some(skip_slashes(path.skip(flavor.len() as int)))
    } else {
        None
    }
}

/// What has to be done for a shipped file, wherever the engine renders its
/// path and its text; `None` where the engine never renders one of them. A
/// file of another flavor is skipped. The
/// path of any other is rendered; its bytes are rendered where they are
/// text, and written as they are where they are not.
pub open spec fn embedded_step(
    flavor: Seq<char>,
    path: Seq<char>,
    contents: Seq<u8>,
    values: ContextMap,
) -> Option<Step> {
    match relative_template(flavor, path) {
        None => Some(Step::Skip),
        Some(relative) => match rendered(relative, values) {
            None => None,
            Some(dest) => if valid_utf8(contents) {
                match rendered(decode_utf8(contents), values) {
                    None => None,
                    Some(text) => Some(Step::WriteFile { path: dest, contents: encode_utf8(text) }),
                }
            } else {
                Some(Step::WriteFile { path: dest, contents })
            },
        },
    }
}

/// A shipped file that is always planned: one of another flavor, and one
/// without placeholders in its relative path and in its text. Of any other
/// file the engine is asked to render a text with tags, which it may refuse.
pub open spec fn is_always_planned_file(
    flavor: Seq<char>,
    path: Seq<char>,
    contents: Seq<u8>,
) -> bool {
    match relative_template(flavor, path) {
        None => true,
        Some(relative) => {
            &&& !has_tag_opener(relative)
            &&& valid_utf8(contents) ==> !has_tag_opener(decode_utf8(contents))
        },
    }
}

/// The plan for the shipped files holds one action for each file before the
/// first that the engine refuses, and names that file where there is one.
/// The engine may refuse only a file that is not always planned.
pub open spec fn is_embedded_plan_of(
    actions: Seq<Step>,
    failed: Option<Seq<char>>,
    flavor: Seq<char>,
    files: Seq<EmbeddedFile>,
    values: ContextMap,
) -> bool {
    &&& actions.len() <= files.len()
    &&& forall|i: int|
        0 <= i < actions.len() ==> embedded_step(
            flavor,
            (#[trigger] files[i]).path@,
            files[i].contents@,
            values,
        ) == Some(actions[i])
    &&& match failed {
        None => actions.len() == files.len(),
        Some(path) => {
            &&& actions.len() < files.len()
            &&& !is_always_planned_file(
                flavor,
                files[actions.len() as int].path@,
                files[actions.len() as int].contents@,
            )
            &&& path == files[actions.len() as int].path@
        },
    }
}

/// Skipping slashes from a position inside a run of slashes gives what
/// skipping from the start gives.
proof fn lemma_skip_slashes_from(s: Seq<char>, i: int)
    requires
        0 <= i <= s.len(),
        forall|k: int| 0 <= k < i ==> #[trigger] s[k] == '/',
    ensures
        skip_slashes(s) == skip_slashes(s.skip(i)),
    decreases i,
{
    if i > 0 {
        lemma_skip_slashes_from(s.drop_first(), i - 1);
        assert(s.drop_first().skip(i - 1) =~= s.skip(i));
    } else {
        assert(s.skip(0) =~= s);
    }
}

/// The directory of the shipped templates for a library or an executable.
pub fn flavor(is_lib: bool) -> (r: &'static str)
    ensures
        r@ == flavor_of(is_lib),
{
    if is_lib {
        "cpp/single/library"
    } else {
        "cpp/single/executable"
    }
}

/// The path of a shipped file relative to the flavor it belongs to.
pub fn relative_path(flavor: &str, path: &str) -> (r: Option<String>)
    ensures
        match relative_template(flavor@, path@) {
            Some(relative) => r matches Some(x) && x@ == relative,
            None => r is None,
        },
{
    if !starts_with(path, flavor) {
        return None;
    }
    let n: usize = path.unicode_len();
    let start: usize = flavor.unicode_len();
    let mut i: usize = start;
    while i < n && path.get_char(i) == '/'
        invariant
            start <= i <= n,
            n == path@.len(),
            forall|k: int| start <= k < i ==> #[trigger] path@[k] == '/',
        decreases n - i,
    {
        i = i + 1;
    }
    proof {
        let rest = path@.skip(start as int);
        assert forall|k: int| 0 <= k < i - start implies #[trigger] rest[k] == '/' by {
            assert(rest[k] == path@[k + start]);
        }
        lemma_skip_slashes_from(rest, i - start);
        assert(rest.skip(i - start) =~= path@.subrange(i as int, n as int));
    }
    Some(String::from_str(path.substring_char(i, n)))
}

/// Plans one shipped file.
///
/// A file of another flavor and a file without placeholders are always
/// planned. Where the engine refuses the path or the text of any other, the
/// error is `Render` and names the file.
pub fn render_file(flavor: &str, file: &EmbeddedFile, context: &RenderContext) -> (r: Result<
    Action,
    Error,
>)
    ensures
        r matches Ok(a) ==> embedded_step(flavor@, file.path@, file.contents@, context@) == Some(
            a@,
        ),
        r matches Err(e) ==> (e matches Error::Render { template, .. } && template@ == file.path@
            && !is_always_planned_file(flavor@, file.path@, file.contents@)),
        is_always_planned_file(flavor@, file.path@, file.contents@) ==> r is Ok,
{
    let relative = match relative_path(flavor, file.path.as_str()) {
        Some(relative) => relative,
        None => {
            return Ok(Action::Skip);
        },
    };
    let dest = match render(relative.as_str(), context) {
        Ok(dest) => dest,
        Err(e) => {
            return Err(render_error(file.path.as_str(), e.message()));
        },
    };
    match decode_text(&file.contents) {
        Some(template) => match render(template.as_str(), context) {
            Ok(text) => Ok(Action::WriteFile { path: dest, contents: text.as_str().as_bytes_vec() }),
            Err(e) => Err(render_error(file.path.as_str(), e.message())),
        },
        None => Ok(Action::WriteFile { path: dest, contents: file.contents.clone() }),
    }
}

/// Plans the files of one flavor, file by file, and stops at the first file
/// that the engine refuses.
pub fn render_dir(flavor: &str, files: &Vec<EmbeddedFile>, context: &RenderContext) -> (plan:
    RenderPlan)
    ensures
        is_embedded_plan_of(plan.steps(), plan.failed_path(), flavor@, files@, context@),
        plan.failure matches Some(e) ==> e is Render,
{
    let mut actions: Vec<Action> = Vec::new();
    let mut i: usize = 0;
    while i < files.len()
        invariant
            i <= files.len(),
            actions.len() == i,
            forall|k: int|
                0 <= k < i ==> embedded_step(
                    flavor@,
                    (#[trigger] files[k]).path@,
                    files[k].contents@,
                    context@,
                ) == Some(actions[k]@),
        decreases files.len() - i,
    {
        match render_file(flavor, &files[i], context) {
            Ok(action) => {
                actions.push(action);
            },
            Err(e) => {
                return RenderPlan { actions, failure: Some(e) };
            },
        }
        i = i + 1;
    }
    RenderPlan { actions, failure: None }
}

/// Plans a new project named `name`, which is also its directory, from the
/// shipped templates for a library or an executable.
///
/// Fails with `DestinationExists` where the directory exists. The context
/// holds the name and the year of the clock at the time of the call.
pub fn create_project(
    name: &str,
    is_lib: bool,
    destination_exists: bool,
    files: &Vec<EmbeddedFile>,
) -> (r: Result<RenderPlan, Error>)
    ensures
        destination_exists ==> (r matches Err(Error::DestinationExists { path }) && path@ == name@),
        !destination_exists ==> (r matches Ok(plan) && (plan.failure matches Some(e) ==> e is Render)
            && exists|year: Seq<char>|
            is_year_text(year) && is_embedded_plan_of(
                plan.steps(),
                plan.failed_path(),
                flavor_of(is_lib),
                files@,
                #[trigger] seeded(name@, year),
            )),
{
    if destination_exists {
        return Err(Error::DestinationExists { path: String::from_str(name) });
    }
    let year = current_year();
    let context = seed(name, year.as_str());
    let plan = render_dir(flavor(is_lib), files, &context);
    assert(is_embedded_plan_of(
        plan.steps(),
        plan.failed_path(),
        flavor_of(is_lib),
        files@,
        seeded(name@, year@),
    ));
    Ok(plan)
}

} // verus!
