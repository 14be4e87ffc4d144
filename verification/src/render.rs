//! The template renderer: from the entries of a template tree to what has to
//! be created under the destination.

use vstd::prelude::*;
use vstd::string::*;
use vstd::utf8::{decode_utf8, encode_utf8, valid_utf8, decode_utf8_encode_utf8};
use crate::context::{ContextMap, RenderContext};
use crate::engine::{has_tag_opener, render, render_error, rendered};
use crate::error::Error;
use crate::path::{
    file_name, final_segment, has_template_suffix, is_template_name, leading_directories,
    lemma_last_slash, manifest_name, parent, strip_template_suffix, without_template_suffix,
};
use crate::text::{append, same_text};

verus! {

/// One entry of a template tree, as the walk over the tree found it.
#[derive(Clone, Debug, PartialEq, Eq)]
pub enum TemplateEntry {
    /// A directory; `path` is relative to the template root.
    Directory { path: String },
    /// A file with its raw bytes; `path` is relative to the template root.
    File { path: String, contents: Vec<u8> },
}

/// What has to be done under the destination for one entry.
#[derive(Clone, Debug, PartialEq, Eq)]
pub enum Action {
    /// Nothing: the entry is the template root itself or its manifest file.
    Skip,
    /// Create the directory `path`, relative to the destination, with its
    /// parents.
    CreateDirectory { path: String },
    /// Write `contents` to the file `path`, relative to the destination,
    /// creating its parent directories first.
    WriteFile { path: String, contents: Vec<u8> },
    /// Copy the entry's file to the file `path`, relative to the destination,
    /// creating its parent directories first. The bytes of the file, which
    /// are `contents`, are no text: they go out as they came in, and the copy
    /// may keep what else the file system knows of the file.
    CopyFile { path: String, contents: Vec<u8> },
}

/// The mathematical content of an `Action`.
pub enum Step {
    Skip,
    CreateDirectory { path: Seq<char> },
    WriteFile { path: Seq<char>, contents: Seq<u8> },
    CopyFile { path: Seq<char>, contents: Seq<u8> },
}

impl TemplateEntry {
    /// The path of the entry, relative to the template root.
    pub open spec fn path_spec(&self) -> Seq<char> {
        match self {
            TemplateEntry::Directory { path } => path@,
            TemplateEntry::File { path, .. } => path@,
        }
    }

    /// The bytes of a file; `None` for a directory.
    pub open spec fn contents_spec(&self) -> Option<Seq<u8>> {
        match self {
            TemplateEntry::Directory { .. } => None,
            TemplateEntry::File { contents, .. } => Some(contents@),
        }
    }

    /// The path of the entry, relative to the template root.
    pub fn path(&self) -> (r: &String)
        ensures
            r@ == self.path_spec(),
    {
        match self {
            TemplateEntry::Directory { path } => path,
            TemplateEntry::File { path, .. } => path,
        }
    }
}

impl Action {
    pub open spec fn view(&self) -> Step {
        match self {
            Action::Skip => Step::Skip,
            Action::CreateDirectory { path } => Step::CreateDirectory { path: path@ },
            Action::WriteFile { path, contents } => Step::WriteFile {
                path: path@,
                contents: contents@,
            },
            Action::CopyFile { path, contents } => Step::CopyFile {
                path: path@,
                contents: contents@,
            },
        }
    }
}

/// Whether the entry at `path` leaves no trace in the output: the template
/// root itself, and the manifest file, which lies directly in the root. An
/// entry of the manifest's name further down is an entry like any other.
pub open spec fn is_left_out(path: Seq<char>) -> bool {
    path.len() == 0 || path == manifest_name()
}

/// Where the rendered text of the file at `path` goes, given its rendered
/// path `dest`: a file marked as a template loses the marker.
pub open spec fn text_destination(path: Seq<char>, dest: Seq<char>) -> Seq<char> {
    if is_template_name(final_segment(path)) {
        without_template_suffix(dest)
    } else {
        dest
    }
}

/// Where the bytes of the binary file at `path` go, given its rendered path
/// `dest`: into the rendered directory, under the file's own name, which is
/// not rendered.
pub open spec fn binary_destination(path: Seq<char>, dest: Seq<char>) -> Seq<char> {
    leading_directories(dest) + final_segment(path)
}

/// What has to be done for the entry at `path` with `contents` (`None` for a
/// directory), wherever the engine renders its path and its text; `None`
/// where the engine never renders one of them.
pub open spec fn entry_step(path: Seq<char>, contents: Option<Seq<u8>>, values: ContextMap) -> Option<
    Step,
> {
    if is_left_out(path) {
        Some(Step::Skip)
    } else {
        match (rendered(path, values), contents) {
            (None, _) => None,
            (Some(dest), None) => Some(Step::CreateDirectory { path: dest }),
            (Some(dest), Some(bytes)) => if valid_utf8(bytes) {
                match rendered(decode_utf8(bytes), values) {
                    None => None,
                    Some(text) => Some(
                        Step::WriteFile {
                            path: text_destination(path, dest),
                            contents: encode_utf8(text),
                        },
                    ),
                }
            } else {
                Some(Step::CopyFile { path: binary_destination(path, dest), contents: bytes })
            },
        }
    }
}

/// An entry without placeholders: no tag opens in its path, nor in its text
/// where its bytes are text.
pub open spec fn is_literal(path: Seq<char>, contents: Option<Seq<u8>>) -> bool {
    &&& !has_tag_opener(path)
    &&& contents matches Some(bytes) ==> (valid_utf8(bytes) ==> !has_tag_opener(
        decode_utf8(bytes),
    ))
}

/// An entry that is always planned: one that is left out, and one without
/// placeholders. Of any other entry the engine is asked to render a text
/// with tags, which it may refuse.
pub open spec fn is_always_planned(path: Seq<char>, contents: Option<Seq<u8>>) -> bool {
    is_left_out(path) || is_literal(path, contents)
}

/// An entry that comes out as it went in: a literal entry that is not left
/// out and is not a text file marked as a template.
pub open spec fn is_kept_as_is(path: Seq<char>, contents: Option<Seq<u8>>) -> bool {
    &&& is_literal(path, contents)
    &&& !is_left_out(path)
    &&& contents matches Some(bytes) ==> !(valid_utf8(bytes) && is_template_name(
        final_segment(path),
    ))
}

/// The step that reproduces an entry under the same path with the same
/// bytes: a directory is created, a text is written, other bytes are copied.
pub open spec fn reproduction(path: Seq<char>, contents: Option<Seq<u8>>) -> Step {
    match contents {
        None => Step::CreateDirectory { path },
        Some(bytes) => if valid_utf8(bytes) {
            Step::WriteFile { path, contents: bytes }
        } else {
            Step::CopyFile { path, contents: bytes }
        },
    }
}

/// Calls `std::str::from_utf8` and copies the text it accepts.
///
/// Trusted: the bytes are accepted exactly if they are well-formed UTF-8, and
/// the text then holds the characters that they encode.
#[verifier::external_body]
pub(crate) fn decode_text(bytes: &Vec<u8>) -> (r: Option<String>)
    ensures
        r is Some <==> valid_utf8(bytes@),
        r matches Some(s) ==> s@ == decode_utf8(bytes@),
{
    std::str::from_utf8(bytes).ok().map(|s| s.to_owned())
}

/// Plans one entry of the template tree.
///
/// The root and the manifest file directly in it are skipped. The path of
/// any other entry is rendered. A directory is created under its rendered path. A file whose
/// bytes are text is rendered and written under its rendered path, without
/// the template suffix where the file's name carries it. Any other file is
/// copied byte for byte into the rendered directory, under its own name.
///
/// An entry that is left out and an entry without placeholders are always
/// planned. Any other entry is planned wherever the engine renders its path
/// and its text; where the engine refuses one of them, the error is `Render`
/// and names the entry.
///
/// An entry without placeholders comes out as it went in, unless it is left
/// out or is a text file marked as a template.
pub fn render_entry(entry: &TemplateEntry, context: &RenderContext) -> (r: Result<Action, Error>)
    ensures
        r matches Ok(a) ==> entry_step(entry.path_spec(), entry.contents_spec(), context@)
            == Some(a@),
        r matches Err(e) ==> (e matches Error::Render { template, .. } && template@
            == entry.path_spec() && !is_always_planned(
            entry.path_spec(),
            entry.contents_spec(),
        )),
        is_always_planned(entry.path_spec(), entry.contents_spec()) ==> r is Ok,
        is_kept_as_is(entry.path_spec(), entry.contents_spec()) ==> (r matches Ok(a) && a@
            == reproduction(entry.path_spec(), entry.contents_spec())),
{
    let path = entry.path().as_str();
    if path.unicode_len() == 0 {
        return Ok(Action::Skip);
    }
    if same_text(path, "archetype.toml") {
        return Ok(Action::Skip);
    }
    let name = file_name(path);
    let dest = match render(path, context) {
        Ok(d) => d,
        Err(e) => {
            return Err(render_error(path, e.message()));
        },
    };
    match entry {
        TemplateEntry::Directory { .. } => Ok(Action::CreateDirectory { path: dest }),
        TemplateEntry::File { contents, .. } => {
            match decode_text(contents) {
                Some(template) => {
                    let text = match render(template.as_str(), context) {
                        Ok(t) => t,
                        Err(e) => {
                            return Err(render_error(path, e.message()));
                        },
                    };
                    let target = if has_template_suffix(name.as_str()) {
                        strip_template_suffix(dest.as_str())
                    } else {
                        dest
                    };
                    proof {
                        decode_utf8_encode_utf8(contents@);
                    }
                    Ok(Action::WriteFile { path: target, contents: text.as_str().as_bytes_vec() })
                },
                None => {
                    let target = append(parent(dest.as_str()).as_str(), name.as_str());
                    proof {
                        lemma_last_slash(path@);
                        assert(leading_directories(path@) + final_segment(path@) =~= path@);
                    }
                    Ok(Action::CopyFile { path: target, contents: contents.clone() })
                },
            }
        },
    }
}

/// The plan for a template tree: the actions for the entries that could be
/// planned, in the order of the entries, and the error that stopped the
/// planning, if one did.
pub struct RenderPlan {
    pub actions: Vec<Action>,
    pub failure: Option<Error>,
}

/// The plan for `entries` holds one action for each entry before the first
/// that the engine refuses, and names that entry where there is one. The
/// engine may refuse only an entry that is not always planned.
pub open spec fn is_plan_of(
    actions: Seq<Step>,
    failed: Option<Seq<char>>,
    entries: Seq<TemplateEntry>,
    values: ContextMap,
) -> bool {
    &&& actions.len() <= entries.len()
    &&& forall|i: int|
        0 <= i < actions.len() ==> entry_step(
            (#[trigger] entries[i]).path_spec(),
            entries[i].contents_spec(),
            values,
        ) == Some(actions[i])
    &&& match failed {
        None => actions.len() == entries.len(),
        Some(path) => {
            &&& actions.len() < entries.len()
            &&& !is_always_planned(
                entries[actions.len() as int].path_spec(),
                entries[actions.len() as int].contents_spec(),
            )
            &&& path == entries[actions.len() as int].path_spec()
        },
    }
}

impl RenderPlan {
    /// The steps of the plan.
    pub open spec fn steps(&self) -> Seq<Step> {
        self.actions@.map_values(|a: Action| a@)
    }

    /// The path of the entry that stopped the planning, if one did.
    pub open spec fn failed_path(&self) -> Option<Seq<char>> {
        match self.failure {
            Some(e) => Some(e.subject_spec()),
            None => None,
        }
    }
}

/// Plans a template tree, entry by entry in the order of the walk, and stops
/// at the first entry that the engine refuses.
///
/// A tree of literal entries is reproduced: every entry that is neither left
/// out nor a text file marked as a template comes out under the same path
/// with the same bytes.
pub fn render_tree(entries: &Vec<TemplateEntry>, context: &RenderContext) -> (plan: RenderPlan)
    ensures
        is_plan_of(plan.steps(), plan.failed_path(), entries@, context@),
        plan.failure matches Some(e) ==> e is Render,
        (forall|i: int|
            0 <= i < entries.len() ==> is_literal(
                (#[trigger] entries[i]).path_spec(),
                entries[i].contents_spec(),
            )) ==> {
            &&& plan.failure is None
            &&& forall|i: int|
                0 <= i < entries.len() && is_kept_as_is(
                    (#[trigger] entries[i]).path_spec(),
                    entries[i].contents_spec(),
                ) ==> plan.steps()[i] == reproduction(
                    entries[i].path_spec(),
                    entries[i].contents_spec(),
                )
        },
{
    let mut actions: Vec<Action> = Vec::new();
    let mut i: usize = 0;
    let ghost all_literal = forall|i: int|
        0 <= i < entries.len() ==> is_literal(
            (#[trigger] entries[i]).path_spec(),
            entries[i].contents_spec(),
        );
    while i < entries.len()
        invariant
            i <= entries.len(),
            actions.len() == i,
            all_literal == (forall|i: int|
                0 <= i < entries.len() ==> is_literal(
                    (#[trigger] entries[i]).path_spec(),
                    entries[i].contents_spec(),
                )),
            forall|k: int|
                0 <= k < i ==> entry_step(
                    (#[trigger] entries[k]).path_spec(),
                    entries[k].contents_spec(),
                    context@,
                ) == Some(actions[k]@),
            forall|k: int|
                0 <= k < i && is_kept_as_is(
                    (#[trigger] entries[k]).path_spec(),
                    entries[k].contents_spec(),
                ) ==> actions[k]@ == reproduction(entries[k].path_spec(), entries[k].contents_spec()),
        decreases entries.len() - i,
    {
        match render_entry(&entries[i], context) {
            Ok(action) => {
                actions.push(action);
            },
            Err(e) => {
                let plan = RenderPlan { actions, failure: Some(e) };
                assert(all_literal ==> is_literal(
                    entries[i as int].path_spec(),
                    entries[i as int].contents_spec(),
                ));
                return plan;
            },
        }
        i = i + 1;
    }
    RenderPlan { actions, failure: None }
}

} // verus!
