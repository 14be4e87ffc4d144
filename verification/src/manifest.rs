//! The manifest of an archetype: its description, the variables it declares
//! and the hooks to run after the project is created.

use vstd::prelude::*;
use vstd::string::*;
use crate::document::{
    collect_texts, no_texts, field, lookup, lookup_optional_text, lookup_text, optional_text, parse_toml,
    texts_of, toml_document, Node,
};
use crate::error::Error;

verus! {

/// A variable that a manifest declares.
#[derive(Clone, Debug, PartialEq, Eq)]
pub struct VariableSpec {
    /// The key under which templates refer to the variable.
    pub key: String,
    /// The question shown to the user.
    pub prompt: String,
    /// The value used where the user gives none.
    pub default: Option<String>,
}

/// The mathematical content of a `VariableSpec`.
pub struct VariableModel {
    pub key: Seq<char>,
    pub prompt: Seq<char>,
    pub default: Option<Seq<char>>,
}

/// The manifest of an archetype.
#[derive(Clone, Debug, PartialEq, Eq)]
pub struct Manifest {
    pub description: String,
    /// The declared variables, in the order of the manifest file.
    pub variables: Vec<VariableSpec>,
    /// The command templates of the post-creation hooks, in the order in
    /// which they run.
    pub hooks: Vec<String>,
}

/// The mathematical content of a `Manifest`.
pub struct ManifestModel {
    pub description: Seq<char>,
    pub variables: Seq<VariableModel>,
    pub hooks: Seq<Seq<char>>,
}

impl VariableSpec {
    pub open spec fn view(&self) -> VariableModel {
        VariableModel {
            key: self.key@,
            prompt: self.prompt@,
            default: match self.default {
                Some(d) => Some(d@),
                None => None,
            },
        }
    }
}

impl Manifest {
    pub open spec fn view(&self) -> ManifestModel {
        ManifestModel {
            description: self.description@,
            variables: self.variables@.map_values(|v: VariableSpec| v@),
            hooks: self.hooks@.map_values(|h: String| h@),
        }
    }
}

/// The variable that the field `key` of the variables section declares: its
/// value has to be a table with a text `prompt` and, optionally, a text
/// `default`.
pub open spec fn variable_model(key: Seq<char>, node: Node) -> Option<VariableModel> {
    match node {
        Node::Table(fields) => match (
            field(fields@, "prompt"@),
            optional_text(fields@, "default"@),
        ) {
            (Some(Node::Text(prompt)), Some(default)) => Some(
                VariableModel { key, prompt: prompt@, default },
            ),
            _ => None,
        },
        _ => None,
    }
}

/// The variables that a variables section declares, in its order; `None`
/// where one of its fields declares none.
pub open spec fn variables_model(fields: Seq<(String, Node)>) -> Option<Seq<VariableModel>> {
    if forall|i: int|
        0 <= i < fields.len() ==> variable_model(
            (#[trigger] fields[i]).0@,
            fields[i].1,
        ) is Some {
        Some(Seq::new(fields.len(), |i: int| variable_model(fields[i].0@, fields[i].1)->0))
    } else {
        None
    }
}

/// The variables of a document with the root table `root`: those of its
/// optional table `variables`.
pub open spec fn variables_section(root: Seq<(String, Node)>) -> Option<Seq<VariableModel>> {
    match field(root, "variables"@) {
        None => Some(Seq::empty()),
        Some(Node::Table(fields)) => variables_model(fields@),
        Some(_) => None,
    }
}

/// The group of post-creation hooks inside the table `hooks`: its field
/// `post_create` or, where that is absent, `post-create`.
pub open spec fn hooks_group(hooks: Seq<(String, Node)>) -> Option<Node> {
    match field(hooks, "post_create"@) {
        Some(group) => Some(group),
        None => field(hooks, "post-create"@),
    }
}

/// The hook commands of a document with the root table `root`: the optional
/// array `commands` of texts, in the optional group of post-creation hooks of
/// the optional table `hooks`.
pub open spec fn hooks_section(root: Seq<(String, Node)>) -> Option<Seq<Seq<char>>> {
    match field(root, "hooks"@) {
        None => Some(Seq::empty()),
        Some(Node::Table(hooks)) => match hooks_group(hooks@) {
            None => Some(Seq::empty()),
            Some(Node::Table(group)) => match field(group@, "commands"@) {
                None => Some(Seq::empty()),
                Some(Node::Array(items)) => texts_of(items@),
                Some(_) => None,
            },
            Some(_) => None,
        },
        Some(_) => None,
    }
}

/// The manifest that a document denotes. The text `description` is required;
/// the sections `variables` and `hooks` are optional and empty by default.
/// Fields that the manifest does not know are ignored. `None` where a
/// required field is missing or a field is of the wrong type.
pub open spec fn manifest_model(document: Node) -> Option<ManifestModel> {
    match document {
        Node::Table(root) => match (
            field(root@, "description"@),
            variables_section(root@),
            hooks_section(root@),
        ) {
            (Some(Node::Text(description)), Some(variables), Some(hooks)) => Some(
                ManifestModel { description: description@, variables, hooks },
            ),
            _ => None,
        },
        _ => None,
    }
}

/// The error for a manifest that does not fit the schema, with the reason
/// that is given.
fn invalid(reason: &str) -> (r: Error)
    ensures
        r matches Error::ManifestInvalid { reason: text } && text@ == reason@,
{
    Error::ManifestInvalid { reason: String::from_str(reason) }
}

/// The variable that one field of the variables section declares.
fn read_variable(key: &String, node: &Node) -> (r: Option<VariableSpec>)
    ensures
        match variable_model(key@, *node) {
            Some(v) => r matches Some(x) && x@ == v,
            None => r is None,
        },
{
    match node {
        Node::Table(fields) => {
            let prompt = match lookup_text(fields, "prompt") {
                Some(p) => p,
                None => {
                    return None;
                },
            };
            match lookup_optional_text(fields, "default") {
                Ok(default) => Some(VariableSpec { key: key.clone(), prompt, default }),
                Err(_) => None,
            }
        },
        _ => None,
    }
}

/// The variables that the root table declares.
fn read_variables(root: &Vec<(String, Node)>) -> (r: Option<Vec<VariableSpec>>)
    ensures
        match variables_section(root@) {
            Some(vars) => r matches Some(v) && v@.map_values(|x: VariableSpec| x@) == vars,
            None => r is None,
        },
{
    let fields = match lookup(root, "variables") {
        None => {
            let empty: Vec<VariableSpec> = Vec::new();
            assert(empty@.map_values(|x: VariableSpec| x@) =~= Seq::empty());
            return Some(empty);
        },
        Some(Node::Table(fields)) => fields,
        Some(_) => {
            return None;
        },
    };
    let mut out: Vec<VariableSpec> = Vec::new();
    let mut i: usize = 0;
    while i < fields.len()
        invariant
            i <= fields.len(),
            out.len() == i,
            variables_section(root@) == variables_model(fields@),
            forall|k: int|
                0 <= k < i ==> variable_model((#[trigger] fields[k]).0@, fields[k].1) == Some(
                    out[k]@,
                ),
        decreases fields.len() - i,
    {
        match read_variable(&fields[i].0, &fields[i].1) {
            Some(v) => {
                out.push(v);
            },
            None => {
                assert(variable_model(fields[i as int].0@, fields[i as int].1) is None);
                return None;
            },
        }
        i = i + 1;
    }
    assert(out@.map_values(|x: VariableSpec| x@) =~= variables_model(fields@)->0);
    Some(out)
}

/// The hook commands that the root table declares.
fn read_hooks(root: &Vec<(String, Node)>) -> (r: Option<Vec<String>>)
    ensures
        match hooks_section(root@) {
            Some(hooks) => r matches Some(v) && v@.map_values(|s: String| s@) == hooks,
            None => r is None,
        },
{
    let hooks = match lookup(root, "hooks") {
        None => {
            return Some(no_texts());
        },
        Some(Node::Table(hooks)) => hooks,
        Some(_) => {
            return None;
        },
    };
    let group = match lookup(hooks, "post_create") {
        Some(group) => Some(group),
        None => lookup(hooks, "post-create"),
    };
    let group = match group {
        None => {
            return Some(no_texts());
        },
        Some(Node::Table(group)) => group,
        Some(_) => {
            return None;
        },
    };
    match lookup(group, "commands") {
        None => Some(no_texts()),
        Some(Node::Array(items)) => collect_texts(items),
        Some(_) => None,
    }
}

impl Manifest {
    /// Reads the manifest out of a parsed document.
    ///
    /// Succeeds exactly on the documents that fit the schema, with the
    /// manifest they denote; any other document is `ManifestInvalid`.
    pub fn from_document(document: &Node) -> (r: Result<Manifest, Error>)
        ensures
            match manifest_model(*document) {
                Some(m) => r matches Ok(x) && x@ == m,
                None => r matches Err(e) && e is ManifestInvalid,
            },
    {
        let root = match document {
            Node::Table(root) => root,
            _ => {
                return Err(invalid("the document is not a table"));
            },
        };
        let description = match lookup_text(root, "description") {
            Some(d) => d,
            None => {
                return Err(invalid("missing field `description`, or it is no text"));
            },
        };
        let variables = match read_variables(root) {
            Some(v) => v,
            None => {
                return Err(
                    invalid("`variables` must map each key to a table with a text `prompt` and an optional text `default`"),
                );
            },
        };
        let hooks = match read_hooks(root) {
            Some(h) => h,
            None => {
                return Err(invalid("`hooks.post_create.commands` must be an array of texts"));
            },
        };
        Ok(Manifest { description, variables, hooks })
    }

    /// Parses the text of a manifest file.
    ///
    /// Succeeds exactly where the text is well-formed TOML and its document
    /// fits the schema; anything else is `ManifestInvalid`.
    pub fn parse(text: &str) -> (r: Result<Manifest, Error>)
        ensures
            match toml_document(text@) {
                Some(document) => match manifest_model(document) {
                    Some(m) => r matches Ok(x) && x@ == m,
                    None => r matches Err(e) && e is ManifestInvalid,
                },
                None => r matches Err(e) && e is ManifestInvalid,
            },
    {
        match parse_toml(text) {
            Ok(document) => Manifest::from_document(&document),
            Err(reason) => Err(Error::ManifestInvalid { reason }),
        }
    }
}

} // verus!
