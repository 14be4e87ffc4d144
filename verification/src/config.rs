//! The application's configuration: where templates are searched and which
//! directory an archetype name stands for.

use vstd::prelude::*;
use vstd::string::*;
use crate::document::{
    collect_texts, no_texts, field, lookup, lookup_optional_text, optional_text, parse_toml, text_of,
    texts_of, toml_document, Node,
};
use crate::error::Error;
use crate::path::{join, joined};
use crate::text::same_text;

verus! {

/// Where templates are searched.
#[derive(Clone, Debug, PartialEq, Eq)]
pub struct Templates {
    /// The search directories, in the order in which they are tried.
    pub locations: Vec<String>,
}

/// The top-level configuration.
#[derive(Clone, Debug, PartialEq, Eq)]
pub struct Config {
    /// The root of the package manager's installation, if it is configured.
    pub vcpkg_root: Option<String>,
    pub templates: Templates,
    /// Archetype names with the directory, relative to a search directory,
    /// that each stands for. The first pair with a name counts.
    pub archetypes: Vec<(String, String)>,
}

/// The mathematical content of a `Config`.
pub struct ConfigModel {
    pub vcpkg_root: Option<Seq<char>>,
    pub locations: Seq<Seq<char>>,
    pub archetypes: Seq<(Seq<char>, Seq<char>)>,
}

/// The configuration without any setting.
pub open spec fn empty_config() -> ConfigModel {
    ConfigModel { vcpkg_root: None, locations: Seq::empty(), archetypes: Seq::empty() }
}

/// The directory that the first pair with the name `name` gives.
pub open spec fn mapping(pairs: Seq<(Seq<char>, Seq<char>)>, name: Seq<char>) -> Option<Seq<char>>
    decreases pairs.len(),
{
    if pairs.len() == 0 {
        None
    } else if pairs.first().0 == name {
        Some(pairs.first().1)
    } else {
        mapping(pairs.drop_first(), name)
    }
}

/// Whether a path starts in the home directory: its first segment is `~`.
pub open spec fn is_home_relative(p: Seq<char>) -> bool {
    p.len() > 0 && p[0] == '~' && (p.len() == 1 || p[1] == '/')
}

/// The path `p` once the home directory `home` is known or known to be
/// unknown: a path that starts in the home directory gets the home directory
/// in place of its `~`; any other path, and every path where no home
/// directory is known, stays as it is.
pub open spec fn expanded_under(p: Seq<char>, home: Option<Seq<char>>) -> Seq<char> {
    match home {
        Some(h) => if is_home_relative(p) {
            h + p.skip(1)
        } else {
            p
        },
        None => p,
    }
}

/// The configuration `before` with its paths expanded under `home`: the
/// package manager's root and each search directory. The name mappings stay
/// as they are.
pub open spec fn expanded_config(before: ConfigModel, home: Option<Seq<char>>) -> ConfigModel {
    ConfigModel {
        vcpkg_root: match before.vcpkg_root {
            Some(p) => Some(expanded_under(p, home)),
            None => None,
        },
        locations: before.locations.map_values(|p: Seq<char>| expanded_under(p, home)),
        archetypes: before.archetypes,
    }
}

/// The characters of a home directory that is given or not.
pub open spec fn home_text(home: Option<&str>) -> Option<Seq<char>> {
    match home {
        Some(h) => Some(h@),
        None => None,
    }
}

/// The search directories that a document with the root table `root`
/// configures: the optional array `locations` of texts in the optional table
/// `templates`.
pub open spec fn locations_section(root: Seq<(String, Node)>) -> Option<Seq<Seq<char>>> {
    match field(root, "templates"@) {
        None => Some(Seq::empty()),
        Some(Node::Table(templates)) => match field(templates@, "locations"@) {
            None => Some(Seq::empty()),
            Some(Node::Array(items)) => texts_of(items@),
            Some(_) => None,
        },
        Some(_) => None,
    }
}

/// The pairs of a table all of whose values are texts.
pub open spec fn text_pairs(fields: Seq<(String, Node)>) -> Option<Seq<(Seq<char>, Seq<char>)>> {
    if forall|i: int| 0 <= i < fields.len() ==> text_of((#[trigger] fields[i]).1) is Some {
        Some(Seq::new(fields.len(), |i: int| (fields[i].0@, text_of(fields[i].1)->0)))
    } else {
        None
    }
}

/// The name mappings that a document with the root table `root` configures:
/// the pairs of its optional table `archetypes`.
pub open spec fn archetypes_section(root: Seq<(String, Node)>) -> Option<
    Seq<(Seq<char>, Seq<char>)>,
> {
    match field(root, "archetypes"@) {
        None => Some(Seq::empty()),
        Some(Node::Table(fields)) => text_pairs(fields@),
        Some(_) => None,
    }
}

/// The configuration that a document denotes. Every field is optional:
/// the text `vcpkg-root`, the table `templates` and the table `archetypes`.
/// Fields that the configuration does not know are ignored. `None` where a
/// field is of the wrong type.
pub open spec fn config_model(document: Node) -> Option<ConfigModel> {
    match document {
        Node::Table(root) => match (
            optional_text(root@, "vcpkg-root"@),
            locations_section(root@),
            archetypes_section(root@),
        ) {
            (Some(vcpkg_root), Some(locations), Some(archetypes)) => Some(
                ConfigModel { vcpkg_root, locations, archetypes },
            ),
            _ => None,
        },
        _ => None,
    }
}

/// The configuration file in the current directory.
pub open spec fn local_config_path() -> Seq<char> {
    "./.cproject.toml"@
}

/// The configuration file under the home directory `home`.
pub open spec fn home_config_path(home: Seq<char>) -> Seq<char> {
    joined(home, ".config/cproject/cproject.toml"@)
}

/// The configuration files that may be read, in the order in which they are
/// tried: the one in the current directory, then the one under the home
/// directory, where a home directory is known.
pub open spec fn config_candidates(home: Option<Seq<char>>) -> Seq<Seq<char>> {
    match home {
        Some(h) => seq![local_config_path(), home_config_path(h)],
        None => seq![local_config_path()],
    }
}

/// Whether the file at place `i` was found to exist. What `exists` does not
/// cover counts as absent.
pub open spec fn is_found(exists: Seq<bool>, i: int) -> bool {
    0 <= i < exists.len() && exists[i]
}

/// The first of the files from place `from` on that exists.
pub open spec fn first_existing(files: Seq<Seq<char>>, exists: Seq<bool>, from: int) -> Option<
    Seq<char>,
>
    decreases files.len() - from,
{
    if from < 0 || from >= files.len() {
        None
    } else if is_found(exists, from) {
        Some(files[from])
    } else {
        first_existing(files, exists, from + 1)
    }
}

/// Calls `dirs::home_dir` and hands the directory back as a text.
///
/// Trusted: nothing. Whether a home directory is known, and which, depends
/// on the environment; one that is not valid Unicode counts as unknown.
#[verifier::external_body]
fn home_directory() -> (r: Option<String>) {
    dirs::home_dir().and_then(|p| p.to_str().map(|s| s.to_owned()))
}

/// Calls `shellexpand::tilde_with_context` on a path that starts in the home
/// directory, with the home directory that is given.
///
/// Trusted: where a home directory is given, the path comes back with it in
/// place of the leading `~`; where none is given, the path comes back as it
/// is.
#[verifier::external_body]
fn expand_tilde(path: &str, home: Option<&str>) -> (r: String)
    requires
        is_home_relative(path@),
    ensures
        r@ == expanded_under(path@, home_text(home)),
{
    shellexpand::tilde_with_context(path, || home).into_owned()
}

/// Whether a path starts in the home directory.
pub fn starts_at_home(path: &str) -> (r: bool)
    ensures
        r == is_home_relative(path@),
{
    let n: usize = path.unicode_len();
    n > 0 && path.get_char(0) == '~' && (n == 1 || path.get_char(1) == '/')
}

/// The path with the home directory `home` in place of a leading `~`,
/// where the path starts in the home directory and a home directory is
/// given. Any other path comes back as it is.
pub fn expand_path_under(path: &str, home: Option<&str>) -> (r: String)
    ensures
        r@ == if is_home_relative(path@) && home is Some {
            home->0@ + path@.skip(1)
        } else {
            path@
        },
        r@ == expanded_under(path@, home_text(home)),
{
    if starts_at_home(path) {
        expand_tilde(path, home)
    } else {
        String::from_str(path)
    }
}

/// The path with the user's home directory in place of a leading `~`, where
/// the path starts in the home directory and the environment tells the home
/// directory.
pub fn expand_path(path: &str) -> (r: String)
    ensures
        exists|home: Option<Seq<char>>| r@ == #[trigger] expanded_under(path@, home),
{
    let home = home_directory();
    match &home {
        Some(h) => {
            let r = expand_path_under(path, Some(h.as_str()));
            assert(r@ == expanded_under(path@, Some(h@)));
            r
        },
        None => {
            let r = expand_path_under(path, None);
            assert(r@ == expanded_under(path@, None));
            r
        },
    }
}

/// The error for a configuration that does not fit the schema, with the
/// reason that is given.
fn invalid(reason: &str) -> (r: Error)
    ensures
        r matches Error::ConfigInvalid { reason: text } && text@ == reason@,
{
    Error::ConfigInvalid { reason: String::from_str(reason) }
}

/// The search directories that the root table configures.
fn read_locations(root: &Vec<(String, Node)>) -> (r: Option<Vec<String>>)
    ensures
        match locations_section(root@) {
            Some(locations) => r matches Some(v) && v@.map_values(|s: String| s@) == locations,
            None => r is None,
        },
{
    let templates = match lookup(root, "templates") {
        None => {
            return Some(no_texts());
        },
        Some(Node::Table(templates)) => templates,
        Some(_) => {
            return None;
        },
    };
    match lookup(templates, "locations") {
        None => Some(no_texts()),
        Some(Node::Array(items)) => collect_texts(items),
        Some(_) => None,
    }
}

/// The name mappings that the root table configures.
fn read_archetypes(root: &Vec<(String, Node)>) -> (r: Option<Vec<(String, String)>>)
    ensures
        match archetypes_section(root@) {
            Some(pairs) => r matches Some(v) && v@.map_values(|p: (String, String)| (p.0@, p.1@))
                == pairs,
            None => r is None,
        },
{
    let mut out: Vec<(String, String)> = Vec::new();
    let fields = match lookup(root, "archetypes") {
        None => {
            assert(out@.map_values(|p: (String, String)| (p.0@, p.1@)) =~= Seq::empty());
            return Some(out);
        },
        Some(Node::Table(fields)) => fields,
        Some(_) => {
            return None;
        },
    };
    let mut i: usize = 0;
    while i < fields.len()
        invariant
            i <= fields.len(),
            out.len() == i,
            archetypes_section(root@) == text_pairs(fields@),
            forall|k: int|
                0 <= k < i ==> text_of((#[trigger] fields[k]).1) == Some(out[k].1@) && out[k].0@
                    == fields[k].0@,
        decreases fields.len() - i,
    {
        match &fields[i].1 {
            Node::Text(s) => {
                out.push((fields[i].0.clone(), s.clone()));
            },
            _ => {
                assert(text_of(fields[i as int].1) is None);
                return None;
            },
        }
        i = i + 1;
    }
    assert(out@.map_values(|p: (String, String)| (p.0@, p.1@)) =~= text_pairs(fields@)->0);
    Some(out)
}

impl Default for Templates {
    /// No search directory.
    fn default() -> (r: Templates)
        ensures
            r.locations@ == Seq::<String>::empty(),
    {
        Templates { locations: Vec::new() }
    }
}

impl Default for Config {
    /// The configuration without any setting.
    fn default() -> (r: Config)
        ensures
            r@ == empty_config(),
    {
        let r = Config {
            vcpkg_root: None,
            templates: Templates { locations: Vec::new() },
            archetypes: Vec::new(),
        };
        assert(r@.locations =~= Seq::empty());
        assert(r@.archetypes =~= Seq::empty());
        r
    }
}

impl Config {
    pub open spec fn view(&self) -> ConfigModel {
        ConfigModel {
            vcpkg_root: match self.vcpkg_root {
                Some(p) => Some(p@),
                None => None,
            },
            locations: self.templates.locations@.map_values(|s: String| s@),
            archetypes: self.archetypes@.map_values(|p: (String, String)| (p.0@, p.1@)),
        }
    }

    /// The configuration files that may be read, given the home directory.
    pub fn candidate_files_under(home: Option<&str>) -> (r: Vec<String>)
        ensures
            r@.map_values(|s: String| s@) == config_candidates(
                match home {
                    Some(h) => Some(h@),
                    None => None,
                },
            ),
    {
        let mut files: Vec<String> = Vec::new();
        files.push(String::from_str("./.cproject.toml"));
        match home {
            Some(h) => {
                files.push(join(h, ".config/cproject/cproject.toml"));
            },
            None => {},
        }
        assert(files@.map_values(|s: String| s@) =~= config_candidates(
            match home {
                Some(h) => Some(h@),
                None => None,
            },
        ));
        files
    }

    /// The configuration files that may be read, in the order in which they
    /// are tried: the one in the current directory, then the one under the
    /// user's home directory, where the environment tells it.
    pub fn candidate_files() -> (r: Vec<String>)
        ensures
            exists|home: Option<Seq<char>>|
                r@.map_values(|s: String| s@) == #[trigger] config_candidates(home),
    {
        let home = home_directory();
        let files = match &home {
            Some(h) => Config::candidate_files_under(Some(h.as_str())),
            None => Config::candidate_files_under(None),
        };
        assert(files@.map_values(|s: String| s@) == config_candidates(
            match home {
                Some(h) => Some(h@),
                None => None,
            },
        ));
        files
    }

    /// The configuration file to read: the first of `files` that exists,
    /// where `exists` says of each whether it does.
    pub fn select_file(files: &Vec<String>, exists: &Vec<bool>) -> (r: Option<String>)
        ensures
            match first_existing(files@.map_values(|s: String| s@), exists@, 0) {
                Some(p) => r matches Some(x) && x@ == p,
                None => r is None,
            },
    {
        let ghost all = files@.map_values(|s: String| s@);
        let mut i: usize = 0;
        while i < files.len()
            invariant
                i <= files.len(),
                all == files@.map_values(|s: String| s@),
                first_existing(all, exists@, 0) == first_existing(all, exists@, i as int),
            decreases files.len() - i,
        {
            if i < exists.len() && exists[i] {
                return Some(files[i].clone());
            }
            i = i + 1;
        }
        None
    }

    /// The directory that the configuration maps the archetype `name` to.
    pub fn mapped(&self, name: &str) -> (r: Option<&String>)
        ensures
            match mapping(self@.archetypes, name@) {
                Some(p) => r matches Some(x) && x@ == p,
                None => r is None,
            },
    {
        let ghost pairs = self@.archetypes;
        let mut i: usize = 0;
        assert(pairs.skip(0) =~= pairs);
        while i < self.archetypes.len()
            invariant
                i <= self.archetypes.len(),
                pairs == self@.archetypes,
                mapping(pairs, name@) == mapping(pairs.skip(i as int), name@),
            decreases self.archetypes.len() - i,
        {
            assert(pairs.skip(i as int).first() == pairs[i as int]);
            assert(pairs.skip(i as int).drop_first() =~= pairs.skip(i + 1));
            if same_text(self.archetypes[i].0.as_str(), name) {
                return Some(&self.archetypes[i].1);
            }
            i = i + 1;
        }
        None
    }

    /// Reads the configuration out of a parsed document.
    ///
    /// Succeeds exactly on the documents that fit the schema, with the
    /// configuration they denote; any other document is `ConfigInvalid`.
    pub fn from_document(document: &Node) -> (r: Result<Config, Error>)
        ensures
            match config_model(*document) {
                Some(m) => r matches Ok(c) && c@ == m,
                None => r matches Err(e) && e is ConfigInvalid,
            },
    {
        let root = match document {
            Node::Table(root) => root,
            _ => {
                return Err(invalid("the document is not a table"));
            },
        };
        let vcpkg_root = match lookup_optional_text(root, "vcpkg-root") {
            Ok(v) => v,
            Err(_) => {
                return Err(invalid("`vcpkg-root` must be a text"));
            },
        };
        let locations = match read_locations(root) {
            Some(l) => l,
            None => {
                return Err(invalid("`templates.locations` must be an array of texts"));
            },
        };
        let archetypes = match read_archetypes(root) {
            Some(a) => a,
            None => {
                return Err(invalid("`archetypes` must map each name to a text"));
            },
        };
        Ok(Config { vcpkg_root, templates: Templates { locations }, archetypes })
    }

    /// Puts the home directory `home` in place of the leading `~` of the
    /// package manager's root and of each search directory that starts in
    /// the home directory. Where no home directory is given, nothing changes.
    ///
    /// The result is always `Ok`.
    pub fn expand_paths_under(&mut self, home: Option<&str>) -> (r: Result<(), Error>)
        ensures
            r is Ok,
            final(self)@ == expanded_config(old(self)@, home_text(home)),
    {
        let ghost before = self@;
        let root = match &self.vcpkg_root {
            Some(p) => Some(expand_path_under(p.as_str(), home)),
            None => None,
        };
        let mut expanded: Vec<String> = Vec::new();
        let mut i: usize = 0;
        while i < self.templates.locations.len()
            invariant
                i <= self.templates.locations.len(),
                expanded.len() == i,
                forall|k: int|
                    0 <= k < i ==> (#[trigger] expanded[k])@ == expanded_under(
                        self.templates.locations[k]@,
                        home_text(home),
                    ),
            decreases self.templates.locations.len() - i,
        {
            expanded.push(expand_path_under(self.templates.locations[i].as_str(), home));
            i = i + 1;
        }
        self.vcpkg_root = root;
        self.templates.locations = expanded;
        assert(self@.locations =~= expanded_config(before, home_text(home)).locations);
        Ok(())
    }

    /// Puts the user's home directory in place of the leading `~` of the
    /// package manager's root and of each search directory that starts in
    /// the home directory.
    ///
    /// The result is always `Ok`. Which home directory is used, and whether
    /// one is known, depends on the environment; it is asked once.
    pub fn expand_paths(&mut self) -> (r: Result<(), Error>)
        ensures
            r is Ok,
            exists|home: Option<Seq<char>>|
                final(self)@ == #[trigger] expanded_config(old(self)@, home),
    {
        let home = home_directory();
        match &home {
            Some(h) => {
                let r = self.expand_paths_under(Some(h.as_str()));
                assert(self@ == expanded_config(old(self)@, Some(h@)));
                r
            },
            None => {
                let r = self.expand_paths_under(None);
                assert(self@ == expanded_config(old(self)@, None));
                r
            },
        }
    }

    /// Loads the configuration from the text of the configuration file, or
    /// the default configuration where there is no file, with the paths of a
    /// configuration that was read expanded under the home directory `home`.
    ///
    /// A text that is not well-formed TOML, or whose document does not fit
    /// the schema, is `ConfigInvalid`.
    pub fn load_under(source: Option<&str>, home: Option<&str>) -> (r: Result<Config, Error>)
        ensures
            match source {
                None => r matches Ok(c) && c@ == empty_config(),
                Some(text) => match toml_document(text@) {
                    Some(document) => match config_model(document) {
                        Some(m) => r matches Ok(c) && c@ == expanded_config(m, home_text(home)),
                        None => r matches Err(e) && e is ConfigInvalid,
                    },
                    None => r matches Err(e) && e is ConfigInvalid,
                },
            },
    {
        let text = match source {
            Some(text) => text,
            None => {
                return Ok(Config::default());
            },
        };
        let document = match parse_toml(text) {
            Ok(document) => document,
            Err(reason) => {
                return Err(Error::ConfigInvalid { reason });
            },
        };
        let mut config = Config::from_document(&document)?;
        let _ = config.expand_paths_under(home);
        Ok(config)
    }

    /// Loads the configuration from the text of the configuration file, or
    /// the default configuration where there is no file.
    ///
    /// A text that is not well-formed TOML, or whose document does not fit
    /// the schema, is `ConfigInvalid`. The paths of a configuration that was
    /// read are expanded under the user's home directory, where the
    /// environment tells it.
    pub fn load(source: Option<&str>) -> (r: Result<Config, Error>)
        ensures
            match source {
                None => r matches Ok(c) && c@ == empty_config(),
                Some(text) => match toml_document(text@) {
                    Some(document) => match config_model(document) {
                        Some(m) => r matches Ok(c) && exists|home: Option<Seq<char>>|
                            c@ == #[trigger] expanded_config(m, home),
                        None => r matches Err(e) && e is ConfigInvalid,
                    },
                    None => r matches Err(e) && e is ConfigInvalid,
                },
            },
    {
        let home = home_directory();
        match &home {
            Some(h) => Config::load_under(source, Some(h.as_str())),
            None => Config::load_under(source, None),
        }
    }
}

} // verus!
