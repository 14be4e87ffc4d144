//! What is read out of the texts of a CMake project and of the package
//! manager: the project's name, and how an installed package is used.

use vstd::prelude::*;
use vstd::string::*;
use crate::patterns::{
    all_captured, all_replaced, captured, compile, find_all_groups, find_groups, group,
    group_text, is_pattern, replace_every,
};
use crate::text::{append, space_words, split_on_space};

verus! {

/// The pattern of the line that declares the project: `project(` at the
/// start of a line, after white space if any, and then the name.
pub open spec fn project_pattern() -> Seq<char> {
    "(?m)^\\s*project\\(\\s*([A-Za-z0-9_\\-]+)"@
}

/// The name that the text of a `CMakeLists.txt` declares the project by: the
/// first group of the first match of the pattern.
pub open spec fn declared_project(text: Seq<char>) -> Option<Seq<char>> {
    if is_pattern(project_pattern()) {
        group(captured(project_pattern(), text), 1)
    } else {
        None
    }
}

/// The project's name as the text of a `CMakeLists.txt` declares it, or
/// `None` where the text declares none.
pub fn project_name_from_cmakelists(text: &str) -> (r: Option<String>)
    ensures
        match declared_project(text@) {
            Some(name) => r matches Some(x) && x@ == name,
            None => r is None,
        },
{
    match compile("(?m)^\\s*project\\(\\s*([A-Za-z0-9_\\-]+)") {
        Ok(pattern) => {
            let groups = find_groups(&pattern, text);
            group_text(&groups, 1)
        },
        Err(_) => None,
    }
}

/// The pattern of a line on which the test runner lists a test; its group
/// holds the name of the test.
pub open spec fn test_pattern() -> Seq<char> {
    "(?m)^\\s*Test\\s+#\\d+\\s*:\\s*(.+?)\\s*$"@
}

/// The names in the matches of a list of matches: of each match its first
/// group, where that group took part in the match.
pub open spec fn first_groups(matches: Seq<Seq<Option<Seq<char>>>>) -> Seq<Seq<char>>
    decreases matches.len(),
{
    if matches.len() == 0 {
        Seq::empty()
    } else {
        first_groups(matches.drop_last()) + match group(Some(matches.last()), 1) {
            Some(name) => seq![name],
            None => Seq::empty(),
        }
    }
}

/// The tests that the test runner lists in `output`, in its order; `None`
/// where the pattern does not compile.
pub open spec fn listed_tests(output: Seq<char>) -> Option<Seq<Seq<char>>> {
    if is_pattern(test_pattern()) {
        Some(first_groups(all_captured(test_pattern(), output)))
    } else {
        None
    }
}

/// The names of the tests that the test runner lists in `output`.
///
/// The error is the reason why the pattern does not compile.
pub fn test_names(output: &str) -> (r: Result<Vec<String>, String>)
    ensures
        match listed_tests(output@) {
            Some(names) => r matches Ok(list) && list@.map_values(|n: String| n@) == names,
            None => r is Err,
        },
{
    let pattern = compile("(?m)^\\s*Test\\s+#\\d+\\s*:\\s*(.+?)\\s*$")?;
    let matches = find_all_groups(&pattern, output);
    let ghost all = all_captured(test_pattern(), output@);
    let mut names: Vec<String> = Vec::new();
    let mut i: usize = 0;
    assert(all.take(0) =~= Seq::empty());
    while i < matches.len()
        invariant
            i <= matches.len(),
            matches@.len() == all.len(),
            forall|k: int|
                0 <= k < matches@.len() ==> crate::patterns::groups_view(#[trigger] matches@[k])
                    == Some(all[k]),
            names@.map_values(|n: String| n@) == first_groups(all.take(i as int)),
        decreases matches.len() - i,
    {
        let ghost before = names@.map_values(|n: String| n@);
        proof {
            assert(all.take(i + 1).drop_last() =~= all.take(i as int));
            assert(all.take(i + 1).last() == all[i as int]);
            assert(crate::patterns::groups_view(matches@[i as int]) == Some(all[i as int]));
        }
        match group_text(&matches[i], 1) {
            Some(name) => {
                names.push(name);
                proof {
                    assert(names@.map_values(|n: String| n@) =~= before + seq![name@]);
                }
            },
            None => {
                proof {
                    assert(before + Seq::<Seq<char>>::empty() =~= before);
                }
            },
        }
        i = i + 1;
    }
    assert(all.take(i as int) =~= all);
    Ok(names)
}

/// How an installed package is used from CMake.
#[derive(Clone, Debug, PartialEq, Eq)]
pub struct UsageHint {
    /// The line that finds the package.
    pub find_pkg: String,
    /// The targets to link against.
    pub targets: Vec<String>,
    /// Whether the hint was read out of the package manager's output, or is
    /// the usual form for a package of that name.
    pub from_output: bool,
}

/// The mathematical content of a `UsageHint`.
pub struct UsageModel {
    pub find_pkg: Seq<char>,
    pub targets: Seq<Seq<char>>,
    pub from_output: bool,
}

impl UsageHint {
    pub open spec fn view(&self) -> UsageModel {
        UsageModel {
            find_pkg: self.find_pkg@,
            targets: self.targets@.map_values(|t: String| t@),
            from_output: self.from_output,
        }
    }
}

/// The pattern of a colour or erase sequence of a terminal.
pub open spec fn ansi_pattern() -> Seq<char> {
    "\\x1B\\[([0-9]{1,2}(;[0-9]{1,2})?)?[m|K]"@
}

/// The pattern of a call that finds a package.
pub open spec fn find_pattern() -> Seq<char> {
    "find_package\\(([^)]+)\\)"@
}

/// The pattern of a call that links targets; its second group holds them.
pub open spec fn link_pattern() -> Seq<char> {
    "target_link_libraries\\([^)]+ (PRIVATE|PUBLIC|INTERFACE) ([^)]+)\\)"@
}

/// The name of a package as CMake spells it: with `_` for each `-`.
pub open spec fn cmake_name(name: Seq<char>) -> Seq<char> {
    name.map_values(|c: char| if c == '-' { '_' } else { c })
}

/// The usual way to use a package of the name `name`.
pub open spec fn usual_usage(name: Seq<char>) -> UsageModel {
    UsageModel {
        find_pkg: "find_package("@ + cmake_name(name) + " CONFIG REQUIRED)"@,
        targets: seq![cmake_name(name) + "::"@ + cmake_name(name)],
        from_output: false,
    }
}

/// How the package `name` is used, going by the output of its installation:
/// the terminal's sequences are taken out; then the first call that finds a
/// package gives the line, and the targets of the first call that links
/// give the targets. Where one of the two is not there, the usual usage.
pub open spec fn usage(name: Seq<char>, output: Seq<char>) -> UsageModel {
    let plain = all_replaced(ansi_pattern(), output, Seq::empty());
    match (group(captured(find_pattern(), plain), 0), group(captured(link_pattern(), plain), 2)) {
        (Some(find), Some(libraries)) => UsageModel {
            find_pkg: find,
            targets: space_words(libraries),
            from_output: true,
        },
        _ => usual_usage(name),
    }
}

/// Whether the three patterns that read the output compile.
pub open spec fn usage_patterns_compile() -> bool {
    is_pattern(ansi_pattern()) && is_pattern(find_pattern()) && is_pattern(link_pattern())
}

/// The name of a package as CMake spells it.
pub fn cmake_package_name(name: &str) -> (r: String)
    ensures
        r@ == cmake_name(name@),
{
    let n: usize = name.unicode_len();
    let mut out = String::new();
    let mut i: usize = 0;
    assert(name@.take(0) =~= Seq::<char>::empty());
    assert(cmake_name(name@.take(0)) =~= Seq::<char>::empty());
    while i < n
        invariant
            n == name@.len(),
            i <= n,
            out@ == cmake_name(name@.take(i as int)),
        decreases n - i,
    {
        proof {
            reveal_strlit("_");
            assert("_"@ =~= seq!['_']);
            assert(name@.subrange(i as int, i + 1) =~= seq![name@[i as int]]);
            assert(cmake_name(name@.take(i + 1)) =~= cmake_name(name@.take(i as int)) + seq![
                if name@[i as int] == '-' {
                    '_'
                } else {
                    name@[i as int]
                },
            ]);
        }
        if name.get_char(i) == '-' {
            out = out.concat("_");
        } else {
            out = out.concat(name.substring_char(i, i + 1));
        }
        i = i + 1;
    }
    assert(name@.take(n as int) =~= name@);
    out
}

/// The usual way to use a package of the name `name`.
pub fn usual_usage_hint(name: &str) -> (r: UsageHint)
    ensures
        r@ == usual_usage(name@),
{
    let package = cmake_package_name(name);
    let find_pkg = append("find_package(", package.as_str()).concat(" CONFIG REQUIRED)");
    let target = append(package.as_str(), "::").concat(package.as_str());
    let mut targets: Vec<String> = Vec::new();
    targets.push(target);
    assert(targets@.map_values(|t: String| t@) =~= seq![
        cmake_name(name@) + "::"@ + cmake_name(name@),
    ]);
    UsageHint { find_pkg, targets, from_output: false }
}

/// How the package `name` is used, going by the output of its installation.
///
/// The error is the text of the pattern that does not compile.
pub fn usage_hint(name: &str, output: &str) -> (r: Result<UsageHint, String>)
    ensures
        usage_patterns_compile() ==> (r matches Ok(hint) && hint@ == usage(name@, output@)),
        !usage_patterns_compile() ==> r is Err,
{
    let ansi = compile("\\x1B\\[([0-9]{1,2}(;[0-9]{1,2})?)?[m|K]")?;
    proof {
        reveal_strlit("");
        assert(""@ =~= Seq::<char>::empty());
    }
    let plain = replace_every(&ansi, output, "");
    let find = compile("find_package\\(([^)]+)\\)")?;
    let link = compile("target_link_libraries\\([^)]+ (PRIVATE|PUBLIC|INTERFACE) ([^)]+)\\)")?;
    let found = find_groups(&find, plain.as_str());
    let linked = find_groups(&link, plain.as_str());
    match (group_text(&found, 0), group_text(&linked, 2)) {
        (Some(find_pkg), Some(libraries)) => Ok(
            UsageHint { find_pkg, targets: split_on_space(libraries.as_str()), from_output: true },
        ),
        _ => Ok(usual_usage_hint(name)),
    }
}

} // verus!
