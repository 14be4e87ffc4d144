//! The text of the file that lists a project's third-party dependencies for
//! CMake: one marked block for each dependency.

use vstd::prelude::*;
use vstd::string::*;
use crate::patterns::{compile, first_replaced, is_pattern, replace_first};
use crate::text::append;

verus! {

/// The words with one space between each two of them.
pub open spec fn spaced(words: Seq<Seq<char>>) -> Seq<char>
    decreases words.len(),
{
    if words.len() == 0 {
        Seq::empty()
    } else if words.len() == 1 {
        words[0]
    } else {
        spaced(words.drop_last()) + seq![' '] + words.last()
    }
}

/// What a dependencies file holds before the first dependency is added.
pub open spec fn baseline() -> Seq<char> {
    "set(THIRD_PARTY_LIBS)\n"@
}

/// The block of the dependency `name`: after an empty line, a line that
/// marks its start, the line `find_pkg` that finds the package, the line
/// that appends `targets` to the list of libraries, and a line that marks
/// its end.
pub open spec fn dependency_block(
    name: Seq<char>,
    find_pkg: Seq<char>,
    targets: Seq<Seq<char>>,
) -> Seq<char> {
    "\n# === "@ + name + " START ===\n"@ + find_pkg + "\nlist(APPEND THIRD_PARTY_LIBS "@ + spaced(
        targets,
    ) + ")\n# === "@ + name + " END ===\n"@
}

/// The text of the dependencies file after the dependency `name` is added:
/// what the file held, or the baseline where there was no file, and then the
/// block of the dependency.
pub open spec fn dependency_text(
    existing: Option<Seq<char>>,
    name: Seq<char>,
    find_pkg: Seq<char>,
    targets: Seq<Seq<char>>,
) -> Seq<char> {
    (match existing {
        Some(text) => text,
        None => baseline(),
    }) + dependency_block(name, find_pkg, targets)
}

/// The words with one space between each two of them.
pub fn join_with_spaces(words: &Vec<String>) -> (r: String)
    ensures
        r@ == spaced(words@.map_values(|s: String| s@)),
{
    let ghost all = words@.map_values(|s: String| s@);
    let mut out = String::new();
    let mut i: usize = 0;
    assert(all.take(0) =~= Seq::empty());
    while i < words.len()
        invariant
            i <= words.len(),
            all == words@.map_values(|s: String| s@),
            out@ == spaced(all.take(i as int)),
        decreases words.len() - i,
    {
        proof {
            reveal_strlit(" ");
            assert(" "@ =~= seq![' ']);
            assert(all.take(i + 1).drop_last() =~= all.take(i as int));
            assert(all.take(i + 1).last() == words[i as int]@);
            if i == 0 {
                assert(Seq::<char>::empty() + words[0]@ =~= words[0]@);
            }
        }
        if i > 0 {
            out = out.concat(" ");
        }
        out = out.concat(words[i].as_str());
        i = i + 1;
    }
    assert(all.take(i as int) =~= all);
    out
}

/// The block of the dependency `name`.
pub fn dependency_block_text(name: &str, find_pkg: &str, targets: &Vec<String>) -> (r: String)
    ensures
        r@ == dependency_block(name@, find_pkg@, targets@.map_values(|s: String| s@)),
{
    let libraries = join_with_spaces(targets);
    append("\n# === ", name).concat(" START ===\n").concat(find_pkg).concat(
        "\nlist(APPEND THIRD_PARTY_LIBS ",
    ).concat(libraries.as_str()).concat(")\n# === ").concat(name).concat(" END ===\n")
}

/// The text of the dependencies file after the dependency `name` is added.
///
/// `existing` is what the file holds, or `None` where it cannot be read.
pub fn dependency_file_text(
    existing: Option<&str>,
    name: &str,
    find_pkg: &str,
    targets: &Vec<String>,
) -> (r: String)
    ensures
        r@ == dependency_text(
            match existing {
                Some(text) => Some(text@),
                None => None,
            },
            name@,
            find_pkg@,
            targets@.map_values(|s: String| s@),
        ),
{
    let block = dependency_block_text(name, find_pkg, targets);
    match existing {
        Some(text) => append(text, block.as_str()),
        None => append("set(THIRD_PARTY_LIBS)\n", block.as_str()),
    }
}

/// The pattern of the block of the dependency `name`, from the line that
/// marks its start to the line that marks its end, with the line break after
/// it. The name stands in the pattern as it is.
pub open spec fn block_pattern(name: Seq<char>) -> Seq<char> {
    "(?s)# === "@ + name + " START ===.*?# === "@ + name + " END ===\\n?"@
}

/// The text of the dependencies file without the first block of the
/// dependency `name`; `None` where the name makes a pattern that does not
/// compile.
pub open spec fn without_block(text: Seq<char>, name: Seq<char>) -> Option<Seq<char>> {
    if is_pattern(block_pattern(name)) {
        Some(first_replaced(block_pattern(name), text, Seq::empty()))
    } else {
        None
    }
}

/// The text of the dependencies file without the first block of the
/// dependency `name`. A text that holds no such block comes back as it is,
/// as far as the pattern goes.
///
/// The error is the reason why the pattern that the name makes does not
/// compile.
pub fn remove_dep_block(text: &str, name: &str) -> (r: Result<String, String>)
    ensures
        match without_block(text@, name@) {
            Some(rest) => r matches Ok(x) && x@ == rest,
            None => r is Err,
        },
{
    let pattern = append("(?s)# === ", name).concat(" START ===.*?# === ").concat(name).concat(
        " END ===\\n?",
    );
    let compiled = compile(pattern.as_str())?;
    proof {
        reveal_strlit("");
        assert(""@ =~= Seq::<char>::empty());
    }
    Ok(replace_first(&compiled, text, ""))
}

} // verus!
