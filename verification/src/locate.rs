//! The archetype locator: which template directory an archetype name stands
//! for, given which of the directories that may hold it exist.

use vstd::prelude::*;
use vstd::string::*;
use crate::config::{mapping, Config, ConfigModel};
use crate::error::Error;
use crate::path::{join, joined};
use crate::text::same_text;

verus! {

/// The directory that a built-in alias stands for.
pub open spec fn alias_directory(name: Seq<char>) -> Option<Seq<char>> {
    if name == "app"@ || name == "exe"@ || name == "executable"@ {
        Some("default/executable"@)
    } else if name == "lib"@ || name == "library"@ {
        Some("default/library"@)
    } else {
        None
    }
}

/// The sequence of one text or of none.
pub open spec fn if_some(x: Option<Seq<char>>) -> Seq<Seq<char>> {
    match x {
        Some(s) => seq![s],
        None => Seq::empty(),
    }
}

/// The directories, relative to a search root, that may hold the archetype
/// `name`, by priority: the one that the configuration maps the name to, the
/// one that a built-in alias stands for, and the name itself.
pub open spec fn candidates(config: ConfigModel, name: Seq<char>) -> Seq<Seq<char>> {
    if_some(mapping(config.archetypes, name)) + if_some(alias_directory(name)) + seq![name]
}

/// The built-in search root, tried after the configured ones.
pub open spec fn builtin_root() -> Seq<char> {
    "./templates"@
}

/// The search roots by priority: the configured ones in their order, then
/// the built-in one.
pub open spec fn search_roots(config: ConfigModel) -> Seq<Seq<char>> {
    config.locations.push(builtin_root())
}

/// The directory of the candidate `j` under the root `i`.
pub open spec fn search_path(config: ConfigModel, name: Seq<char>, i: int, j: int) -> Seq<char> {
    joined(search_roots(config)[i], candidates(config, name)[j])
}

/// Whether the directory of the candidate `j` under the root `i` was found
/// to exist. What `present` does not cover counts as absent.
pub open spec fn is_present(present: Seq<Vec<bool>>, i: int, j: int) -> bool {
    0 <= i < present.len() && 0 <= j < present[i]@.len() && present[i]@[j]
}

/// Whether the pair `(a, b)` is tried before the pair `(i, j)`: roots come
/// first, and under one root the candidates in their order.
pub open spec fn is_tried_before(a: int, b: int, i: int, j: int) -> bool {
    a < i || (a == i && b < j)
}

/// Whether `(i, j)` is the first pair of a root and a candidate, among
/// `roots` roots and `cands` candidates, whose directory exists.
pub open spec fn is_first_match(present: Seq<Vec<bool>>, roots: int, cands: int, i: int, j: int) -> bool {
    &&& 0 <= i < roots
    &&& 0 <= j < cands
    &&& is_present(present, i, j)
    &&& forall|a: int, b: int|
        0 <= a < roots && 0 <= b < cands && is_tried_before(a, b, i, j) ==> !is_present(
            present,
            a,
            b,
        )
}

/// Whether any directory of a root and a candidate exists.
pub open spec fn has_match(present: Seq<Vec<bool>>, roots: int, cands: int) -> bool {
    exists|a: int, b: int| 0 <= a < roots && 0 <= b < cands && is_present(present, a, b)
}

/// The first pair of a root and a candidate whose directory exists.
pub open spec fn first_match(present: Seq<Vec<bool>>, roots: int, cands: int) -> Option<(int, int)> {
    if exists|p: (int, int)| is_first_match(present, roots, cands, p.0, p.1) {
        Some(choose|p: (int, int)| is_first_match(present, roots, cands, p.0, p.1))
    } else {
        None
    }
}

/// The template directory of the archetype `name`: the first that exists
/// among the candidates under the search roots, root by root.
pub open spec fn located(config: ConfigModel, name: Seq<char>, present: Seq<Vec<bool>>) -> Option<
    Seq<char>,
> {
    match first_match(present, search_roots(config).len() as int, candidates(config, name).len() as int) {
        Some((i, j)) => Some(search_path(config, name, i, j)),
        None => None,
    }
}

/// There is at most one first match, so a pair that is one is the first match.
pub proof fn lemma_first_match_is(present: Seq<Vec<bool>>, roots: int, cands: int, i: int, j: int)
    requires
        is_first_match(present, roots, cands, i, j),
    ensures
        first_match(present, roots, cands) == Some((i, j)),
{
    let p = (i, j);
    assert(is_first_match(present, roots, cands, p.0, p.1));
    let q = choose|q: (int, int)| is_first_match(present, roots, cands, q.0, q.1);
    if is_tried_before(q.0, q.1, i, j) {
        assert(!is_present(present, q.0, q.1));
    }
    if is_tried_before(i, j, q.0, q.1) {
        assert(!is_present(present, i, j));
    }
}

/// Where no directory exists there is no first match.
pub proof fn lemma_no_match(present: Seq<Vec<bool>>, roots: int, cands: int)
    requires
        !has_match(present, roots, cands),
    ensures
        first_match(present, roots, cands) is None,
{
    if exists|p: (int, int)| is_first_match(present, roots, cands, p.0, p.1) {
        let p = choose|p: (int, int)| is_first_match(present, roots, cands, p.0, p.1);
        assert(is_present(present, p.0, p.1));
    }
}

/// The first root, in the configured order, that holds a candidate holds the
/// directory that is located, and that directory is the first candidate, by
/// priority, which that root holds. Where no root holds a candidate, no
/// directory is located.
pub proof fn law_first_root_first_candidate(
    config: ConfigModel,
    name: Seq<char>,
    present: Seq<Vec<bool>>,
)
    ensures
        match located(config, name, present) {
            Some(path) => exists|i: int, j: int|
                {
                    &&& 0 <= i < search_roots(config).len()
                    &&& 0 <= j < candidates(config, name).len()
                    &&& path == #[trigger] search_path(config, name, i, j)
                    &&& is_present(present, i, j)
                    &&& forall|a: int, b: int|
                        0 <= a < i && 0 <= b < candidates(config, name).len() ==> !is_present(
                            present,
                            a,
                            b,
                        )
                    &&& forall|b: int| 0 <= b < j ==> !is_present(present, i, b)
                },
            None => forall|a: int, b: int|
                0 <= a < search_roots(config).len() && 0 <= b < candidates(config, name).len()
                    ==> !is_present(present, a, b),
        },
{
    let roots = search_roots(config).len() as int;
    let cands = candidates(config, name).len() as int;
    match first_match(present, roots, cands) {
        Some((i, j)) => {
            let p = choose|p: (int, int)| is_first_match(present, roots, cands, p.0, p.1);
            assert(is_first_match(present, roots, cands, i, j));
            assert forall|a: int, b: int| 0 <= a < i && 0 <= b < cands implies !is_present(
                present,
                a,
                b,
            ) by {
                assert(is_tried_before(a, b, i, j));
            }
            assert forall|b: int| 0 <= b < j implies !is_present(present, i, b) by {
                assert(is_tried_before(i, b, i, j));
            }
            assert(located(config, name, present) == Some(search_path(config, name, i, j)));
        },
        None => {
            assert forall|a: int, b: int| 0 <= a < roots && 0 <= b < cands implies !is_present(
                present,
                a,
                b,
            ) by {
                if is_present(present, a, b) {
                    lemma_some_match_has_first(present, roots, cands, a, b);
                }
            }
        },
    }
}

/// Where a directory exists, some pair is the first match.
pub proof fn lemma_some_match_has_first(
    present: Seq<Vec<bool>>,
    roots: int,
    cands: int,
    a: int,
    b: int,
)
    requires
        0 <= a < roots,
        0 <= b < cands,
        is_present(present, a, b),
    ensures
        first_match(present, roots, cands) is Some,
    decreases a, b,
{
    if exists|c: int, d: int|
        0 <= c < roots && 0 <= d < cands && is_tried_before(c, d, a, b) && is_present(
            present,
            c,
            d,
        ) {
        let (c, d) = choose|c: int, d: int|
            0 <= c < roots && 0 <= d < cands && is_tried_before(c, d, a, b) && is_present(
                present,
                c,
                d,
            );
        lemma_some_match_has_first(present, roots, cands, c, d);
    } else {
        assert(is_first_match(present, roots, cands, a, b));
        lemma_first_match_is(present, roots, cands, a, b);
    }
}

/// The directory that a built-in alias stands for.
pub fn alias_for(name: &str) -> (r: Option<String>)
    ensures
        match alias_directory(name@) {
            Some(d) => r matches Some(x) && x@ == d,
            None => r is None,
        },
{
    if same_text(name, "app") || same_text(name, "exe") || same_text(name, "executable") {
        Some(String::from_str("default/executable"))
    } else if same_text(name, "lib") || same_text(name, "library") {
        Some(String::from_str("default/library"))
    } else {
        None
    }
}

/// The directories, relative to a search root, that may hold the archetype
/// `name`, by priority.
pub fn candidate_directories(config: &Config, name: &str) -> (r: Vec<String>)
    ensures
        r@.map_values(|s: String| s@) == candidates(config@, name@),
{
    let mut out: Vec<String> = Vec::new();
    match config.mapped(name) {
        Some(mapped) => {
            out.push(mapped.clone());
        },
        None => {},
    }
    match alias_for(name) {
        Some(alias) => {
            out.push(alias);
        },
        None => {},
    }
    out.push(String::from_str(name));
    assert(out@.map_values(|s: String| s@) =~= candidates(config@, name@));
    out
}

/// The search roots by priority.
pub fn root_directories(config: &Config) -> (r: Vec<String>)
    ensures
        r@.map_values(|s: String| s@) == search_roots(config@),
{
    let mut out: Vec<String> = Vec::new();
    let mut i: usize = 0;
    while i < config.templates.locations.len()
        invariant
            i <= config.templates.locations.len(),
            out.len() == i,
            forall|k: int| 0 <= k < i ==> (#[trigger] out[k])@ == config.templates.locations[k]@,
        decreases config.templates.locations.len() - i,
    {
        out.push(config.templates.locations[i].clone());
        i = i + 1;
    }
    out.push(String::from_str("./templates"));
    assert(out@.map_values(|s: String| s@) =~= search_roots(config@));
    out
}

/// The directories to probe for the archetype `name`: one row for each
/// search root, in the order of the roots, with the directory of each
/// candidate under that root, in the order of the candidates.
pub fn search_paths(config: &Config, name: &str) -> (r: Vec<Vec<String>>)
    ensures
        r.len() == search_roots(config@).len(),
        forall|i: int|
            0 <= i < r.len() ==> (#[trigger] r[i]).len() == candidates(config@, name@).len(),
        forall|i: int, j: int|
            0 <= i < r.len() && 0 <= j < candidates(config@, name@).len() ==> (#[trigger] r[i][j])@
                == search_path(config@, name@, i, j),
{
    let roots = root_directories(config);
    let cands = candidate_directories(config, name);
    let mut out: Vec<Vec<String>> = Vec::new();
    let mut i: usize = 0;
    while i < roots.len()
        invariant
            i <= roots.len(),
            out.len() == i,
            roots@.map_values(|s: String| s@) == search_roots(config@),
            cands@.map_values(|s: String| s@) == candidates(config@, name@),
            forall|a: int| 0 <= a < i ==> (#[trigger] out[a]).len() == cands.len(),
            forall|a: int, b: int|
                0 <= a < i && 0 <= b < cands.len() ==> (#[trigger] out[a][b])@ == search_path(
                    config@,
                    name@,
                    a,
                    b,
                ),
        decreases roots.len() - i,
    {
        let mut row: Vec<String> = Vec::new();
        let mut j: usize = 0;
        while j < cands.len()
            invariant
                i < roots.len(),
                j <= cands.len(),
                row.len() == j,
                roots@.map_values(|s: String| s@) == search_roots(config@),
                cands@.map_values(|s: String| s@) == candidates(config@, name@),
                forall|b: int|
                    0 <= b < j ==> (#[trigger] row[b])@ == search_path(config@, name@, i as int, b),
            decreases cands.len() - j,
        {
            assert(roots@.map_values(|s: String| s@)[i as int] == roots[i as int]@);
            assert(cands@.map_values(|s: String| s@)[j as int] == cands[j as int]@);
            row.push(join(roots[i].as_str(), cands[j].as_str()));
            j = j + 1;
        }
        out.push(row);
        i = i + 1;
    }
    assert(roots@.map_values(|s: String| s@).len() == roots.len());
    assert(cands@.map_values(|s: String| s@).len() == cands.len());
    out
}

/// Whether the directory of the candidate `j` under the root `i` was found
/// to exist.
fn probe(present: &Vec<Vec<bool>>, i: usize, j: usize) -> (r: bool)
    ensures
        r == is_present(present@, i as int, j as int),
{
    i < present.len() && j < present[i].len() && present[i][j]
}

/// The first pair of a root and a candidate, among `roots` roots and `cands`
/// candidates, whose directory exists.
pub fn find_first(present: &Vec<Vec<bool>>, roots: usize, cands: usize) -> (r: Option<
    (usize, usize),
>)
    ensures
        match first_match(present@, roots as int, cands as int) {
            Some((i, j)) => r == Some((i as usize, j as usize)) && i < roots && j < cands,
            None => r is None,
        },
{
    let mut i: usize = 0;
    while i < roots
        invariant
            i <= roots,
            forall|a: int, b: int| 0 <= a < i && 0 <= b < cands ==> !is_present(present@, a, b),
        decreases roots - i,
    {
        let mut j: usize = 0;
        while j < cands
            invariant
                i < roots,
                j <= cands,
                forall|a: int, b: int| 0 <= a < i && 0 <= b < cands ==> !is_present(present@, a, b),
                forall|b: int| 0 <= b < j ==> !is_present(present@, i as int, b),
            decreases cands - j,
        {
            if probe(present, i, j) {
                proof {
                    assert(is_first_match(present@, roots as int, cands as int, i as int, j as int));
                    lemma_first_match_is(present@, roots as int, cands as int, i as int, j as int);
                }
                return Some((i, j));
            }
            j = j + 1;
        }
        i = i + 1;
    }
    proof {
        lemma_no_match(present@, roots as int, cands as int);
    }
    None
}

/// Locates the template directory of the archetype `name`.
///
/// `present` says which of the directories of `search_paths` exist: row `i`,
/// entry `j` for the candidate `j` under the root `i`. The first directory
/// that exists is selected, root by root and, under one root, candidate by
/// candidate. Where none exists the archetype is `NotFound`.
pub fn locate(config: &Config, name: &str, present: &Vec<Vec<bool>>) -> (r: Result<String, Error>)
    ensures
        match located(config@, name@, present@) {
            Some(path) => r matches Ok(p) && p@ == path,
            None => r matches Err(Error::NotFound { name: n }) && n@ == name@,
        },
{
    let roots = root_directories(config);
    let cands = candidate_directories(config, name);
    assert(roots@.map_values(|s: String| s@).len() == roots.len());
    assert(cands@.map_values(|s: String| s@).len() == cands.len());
    match find_first(present, roots.len(), cands.len()) {
        Some((i, j)) => {
            assert(roots@.map_values(|s: String| s@)[i as int] == roots[i as int]@);
            assert(cands@.map_values(|s: String| s@)[j as int] == cands[j as int]@);
            Ok(join(roots[i].as_str(), cands[j].as_str()))
        },
        None => Err(Error::NotFound { name: String::from_str(name) }),
    }
}

} // verus!
