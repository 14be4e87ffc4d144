//! Paths as texts whose segments are separated by `/`.

use vstd::prelude::*;
use vstd::string::*;
use crate::text::{append, ends_with};

verus! {

/// The position of the last `/` in `p`, or -1 where `p` has none.
pub open spec fn last_slash(p: Seq<char>) -> int
    decreases p.len(),
{
    if p.len() == 0 {
        -1
    } else if p.last() == '/' {
        p.len() - 1
    } else {
        last_slash(p.drop_last())
    }
}

/// The last segment of `p`: what follows its last `/`, or all of `p`.
pub open spec fn final_segment(p: Seq<char>) -> Seq<char> {
    p.skip(last_slash(p) + 1)
}

/// `p` up to and including its last `/`; empty where `p` has none.
pub open spec fn leading_directories(p: Seq<char>) -> Seq<char> {
    p.take(last_slash(p) + 1)
}

/// `rel` under the directory `root`. An absolute `rel` stands for itself, and
/// a separator is put between the two only where `root` does not end in one.
pub open spec fn joined(root: Seq<char>, rel: Seq<char>) -> Seq<char> {
    if rel.len() > 0 && rel[0] == '/' {
        rel
    } else if root.len() == 0 || root.last() == '/' {
        root + rel
    } else {
        root + seq!['/'] + rel
    }
}

/// The suffix that marks a file as a template to render and rename.
pub open spec fn template_suffix() -> Seq<char> {
    ".tmpl"@
}

/// The name of the manifest file inside a template directory.
pub open spec fn manifest_name() -> Seq<char> {
    "archetype.toml"@
}

/// Whether a file of this name is marked as a template: the name ends with
/// the suffix and has something before it.
pub open spec fn is_template_name(name: Seq<char>) -> bool {
    name.len() > template_suffix().len() && template_suffix().is_suffix_of(name)
}

/// `p` without the template suffix, where its last segment is marked.
pub open spec fn without_template_suffix(p: Seq<char>) -> Seq<char> {
    if is_template_name(final_segment(p)) {
        p.take(p.len() - template_suffix().len())
    } else {
        p
    }
}

/// Where `last_slash` points: at a `/` with none after it.
pub proof fn lemma_last_slash(p: Seq<char>)
    ensures
        -1 <= last_slash(p) < p.len(),
        last_slash(p) >= 0 ==> p[last_slash(p)] == '/',
        forall|k: int| last_slash(p) < k < p.len() ==> #[trigger] p[k] != '/',
    decreases p.len(),
{
    if p.len() > 0 && p.last() != '/' {
        let front = p.drop_last();
        lemma_last_slash(front);
        assert forall|k: int| last_slash(p) < k < p.len() implies #[trigger] p[k] != '/' by {
            if k < front.len() {
                assert(front[k] == p[k]);
            }
        }
    }
}

/// A position that holds a `/` with none after it is where `last_slash` points.
pub proof fn lemma_last_slash_at(p: Seq<char>, i: int)
    requires
        -1 <= i < p.len(),
        i >= 0 ==> p[i] == '/',
        forall|k: int| i < k < p.len() ==> #[trigger] p[k] != '/',
    ensures
        last_slash(p) == i,
    decreases p.len(),
{
    if p.len() > 0 && i < p.len() - 1 {
        let front = p.drop_last();
        assert(p.last() == p[p.len() - 1]);
        assert forall|k: int| i < k < front.len() implies #[trigger] front[k] != '/' by {
            assert(front[k] == p[k]);
        }
        lemma_last_slash_at(front, i);
    }
}

/// The number of characters of `p` up to and including its last `/`.
fn directory_len(p: &str) -> (r: usize)
    ensures
        r == last_slash(p@) + 1,
        r <= p@.len(),
{
    let mut i: usize = p.unicode_len();
    while i > 0 && p.get_char(i - 1) != '/'
        invariant
            i <= p@.len(),
            forall|k: int| i <= k < p@.len() ==> #[trigger] p@[k] != '/',
        decreases i,
    {
        i = i - 1;
    }
    proof {
        lemma_last_slash_at(p@, i - 1);
    }
    i
}

/// The last segment of `p`.
pub fn file_name(p: &str) -> (r: String)
    ensures
        r@ == final_segment(p@),
{
    let start: usize = directory_len(p);
    let n: usize = p.unicode_len();
    assert(p@.subrange(start as int, n as int) =~= p@.skip(start as int));
    String::from_str(p.substring_char(start, n))
}

/// `p` up to and including its last `/`.
pub fn parent(p: &str) -> (r: String)
    ensures
        r@ == leading_directories(p@),
{
    let end: usize = directory_len(p);
    assert(p@.subrange(0, end as int) =~= p@.take(end as int));
    String::from_str(p.substring_char(0, end))
}

/// `rel` under the directory `root`.
pub fn join(root: &str, rel: &str) -> (r: String)
    ensures
        r@ == joined(root@, rel@),
{
    let n: usize = root.unicode_len();
    if rel.unicode_len() > 0 && rel.get_char(0) == '/' {
        String::from_str(rel)
    } else if n == 0 || root.get_char(n - 1) == '/' {
        append(root, rel)
    } else {
        proof {
            reveal_strlit("/");
            assert("/"@ =~= seq!['/']);
        }
        append(root, "/").concat(rel)
    }
}

/// Whether a file of this name is marked as a template.
pub fn has_template_suffix(name: &str) -> (r: bool)
    ensures
        r == is_template_name(name@),
{
    proof {
        reveal_strlit(".tmpl");
    }
    name.unicode_len() > 5 && ends_with(name, ".tmpl")
}

/// `p` without the template suffix, where its last segment is marked.
pub fn strip_template_suffix(p: &str) -> (r: String)
    ensures
        r@ == without_template_suffix(p@),
{
    let name = file_name(p);
    if has_template_suffix(name.as_str()) {
        proof {
            reveal_strlit(".tmpl");
            lemma_last_slash(p@);
        }
        let n: usize = p.unicode_len();
        assert(p@.subrange(0, n - 5) =~= p@.take(n - 5));
        String::from_str(p.substring_char(0, n - 5))
    } else {
        String::from_str(p)
    }
}

} // verus!
