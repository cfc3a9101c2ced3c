use vstd::prelude::*;
use vstd::string::*;
use crate::text::{before_first, contains_seq, is_first_occurrence, lemma_first_occurrence_unique, occurs_at, split_before, trim, trimmed};

verus! {

broadcast use vstd::string::group_string_axioms;

/// The text that separates a project's name from its PM's name in a category title.
pub open spec fn pm_separator() -> Seq<char> {
    "(PM: "@
}

/// The shorter marker that the delete command splits a category title at.
pub open spec fn pm_marker() -> Seq<char> {
    "(PM:"@
}

/// The title of a project's category: `{project}(PM: {pm})`.
pub open spec fn category_title_of(project: Seq<char>, pm: Seq<char>) -> Seq<char> {
    project + pm_separator() + pm + ")"@
}

/// The project name that a category title stands for: the part before the
/// first `(PM: `, trimmed.
pub open spec fn project_of_title(title: Seq<char>) -> Seq<char> {
    trimmed(before_first(title, pm_separator()))
}

/// The project name as the delete command reads it: the part before the first
/// `(PM:`, trimmed.
pub open spec fn project_key_of_title(title: Seq<char>) -> Seq<char> {
    trimmed(before_first(title, pm_marker()))
}

/// Builds the category title `{project}(PM: {pm})`.
pub fn category_title(project: &str, pm: &str) -> (r: String)
    ensures
        r@ == category_title_of(project@, pm@),
{
    let mut r = project.to_owned();
    r.append("(PM: ");
    r.append(pm);
    r.append(")");
    r
}

/// The project name in a category title, split at `(PM: `.
pub fn project_of_category(title: &str) -> (r: String)
    ensures
        r@ == project_of_title(title@),
{
    let head = split_before(title, "(PM: ");
    trim(head.as_str())
}

/// The project name in a category title, split at `(PM:`.
pub fn project_key_of_category(title: &str) -> (r: String)
    ensures
        r@ == project_key_of_title(title@),
{
    let head = split_before(title, "(PM:");
    trim(head.as_str())
}

/// A category title built for a project gives the project's (trimmed) name back,
/// under both ways of reading it, provided the project's name does not itself
/// hold `(PM:`.
pub proof fn lemma_title_round_trip(project: Seq<char>, pm: Seq<char>)
    requires
        !contains_seq(project, pm_marker()),
    ensures
        project_of_title(category_title_of(project, pm)) == trimmed(project),
        project_key_of_title(category_title_of(project, pm)) == trimmed(project),
{
    reveal_strlit("(PM: ");
    reveal_strlit("(PM:");
    reveal_strlit(")");
    let s = category_title_of(project, pm);
    let p = project.len() as int;
    let sep = pm_separator();
    let mark = pm_marker();
    assert(sep.len() == 5);
    assert(mark.len() == 4);
    assert(s.subrange(p, p + 5) =~= sep);
    assert(s.subrange(p, p + 4) =~= mark);
    assert forall|j: int| 0 <= j < p implies !#[trigger] occurs_at(s, sep, j) by {
        if occurs_at(s, sep, j) {
            if j + 4 <= p {
                assert(project.subrange(j, j + 4) =~= s.subrange(j, j + 5).subrange(0, 4));
                assert(project.subrange(j, j + 4) =~= mark);
                assert(occurs_at(project, mark, j));
            } else {
                let t = p - j;
                assert(s.subrange(j, j + 5)[t] == s[p]);
                assert(s[p] == '(');
                assert(sep[t] != '(');
            }
        }
    }
    assert forall|j: int| 0 <= j < p implies !#[trigger] occurs_at(s, mark, j) by {
        if occurs_at(s, mark, j) {
            if j + 4 <= p {
                assert(project.subrange(j, j + 4) =~= s.subrange(j, j + 4));
                assert(occurs_at(project, mark, j));
            } else {
                let t = p - j;
                assert(s.subrange(j, j + 4)[t] == s[p]);
                assert(s[p] == '(');
                assert(mark[t] != '(');
            }
        }
    }
    assert(is_first_occurrence(s, sep, p));
    assert(is_first_occurrence(s, mark, p));
    let c1 = choose|i: int| #[trigger] is_first_occurrence(s, sep, i);
    lemma_first_occurrence_unique(s, sep, p, c1);
    let c2 = choose|i: int| #[trigger] is_first_occurrence(s, mark, i);
    lemma_first_occurrence_unique(s, mark, p, c2);
    assert(s.take(p) =~= project);
}

} // verus!
