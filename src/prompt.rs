//! Rendering a prompt template: every placeholder token is replaced by the diff.
use vstd::prelude::*;
use crate::text::{chars_of, matches_at, occurs_at, contains, push_all, string_of};

verus! {

broadcast use vstd::string::group_string_axioms;

/// The token of a template that stands for the diff: `{{diff}}`.
pub open spec fn placeholder() -> Seq<char> {
    seq!['{', '{', 'd', 'i', 'f', 'f', '}', '}']
}

/// `t` with each occurrence of `p` replaced by `d`, scanning from the left
/// and never looking into text that was already replaced.
pub open spec fn replace_all(t: Seq<char>, p: Seq<char>, d: Seq<char>) -> Seq<char>
    decreases t.len(),
{
    if t.len() == 0 {
        t
    } else if 0 < p.len() <= t.len() && t.subrange(0, p.len() as int) == p {
        d + replace_all(t.subrange(p.len() as int, t.len() as int), p, d)
    } else {
        seq![t[0]] + replace_all(t.subrange(1, t.len() as int), p, d)
    }
}

/// The prompt made of `template` with the diff text `diff` put in.
pub open spec fn rendered(template: Seq<char>, diff: Seq<char>) -> Seq<char> {
    replace_all(template, placeholder(), diff)
}

/// Replaces every occurrence of the placeholder token in `prompt_template`
/// with `diff`, verbatim.
pub fn generate_prompt(prompt_template: &str, diff: &str) -> (r: String)
    ensures
        r@ == rendered(prompt_template@, diff@),
{
    let t = chars_of(prompt_template);
    let d = chars_of(diff);
    let p = chars_of("{{diff}}");
    proof {
        reveal_strlit("{{diff}}");
        assert(p@ =~= placeholder());
    }
    let mut out: Vec<char> = Vec::new();
    let mut i: usize = 0;
    assert(t@.subrange(0, t@.len() as int) =~= t@);
    assert(out@ + t@ =~= t@);
    while i < t.len()
        invariant
            i <= t@.len(),
            p@ == placeholder(),
            out@ + replace_all(t@.subrange(i as int, t@.len() as int), p@, d@) == replace_all(
                t@,
                p@,
                d@,
            ),
        decreases t@.len() - i,
    {
        let ghost rest = t@.subrange(i as int, t@.len() as int);
        if matches_at(&t, &p, i) {
            assert(rest.subrange(0, p@.len() as int) =~= t@.subrange(i as int, i + p@.len()));
            assert(rest.subrange(p@.len() as int, rest.len() as int) =~= t@.subrange(
                i + p@.len(),
                t@.len() as int,
            ));
            push_all(&mut out, &d);
            i = i + p.len();
        } else {
            assert(!(0 < p@.len() <= rest.len() && rest.subrange(0, p@.len() as int) == p@)) by {
                if 0 < p@.len() <= rest.len() && rest.subrange(0, p@.len() as int) == p@ {
                    assert(t@.subrange(i as int, i + p@.len()) =~= rest.subrange(
                        0,
                        p@.len() as int,
                    ));
                }
            }
            assert(rest.subrange(1, rest.len() as int) =~= t@.subrange(i + 1, t@.len() as int));
            out.push(t[i]);
            i = i + 1;
        }
        assert(out@ + replace_all(t@.subrange(i as int, t@.len() as int), p@, d@) =~= replace_all(
            t@,
            p@,
            d@,
        ));
    }
    assert(out@ =~= replace_all(t@, p@, d@));
    string_of(&out)
}

proof fn lemma_no_occurrence(t: Seq<char>, p: Seq<char>, d: Seq<char>)
    requires
        p.len() > 0,
        !contains(t, p),
    ensures
        replace_all(t, p, d) == t,
    decreases t.len(),
{
    if t.len() > 0 {
        assert(!occurs_at(t, p, 0));
        let tail = t.subrange(1, t.len() as int);
        assert forall|j: int| !occurs_at(tail, p, j) by {
            if occurs_at(tail, p, j) {
                assert(tail.subrange(j, j + p.len()) =~= t.subrange(j + 1, j + 1 + p.len()));
                assert(occurs_at(t, p, j + 1));
            }
        }
        lemma_no_occurrence(tail, p, d);
        assert(seq![t[0]] + tail =~= t);
    }
}

proof fn lemma_unmatched_prefix(a: Seq<char>, rest: Seq<char>, p: Seq<char>, d: Seq<char>)
    requires
        p.len() > 0,
        forall|j: int| 0 <= j < a.len() ==> !occurs_at(a + rest, p, j),
    ensures
        replace_all(a + rest, p, d) == a + replace_all(rest, p, d),
    decreases a.len(),
{
    if a.len() > 0 {
        let t = a + rest;
        assert(!occurs_at(t, p, 0));
        let a2 = a.subrange(1, a.len() as int);
        assert(t.subrange(1, t.len() as int) =~= a2 + rest);
        assert forall|j: int| 0 <= j < a2.len() implies !occurs_at(a2 + rest, p, j) by {
            if occurs_at(a2 + rest, p, j) {
                assert((a2 + rest).subrange(j, j + p.len()) =~= t.subrange(j + 1, j + 1 + p.len()));
                assert(occurs_at(t, p, j + 1));
            }
        }
        lemma_unmatched_prefix(a2, rest, p, d);
        assert(seq![a[0]] + (a2 + replace_all(rest, p, d)) =~= a + replace_all(rest, p, d));
    }
}

/// A template without the placeholder token renders to itself, whatever the diff.
pub proof fn template_without_placeholder(template: Seq<char>, diff: Seq<char>)
    requires
        !contains(template, placeholder()),
    ensures
        rendered(template, diff) == template,
{
    lemma_no_occurrence(template, placeholder(), diff);
}

/// A template holding the placeholder token exactly once, at `i`, renders to
/// the text before it, the diff verbatim, and the text after it.
pub proof fn placeholder_replaced_once(template: Seq<char>, diff: Seq<char>, i: int)
    requires
        occurs_at(template, placeholder(), i),
        forall|j: int| j != i ==> !occurs_at(template, placeholder(), j),
    ensures
        rendered(template, diff) == template.subrange(0, i) + diff + template.subrange(
            i + placeholder().len(),
            template.len() as int,
        ),
{
    let p = placeholder();
    let n = template.len() as int;
    let a = template.subrange(0, i);
    let rest = template.subrange(i, n);
    let after = template.subrange(i + p.len(), n);
    assert(a + rest =~= template);
    lemma_unmatched_prefix(a, rest, p, diff);
    assert(rest.subrange(0, p.len() as int) =~= template.subrange(i, i + p.len()));
    assert(rest.subrange(p.len() as int, rest.len() as int) =~= after);
    assert forall|j: int| !occurs_at(after, p, j) by {
        if occurs_at(after, p, j) {
            assert(after.subrange(j, j + p.len()) =~= template.subrange(
                j + i + p.len(),
                j + i + p.len() + p.len(),
            ));
            assert(occurs_at(template, p, j + i + p.len()));
        }
    }
    lemma_no_occurrence(after, p, diff);
    assert(a + (diff + after) =~= a + diff + after);
}

} // verus!
