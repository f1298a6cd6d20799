//! Cleaning a model's raw reply into a commit message.
use vstd::prelude::*;
use crate::error::SummarizeError;
use crate::text::{
    chars_of, contains, contains_text, is_space, lower_of, lowercase, push_all, char_is_space,
    string_of,
};

verus! {

broadcast use vstd::string::group_string_axioms;

/// The lines of `s`: the pieces between newline characters, in order.
/// A text without a newline is one line; the empty text is one empty line.
pub open spec fn split_lines(s: Seq<char>) -> Seq<Seq<char>>
    decreases s.len(),
{
    if s.len() == 0 {
        seq![Seq::empty()]
    } else {
        let prev = split_lines(s.drop_last());
        if s.last() == '\n' {
            prev.push(Seq::empty())
        } else {
            prev.update(prev.len() - 1, prev.last().push(s.last()))
        }
    }
}

/// `l` without its leading whitespace.
pub open spec fn trim_start(l: Seq<char>) -> Seq<char>
    decreases l.len(),
{
    if l.len() > 0 && is_space(l[0]) {
        trim_start(l.subrange(1, l.len() as int))
    } else {
        l
    }
}

/// `l` without its trailing whitespace.
pub open spec fn trim_end(l: Seq<char>) -> Seq<char>
    decreases l.len(),
{
    if l.len() > 0 && is_space(l.last()) {
        trim_end(l.drop_last())
    } else {
        l
    }
}

/// `l` without leading or trailing whitespace.
pub open spec fn trim(l: Seq<char>) -> Seq<char> {
    trim_end(trim_start(l))
}

/// The marker of an echoed instruction: `diff to analyze`.
pub open spec fn marker_analyze() -> Seq<char> {
    seq!['d', 'i', 'f', 'f', ' ', 't', 'o', ' ', 'a', 'n', 'a', 'l', 'y', 'z', 'e']
}

/// The marker of an echoed input header: `input diff`.
pub open spec fn marker_input() -> Seq<char> {
    seq!['i', 'n', 'p', 'u', 't', ' ', 'd', 'i', 'f', 'f']
}

/// Whether a line echoes the instructions: its lowercase form holds a marker.
pub open spec fn is_boilerplate(l: Seq<char>) -> bool {
    contains(lower_of(l), marker_analyze()) || contains(lower_of(l), marker_input())
}

/// Whether a trimmed line stays in the message.
pub open spec fn keeps(l: Seq<char>) -> bool {
    l.len() > 0 && !is_boilerplate(l)
}

/// The trimmed forms of `ls` that stay in the message, in order.
pub open spec fn kept_lines(ls: Seq<Seq<char>>) -> Seq<Seq<char>>
    decreases ls.len(),
{
    if ls.len() == 0 {
        Seq::empty()
    } else {
        let k = kept_lines(ls.drop_last());
        let t = trim(ls.last());
        if keeps(t) {
            k.push(t)
        } else {
            k
        }
    }
}

/// The lines `ls` joined with newline characters between them.
pub open spec fn join_lines(ls: Seq<Seq<char>>) -> Seq<char>
    decreases ls.len(),
{
    if ls.len() == 0 {
        Seq::empty()
    } else if ls.len() == 1 {
        ls[0]
    } else {
        join_lines(ls.drop_last()) + seq!['\n'] + ls.last()
    }
}

/// The cleaned form of a raw reply: its lines trimmed, the empty and the
/// echoed ones dropped, the rest joined by newlines.
pub open spec fn sanitized(raw: Seq<char>) -> Seq<char> {
    join_lines(kept_lines(split_lines(raw)))
}

/// Cleans a raw reply into a commit message; fails where nothing is left.
pub fn sanitize_response(raw: &str) -> (r: Result<String, SummarizeError>)
    ensures
        match r {
            Ok(m) => m@ == sanitized(raw@) && m@.len() > 0,
            Err(e) => e == SummarizeError::EmptyGeneration && sanitized(raw@).len() == 0,
        },
{
    let s = chars_of(raw);
    let mut out: Vec<char> = Vec::new();
    let mut cur: Vec<char> = Vec::new();
    let mut any: bool = false;
    let ghost mut done: Seq<Seq<char>> = Seq::empty();
    let mut i: usize = 0;
    while i < s.len()
        invariant
            i <= s@.len(),
            split_lines(s@.subrange(0, i as int)) == done.push(cur@),
            out@ == join_lines(kept_lines(done)),
            any == (kept_lines(done).len() > 0),
        decreases s@.len() - i,
    {
        let c = s[i];
        proof {
            assert(s@.subrange(0, i + 1).drop_last() =~= s@.subrange(0, i as int));
        }
        if c == '\n' {
            append_kept(&mut out, &mut any, &cur, Ghost(done));
            proof {
                done = done.push(cur@);
            }
            cur = Vec::new();
        } else {
            let ghost before = cur@;
            cur.push(c);
            assert(done.push(before).update(done.len() as int, before.push(c)) =~= done.push(cur@));
        }
        i = i + 1;
    }
    assert(s@.subrange(0, s@.len() as int) =~= s@);
    append_kept(&mut out, &mut any, &cur, Ghost(done));
    proof {
        lemma_kept_lines_kept(done.push(cur@));
        lemma_join_empty(kept_lines(done.push(cur@)));
    }
    if out.len() == 0 {
        Err(SummarizeError::EmptyGeneration)
    } else {
        Ok(string_of(&out))
    }
}

proof fn lemma_kept_lines_kept(ls: Seq<Seq<char>>)
    ensures
        forall|i: int|
            0 <= i < kept_lines(ls).len() ==> #[trigger] keeps(kept_lines(ls)[i]),
    decreases ls.len(),
{
    if ls.len() > 0 {
        lemma_kept_lines_kept(ls.drop_last());
        let k = kept_lines(ls.drop_last());
        let t = trim(ls.last());
        if keeps(t) {
            assert forall|i: int| 0 <= i < k.push(t).len() implies #[trigger] keeps(k.push(t)[i]) by {
                if i < k.len() {
                    assert(k.push(t)[i] == k[i]);
                }
            }
        }
    }
}

proof fn lemma_join_empty(ls: Seq<Seq<char>>)
    requires
        forall|i: int| 0 <= i < ls.len() ==> #[trigger] keeps(ls[i]),
    ensures
        (join_lines(ls).len() == 0) == (ls.len() == 0),
    decreases ls.len(),
{
    if ls.len() > 0 {
        assert(keeps(ls[ls.len() - 1]));
    }
    if ls.len() > 1 {
        assert forall|i: int| 0 <= i < ls.drop_last().len() implies #[trigger] keeps(
            ls.drop_last()[i],
        ) by {
            assert(ls.drop_last()[i] == ls[i]);
        }
        lemma_join_empty(ls.drop_last());
    }
}

/// Adds the trimmed form of `line` to the message built so far, when it stays.
fn append_kept(out: &mut Vec<char>, any: &mut bool, line: &Vec<char>, done: Ghost<Seq<Seq<char>>>)
    requires
        old(out)@ == join_lines(kept_lines(done@)),
        *old(any) == (kept_lines(done@).len() > 0),
    ensures
        final(out)@ == join_lines(kept_lines(done@.push(line@))),
        *final(any) == (kept_lines(done@.push(line@)).len() > 0),
{
    assert(done@.push(line@).drop_last() =~= done@);
    let t = trim_line(line);
    if keeps_line(&t) {
        if *any {
            out.push('\n');
        }
        push_all(out, &t);
        *any = true;
        proof {
            let k = kept_lines(done@);
            assert(k.push(t@).drop_last() =~= k);
            if k.len() == 0 {
                assert(out@ =~= k.push(t@)[0]);
            }
        }
    }
}

/// `line` without leading or trailing whitespace.
fn trim_line(line: &Vec<char>) -> (r: Vec<char>)
    ensures
        r@ == trim(line@),
{
    let n = line.len();
    let mut a: usize = 0;
    assert(line@.subrange(0, n as int) =~= line@);
    while a < n && char_is_space(line[a])
        invariant
            a <= n,
            n == line@.len(),
            trim_start(line@) == trim_start(line@.subrange(a as int, n as int)),
        decreases n - a,
    {
        assert(line@.subrange(a + 1, n as int) =~= line@.subrange(a as int, n as int).subrange(
            1,
            (n - a) as int,
        ));
        a = a + 1;
    }
    assert(trim_start(line@) == line@.subrange(a as int, n as int));
    let mut b: usize = n;
    while b > a && char_is_space(line[b - 1])
        invariant
            a <= b <= n,
            n == line@.len(),
            trim_end(line@.subrange(a as int, n as int)) == trim_end(
                line@.subrange(a as int, b as int),
            ),
        decreases b,
    {
        assert(line@.subrange(a as int, b - 1) =~= line@.subrange(a as int, b as int).drop_last());
        b = b - 1;
    }
    let mut r: Vec<char> = Vec::new();
    let mut k: usize = a;
    while k < b
        invariant
            a <= k <= b <= n,
            n == line@.len(),
            r@ == line@.subrange(a as int, k as int),
        decreases b - k,
    {
        r.push(line[k]);
        k = k + 1;
        assert(r@ =~= line@.subrange(a as int, k as int));
    }
    r
}

/// Whether a trimmed line stays in the message.
fn keeps_line(t: &Vec<char>) -> (r: bool)
    ensures
        r == keeps(t@),
{
    if t.len() == 0 {
        return false;
    }
    let lower = chars_of(&lowercase(&string_of(t)));
    let analyze = chars_of("diff to analyze");
    let input = chars_of("input diff");
    proof {
        reveal_strlit("diff to analyze");
        reveal_strlit("input diff");
        assert(analyze@ =~= marker_analyze());
        assert(input@ =~= marker_input());
    }
    !contains_text(&lower, &analyze) && !contains_text(&lower, &input)
}

/// Whether `l` holds no newline character.
pub open spec fn single_line(l: Seq<char>) -> bool {
    forall|j: int| 0 <= j < l.len() ==> l[j] != '\n'
}

proof fn lemma_split_lines(s: Seq<char>)
    ensures
        split_lines(s).len() >= 1,
        forall|i: int| 0 <= i < split_lines(s).len() ==> single_line(#[trigger] split_lines(s)[i]),
        single_line(s) ==> split_lines(s) == seq![s],
    decreases s.len(),
{
    if s.len() == 0 {
        assert(s =~= Seq::<char>::empty());
    } else {
        let prev = split_lines(s.drop_last());
        lemma_split_lines(s.drop_last());
        if s.last() != '\n' {
            let cur = split_lines(s);
            assert forall|i: int| 0 <= i < cur.len() implies single_line(#[trigger] cur[i]) by {
                if i < prev.len() - 1 {
                    assert(cur[i] == prev[i]);
                } else {
                    assert(single_line(prev[i]));
                    assert(cur[i] == prev[i].push(s.last()));
                }
            }
            if single_line(s) {
                assert(single_line(s.drop_last()));
                assert(s.drop_last().push(s.last()) =~= s);
                assert(cur =~= seq![s]);
            }
        } else {
            assert(!single_line(s)) by {
                assert(s[s.len() - 1] == '\n');
            }
            let cur = split_lines(s);
            assert forall|i: int| 0 <= i < cur.len() implies single_line(#[trigger] cur[i]) by {
                if i < prev.len() {
                    assert(cur[i] == prev[i]);
                }
            }
        }
    }
}

proof fn lemma_split_concat(a: Seq<char>, b: Seq<char>)
    ensures
        split_lines(a + seq!['\n'] + b) == split_lines(a) + split_lines(b),
    decreases b.len(),
{
    let whole = a + seq!['\n'] + b;
    if b.len() == 0 {
        assert(whole.drop_last() =~= a);
        assert(split_lines(a).push(Seq::empty()) =~= split_lines(a) + split_lines(b));
    } else {
        let b2 = b.drop_last();
        assert(whole.drop_last() =~= a + seq!['\n'] + b2);
        lemma_split_concat(a, b2);
        lemma_split_lines(b2);
        lemma_split_lines(a);
        let pa = split_lines(a);
        let pb = split_lines(b2);
        if b.last() == '\n' {
            assert((pa + pb).push(Seq::empty()) =~= pa + pb.push(Seq::empty()));
        } else {
            let prev = pa + pb;
            assert(prev.last() == pb.last());
            assert(prev.update(prev.len() - 1, prev.last().push(b.last())) =~= pa + pb.update(
                pb.len() - 1,
                pb.last().push(b.last()),
            ));
        }
    }
}

proof fn lemma_split_join(ls: Seq<Seq<char>>)
    requires
        ls.len() > 0,
        forall|i: int| 0 <= i < ls.len() ==> single_line(#[trigger] ls[i]),
    ensures
        split_lines(join_lines(ls)) == ls,
    decreases ls.len(),
{
    lemma_split_lines(ls.last());
    if ls.len() == 1 {
        assert(ls =~= seq![ls[0]]);
    } else {
        let init = ls.drop_last();
        assert forall|i: int| 0 <= i < init.len() implies single_line(#[trigger] init[i]) by {
            assert(init[i] == ls[i]);
        }
        lemma_split_join(init);
        lemma_split_concat(join_lines(init), ls.last());
        assert(init + seq![ls.last()] =~= ls);
    }
}

proof fn lemma_trim(l: Seq<char>)
    ensures
        trim_start(l).len() <= l.len(),
        trim_start(l) == l.subrange(l.len() - trim_start(l).len(), l.len() as int),
        trim_start(l).len() > 0 ==> !is_space(trim_start(l)[0]),
        trim_end(l).len() <= l.len(),
        trim_end(l) == l.subrange(0, trim_end(l).len() as int),
        trim_end(l).len() > 0 ==> !is_space(trim_end(l).last()),
    decreases l.len(),
{
    assert(l.subrange(0, l.len() as int) =~= l);
    assert(l.subrange(l.len() - l.len(), l.len() as int) =~= l);
    if l.len() > 0 {
        if is_space(l[0]) {
            let t = l.subrange(1, l.len() as int);
            lemma_trim(t);
            let ts = trim_start(t);
            assert(t.subrange(t.len() - ts.len(), t.len() as int) =~= l.subrange(
                l.len() - ts.len(),
                l.len() as int,
            ));
        }
        if is_space(l.last()) {
            let d = l.drop_last();
            lemma_trim(d);
            let te = trim_end(d);
            assert(d.subrange(0, te.len() as int) =~= l.subrange(0, te.len() as int));
        }
    }
}

proof fn lemma_trim_fixed(l: Seq<char>)
    ensures
        trim(trim(l)) == trim(l),
        single_line(l) ==> single_line(trim(l)),
{
    let ts = trim_start(l);
    let r = trim_end(ts);
    lemma_trim(l);
    lemma_trim(ts);
    if r.len() > 0 {
        assert(r[0] == ts[0]);
        assert(trim_start(r) == r);
        lemma_trim(r);
        assert(trim_end(r) == r);
    }
    if single_line(l) {
        assert forall|j: int| 0 <= j < r.len() implies r[j] != '\n' by {
            assert(r[j] == ts[j]);
            assert(ts[j] == l[l.len() - ts.len() + j]);
        }
    }
}

proof fn lemma_kept_fixed(ls: Seq<Seq<char>>)
    ensures
        forall|i: int|
            0 <= i < kept_lines(ls).len() ==> trim(#[trigger] kept_lines(ls)[i]) == kept_lines(
                ls,
            )[i],
        (forall|i: int| 0 <= i < ls.len() ==> single_line(#[trigger] ls[i])) ==> forall|i: int|
            0 <= i < kept_lines(ls).len() ==> single_line(#[trigger] kept_lines(ls)[i]),
    decreases ls.len(),
{
    if ls.len() > 0 {
        let init = ls.drop_last();
        lemma_kept_fixed(init);
        lemma_trim_fixed(ls.last());
        if forall|i: int| 0 <= i < ls.len() ==> single_line(#[trigger] ls[i]) {
            assert forall|i: int| 0 <= i < init.len() implies single_line(#[trigger] init[i]) by {
                assert(init[i] == ls[i]);
            }
            assert(single_line(ls[ls.len() - 1]));
        }
        let k = kept_lines(init);
        let t = trim(ls.last());
        if keeps(t) {
            assert forall|i: int| 0 <= i < k.push(t).len() implies trim(#[trigger] k.push(t)[i])
                == k.push(t)[i] by {
                if i < k.len() {
                    assert(k.push(t)[i] == k[i]);
                }
            }
        }
    }
}

proof fn lemma_kept_of_clean(ls: Seq<Seq<char>>)
    requires
        forall|i: int| 0 <= i < ls.len() ==> #[trigger] keeps(ls[i]) && trim(ls[i]) == ls[i],
    ensures
        kept_lines(ls) == ls,
    decreases ls.len(),
{
    if ls.len() > 0 {
        let init = ls.drop_last();
        assert forall|i: int| 0 <= i < init.len() implies #[trigger] keeps(init[i]) && trim(init[i])
            == init[i] by {
            assert(init[i] == ls[i]);
        }
        lemma_kept_of_clean(init);
        assert(keeps(ls[ls.len() - 1]));
        assert(init.push(ls.last()) =~= ls);
    }
}

/// Cleaning is idempotent: a cleaned reply is left as it is by a second cleaning.
pub proof fn sanitize_idempotent(raw: Seq<char>)
    ensures
        sanitized(sanitized(raw)) == sanitized(raw),
{
    let ls = split_lines(raw);
    let k = kept_lines(ls);
    lemma_split_lines(raw);
    lemma_kept_fixed(ls);
    lemma_kept_lines_kept(ls);
    if k.len() == 0 {
        assert(split_lines(Seq::<char>::empty()) =~= seq![Seq::<char>::empty()]);
        let e = seq![Seq::<char>::empty()];
        assert(e.drop_last() =~= Seq::<Seq<char>>::empty());
        assert(trim_start(Seq::<char>::empty()) == Seq::<char>::empty());
        assert(trim_end(Seq::<char>::empty()) == Seq::<char>::empty());
        assert(e.last() == Seq::<char>::empty());
        assert(trim(e.last()) == Seq::<char>::empty());
        assert(!keeps(trim(e.last())));
        assert(kept_lines(e.drop_last()) =~= Seq::<Seq<char>>::empty());
        assert(kept_lines(e) =~= Seq::<Seq<char>>::empty());
    } else {
        lemma_split_join(k);
        lemma_kept_of_clean(k);
    }
}

/// A reply made only of blank lines and lines that echo the instructions
/// cleans to nothing, so `sanitize_response` fails on it.
pub proof fn boilerplate_only_is_empty(raw: Seq<char>)
    requires
        forall|i: int|
            0 <= i < split_lines(raw).len() ==> trim(#[trigger] split_lines(raw)[i]).len() == 0
                || is_boilerplate(trim(split_lines(raw)[i])),
    ensures
        sanitized(raw).len() == 0,
{
    lemma_nothing_kept(split_lines(raw));
}

proof fn lemma_nothing_kept(ls: Seq<Seq<char>>)
    requires
        forall|i: int| 0 <= i < ls.len() ==> !keeps(trim(#[trigger] ls[i])),
    ensures
        kept_lines(ls).len() == 0,
    decreases ls.len(),
{
    if ls.len() > 0 {
        let init = ls.drop_last();
        assert forall|i: int| 0 <= i < init.len() implies !keeps(trim(#[trigger] init[i])) by {
            assert(init[i] == ls[i]);
        }
        lemma_nothing_kept(init);
        assert(!keeps(trim(ls[ls.len() - 1])));
    }
}

} // verus!
