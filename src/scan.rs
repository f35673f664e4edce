use vstd::prelude::*;
use vstd::string::*;

verus! {

/// Whether `path` matches the glob pattern `glob`, as glob_match decides it.
pub uninterp spec fn glob_matches(glob: Seq<char>, path: Seq<char>) -> bool;

/// Relies on glob_match::glob_match: whether a path matches a glob, which
/// depends on the two texts alone (an invalid pattern matches nothing; the
/// function does not panic).
#[verifier::external_body]
fn path_matches(glob: &str, path: &str) -> (r: bool)
    ensures
        r == glob_matches(glob@, path@),
{
    glob_match::glob_match(glob, path)
}

/// Lexicographic order of texts by character code: `a` comes first, or the
/// two are equal.
pub open spec fn text_le(a: Seq<char>, b: Seq<char>) -> bool
    decreases a.len(),
{
    if a.len() == 0 {
        true
    } else if b.len() == 0 {
        false
    } else if (a[0] as u32) != (b[0] as u32) {
        (a[0] as u32) < (b[0] as u32)
    } else {
        text_le(a.drop_first(), b.drop_first())
    }
}

pub proof fn lemma_text_le_total(a: Seq<char>, b: Seq<char>)
    ensures
        text_le(a, b) || text_le(b, a),
    decreases a.len(),
{
    if a.len() > 0 && b.len() > 0 && (a[0] as u32) == (b[0] as u32) {
        lemma_text_le_total(a.drop_first(), b.drop_first());
    }
}

pub proof fn lemma_text_le_transitive(a: Seq<char>, b: Seq<char>, c: Seq<char>)
    requires
        text_le(a, b),
        text_le(b, c),
    ensures
        text_le(a, c),
    decreases a.len(),
{
    if a.len() > 0 && b.len() > 0 && c.len() > 0 && (a[0] as u32) == (b[0] as u32) && (b[0] as u32)
        == (c[0] as u32) {
        lemma_text_le_transitive(a.drop_first(), b.drop_first(), c.drop_first());
    }
}

/// Whether `a` comes before `b`, or equals it.
pub fn text_leq(a: &str, b: &str) -> (r: bool)
    ensures
        r == text_le(a@, b@),
{
    let n = a.unicode_len();
    let m = b.unicode_len();
    let mut i: usize = 0;
    assert(a@.skip(0) =~= a@);
    assert(b@.skip(0) =~= b@);
    while i < n && i < m
        invariant
            n == a@.len(),
            m == b@.len(),
            i <= n,
            i <= m,
            text_le(a@, b@) == text_le(a@.skip(i as int), b@.skip(i as int)),
        decreases n - i,
    {
        let x = a.get_char(i);
        let y = b.get_char(i);
        assert(a@.skip(i as int)[0] == x);
        assert(b@.skip(i as int)[0] == y);
        if (x as u32) != (y as u32) {
            return (x as u32) < (y as u32);
        }
        assert(a@.skip(i as int).drop_first() =~= a@.skip(i + 1));
        assert(b@.skip(i as int).drop_first() =~= b@.skip(i + 1));
        i = i + 1;
    }
    i == n
}

/// Whether the texts stand in order.
pub open spec fn sorted_texts(s: Seq<Seq<char>>) -> bool {
    forall|i: int, j: int| 0 <= i < j < s.len() ==> text_le(#[trigger] s[i], #[trigger] s[j])
}

/// The texts put in order.
pub fn sort_texts(v: Vec<String>) -> (r: Vec<String>)
    ensures
        sorted_texts(r.deep_view()),
        r.deep_view().to_multiset() == v.deep_view().to_multiset(),
{
    let mut out: Vec<String> = Vec::new();
    let mut i: usize = 0;
    assert(v.deep_view().take(0) =~= Seq::<Seq<char>>::empty());
    assert(out.deep_view() =~= Seq::<Seq<char>>::empty());
    while i < v.len()
        invariant
            i <= v.len(),
            sorted_texts(out.deep_view()),
            out.deep_view().to_multiset() == v.deep_view().take(i as int).to_multiset(),
        decreases v.len() - i,
    {
        let x = v[i].clone();
        assert(v.deep_view()[i as int] == x@);
        let mut pos: usize = 0;
        while pos < out.len() && text_leq(out[pos].as_str(), x.as_str())
            invariant
                pos <= out.len(),
                forall|k: int| 0 <= k < pos ==> text_le(#[trigger] out.deep_view()[k], x@),
            decreases out.len() - pos,
        {
            assert(out.deep_view()[pos as int] == out[pos as int]@);
            pos = pos + 1;
        }
        let ghost before = out.deep_view();
        proof {
            if pos < out.len() {
                assert(out.deep_view()[pos as int] == out[pos as int]@);
                assert(!text_le(before[pos as int], x@));
                lemma_text_le_total(before[pos as int], x@);
            }
        }
        out.insert(pos, x);
        let ghost after = out.deep_view();
        assert(after =~= before.insert(pos as int, x@));
        assert forall|a: int, b: int| 0 <= a < b < after.len() implies text_le(
            #[trigger] after[a],
            #[trigger] after[b],
        ) by {
            if b < pos {
                assert(after[a] == before[a] && after[b] == before[b]);
            } else if b == pos {
                assert(after[a] == before[a]);
            } else if a == pos {
                assert(after[b] == before[b - 1]);
                if b - 1 > pos {
                    lemma_text_le_transitive(x@, before[pos as int], before[b - 1]);
                }
            } else if a < pos {
                assert(after[a] == before[a] && after[b] == before[b - 1]);
            } else {
                assert(after[a] == before[a - 1] && after[b] == before[b - 1]);
            }
        }
        assert(after.remove(pos as int) =~= before);
        assert(after[pos as int] == x@);
        proof {
            after.to_multiset_ensures();
        }
        assert(after.remove(pos as int).to_multiset() == after.to_multiset().remove(after[pos as int]));
        assert(after.contains(x@));
        assert(after.to_multiset().count(x@) > 0);
        assert(after.to_multiset() =~= before.to_multiset().insert(x@));
        assert(v.deep_view().take(i + 1) =~= v.deep_view().take(i as int).push(x@));
        proof {
            v.deep_view().take(i as int).to_multiset_ensures();
        }
        i = i + 1;
    }
    assert(v.deep_view().take(v.len() as int) =~= v.deep_view());
    out
}

/// The files among `paths` whose path matches `glob`, in order.
pub fn select_files(paths: Vec<String>, glob: &str) -> (r: Vec<String>)
    ensures
        sorted_texts(r.deep_view()),
        r.deep_view().to_multiset() == paths.deep_view().filter(|p: Seq<char>| glob_matches(glob@, p)).to_multiset(),
{
    let mut kept: Vec<String> = Vec::new();
    let mut i: usize = 0;
    while i < paths.len()
        invariant
            i <= paths.len(),
            kept.deep_view() == paths.deep_view().take(i as int).filter(|p: Seq<char>| glob_matches(glob@, p)),
        decreases paths.len() - i,
    {
        let ghost before = kept.deep_view();
        assert(paths.deep_view()[i as int] == paths[i as int]@);
        assert(paths.deep_view().take(i + 1).drop_last() =~= paths.deep_view().take(i as int));
        reveal(Seq::filter);
        if path_matches(glob, paths[i].as_str()) {
            kept.push(paths[i].clone());
            assert(kept.deep_view() =~= before.push(paths[i as int]@));
        }
        i = i + 1;
    }
    assert(paths.deep_view().take(paths.len() as int) =~= paths.deep_view());
    sort_texts(kept)
}

pub proof fn lemma_text_le_antisymmetric(a: Seq<char>, b: Seq<char>)
    requires
        text_le(a, b),
        text_le(b, a),
    ensures
        a == b,
    decreases a.len(),
{
    if a.len() > 0 && b.len() > 0 {
        if (a[0] as u32) == (b[0] as u32) {
            lemma_text_le_antisymmetric(a.drop_first(), b.drop_first());
            lemma_char_code_injective(a[0], b[0]);
            assert(a =~= seq![a[0]] + a.drop_first());
            assert(b =~= seq![b[0]] + b.drop_first());
        }
    } else {
        assert(a =~= b);
    }
}

proof fn lemma_char_code_injective(c1: char, c2: char)
    requires
        (c1 as u32) == (c2 as u32),
    ensures
        c1 == c2,
{
}

pub proof fn lemma_text_le_reflexive(a: Seq<char>)
    ensures
        text_le(a, a),
    decreases a.len(),
{
    if a.len() > 0 {
        lemma_text_le_reflexive(a.drop_first());
    }
}

/// Two ordered lists of the same texts are the same list: the order in which
/// the directory walk finds the files does not show in the files selected.
pub proof fn lemma_sorted_unique(a: Seq<Seq<char>>, b: Seq<Seq<char>>)
    requires
        sorted_texts(a),
        sorted_texts(b),
        a.to_multiset() == b.to_multiset(),
    ensures
        a == b,
    decreases a.len(),
{
    a.to_multiset_ensures();
    b.to_multiset_ensures();
    if a.len() == 0 {
        assert(b.len() == 0);
        assert(a =~= b);
    } else {
        assert(b.len() == a.len());
        assert(a.contains(a[0]));
        assert(b.to_multiset().count(a[0]) > 0);
        assert(b.contains(a[0]));
        let j = choose|j: int| 0 <= j < b.len() && b[j] == a[0];
        assert(b.contains(b[0]));
        assert(a.to_multiset().count(b[0]) > 0);
        assert(a.contains(b[0]));
        let i = choose|i: int| 0 <= i < a.len() && a[i] == b[0];
        lemma_text_le_reflexive(a[0]);
        lemma_text_le_reflexive(b[0]);
        if j > 0 {
            assert(text_le(b[0], b[j]));
        }
        if i > 0 {
            assert(text_le(a[0], a[i]));
        }
        lemma_text_le_antisymmetric(a[0], b[0]);
        assert(a.remove(0) =~= a.drop_first());
        assert(b.remove(0) =~= b.drop_first());
        assert(a.drop_first().to_multiset() == b.drop_first().to_multiset());
        lemma_sorted_unique(a.drop_first(), b.drop_first());
        assert(a =~= seq![a[0]] + a.drop_first());
        assert(b =~= seq![b[0]] + b.drop_first());
    }
}

proof fn lemma_filter_count(s: Seq<Seq<char>>, glob: Seq<char>, x: Seq<char>)
    ensures
        s.filter(|p: Seq<char>| glob_matches(glob, p)).to_multiset().count(x) == if glob_matches(
            glob,
            x,
        ) {
            s.to_multiset().count(x)
        } else {
            0
        },
    decreases s.len(),
{
    reveal(Seq::filter);
    s.to_multiset_ensures();
    if s.len() > 0 {
        let init = s.drop_last();
        lemma_filter_count(init, glob, x);
        init.to_multiset_ensures();
        let f = init.filter(|p: Seq<char>| glob_matches(glob, p));
        f.to_multiset_ensures();
        assert(s =~= init.push(s.last()));
    } else {
        assert(s.filter(|p: Seq<char>| glob_matches(glob, p)) =~= Seq::<Seq<char>>::empty());
        Seq::<Seq<char>>::empty().to_multiset_ensures();
    }
}

/// Running the selection twice on the same files gives the same list, in
/// whatever order the directory walk found them each time.
pub proof fn lemma_selection_reproducible(
    found1: Seq<Seq<char>>,
    found2: Seq<Seq<char>>,
    glob: Seq<char>,
    r1: Seq<Seq<char>>,
    r2: Seq<Seq<char>>,
)
    requires
        found1.to_multiset() == found2.to_multiset(),
        sorted_texts(r1),
        sorted_texts(r2),
        r1.to_multiset() == found1.filter(|p: Seq<char>| glob_matches(glob, p)).to_multiset(),
        r2.to_multiset() == found2.filter(|p: Seq<char>| glob_matches(glob, p)).to_multiset(),
    ensures
        r1 == r2,
{
    assert forall|x: Seq<char>| r1.to_multiset().count(x) == r2.to_multiset().count(x) by {
        lemma_filter_count(found1, glob, x);
        lemma_filter_count(found2, glob, x);
    }
    assert(r1.to_multiset() =~= r2.to_multiset());
    lemma_sorted_unique(r1, r2);
}

} // verus!
