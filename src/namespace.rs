use vstd::prelude::*;
use vstd::string::*;

use crate::analyzer::{Service, ServiceView};
use crate::text::{split, split_on, str_eq, strip_prefix, without_prefix};

verus! {

/// The key by which a service is called: its location without the leading
/// `crate::`, then `::` and its name. Both the client and the dispatch table
/// use this one key.
pub open spec fn call_key(s: ServiceView) -> Seq<char> {
    strip_prefix(s.location, "crate::"@) + "::"@ + s.name
}

/// The non-empty pieces among the first `n`.
pub open spec fn nonempty_upto(pieces: Seq<Seq<char>>, n: nat) -> Seq<Seq<char>>
    decreases n,
{
    if n == 0 {
        Seq::empty()
    } else {
        let prev = nonempty_upto(pieces, (n - 1) as nat);
        if pieces[n - 1].len() == 0 {
            prev
        } else {
            prev.push(pieces[n - 1])
        }
    }
}

/// The namespace segments under which the client lists a service at `loc`:
/// the location without the leading `<base>::`, cut at `::`.
pub open spec fn client_path(loc: Seq<char>, base: Seq<char>) -> Seq<Seq<char>> {
    let pieces = split(strip_prefix(loc, base + "::"@), ':');
    nonempty_upto(pieces, pieces.len())
}

/// The call key of a service.
pub fn service_key(s: &Service) -> (r: String)
    ensures
        r@ == call_key(s@),
{
    let mut r = without_prefix(s.location.as_str(), "crate::");
    r.append("::");
    r.append(s.name.as_str());
    r
}

/// The namespace segments under which the client lists a service at `loc`.
pub fn namespace_path(loc: &str, base: &str) -> (r: Vec<String>)
    ensures
        r.deep_view() == client_path(loc@, base@),
{
    let mut prefix = String::from_str(base);
    prefix.append("::");
    let rest = without_prefix(loc, prefix.as_str());
    let pieces = split_on(rest.as_str(), ':');
    let mut out: Vec<String> = Vec::new();
    let mut i: usize = 0;
    while i < pieces.len()
        invariant
            i <= pieces.len(),
            pieces.deep_view() == split(rest@, ':'),
            rest@ == strip_prefix(loc@, base@ + "::"@),
            out.deep_view() == nonempty_upto(pieces.deep_view(), i as nat),
        decreases pieces.len() - i,
    {
        assert(pieces.deep_view()[i as int] == pieces[i as int]@);
        if pieces[i].as_str().unicode_len() > 0 {
            out.push(pieces[i].clone());
        }
        assert(out.deep_view() =~= nonempty_upto(pieces.deep_view(), (i + 1) as nat));
        i = i + 1;
    }
    out
}

/// The nodes after the first `k` prefixes of `path` are added to `nodes`,
/// each one only where it is not there yet.
pub open spec fn add_prefixes(nodes: Seq<Seq<Seq<char>>>, path: Seq<Seq<char>>, k: nat) -> Seq<
    Seq<Seq<char>>,
>
    decreases k,
{
    if k == 0 {
        nodes
    } else {
        let prev = add_prefixes(nodes, path, (k - 1) as nat);
        if prev.contains(path.take(k as int)) {
            prev
        } else {
            prev.push(path.take(k as int))
        }
    }
}

/// The namespace nodes of the first `n` paths: every non-empty prefix of
/// each path, once, in the order first met.
pub open spec fn nodes_upto(paths: Seq<Seq<Seq<char>>>, n: nat) -> Seq<Seq<Seq<char>>>
    decreases n,
{
    if n == 0 {
        Seq::empty()
    } else {
        add_prefixes(nodes_upto(paths, (n - 1) as nat), paths[n - 1], paths[n - 1].len())
    }
}

pub open spec fn namespace_nodes(paths: Seq<Seq<Seq<char>>>) -> Seq<Seq<Seq<char>>> {
    nodes_upto(paths, paths.len())
}

/// Whether `p` is a non-empty prefix of one of the first `n` paths.
pub open spec fn is_node_of(paths: Seq<Seq<Seq<char>>>, n: nat, p: Seq<Seq<char>>) -> bool {
    exists|i: int, k: int|
        0 <= i < n && 1 <= k <= paths[i].len() && p == #[trigger] paths[i].take(k)
}

proof fn lemma_push_contains(s: Seq<Seq<Seq<char>>>, t: Seq<Seq<char>>, p: Seq<Seq<char>>)
    ensures
        s.push(t).contains(p) <==> (s.contains(p) || p == t),
{
    let q = s.push(t);
    if q.contains(p) && p != t {
        let x = choose|x: int| 0 <= x < q.len() && q[x] == p;
        assert(x < s.len());
        assert(s[x] == p);
    }
    if s.contains(p) {
        let x = choose|x: int| 0 <= x < s.len() && s[x] == p;
        assert(q[x] == p);
    }
    if p == t {
        assert(q[s.len() as int] == p);
    }
}

proof fn lemma_add_prefixes(nodes: Seq<Seq<Seq<char>>>, path: Seq<Seq<char>>, k: nat)
    requires
        nodes.no_duplicates(),
        k <= path.len(),
    ensures
        add_prefixes(nodes, path, k).no_duplicates(),
        forall|p: Seq<Seq<char>>|
            #![trigger add_prefixes(nodes, path, k).contains(p)]
            add_prefixes(nodes, path, k).contains(p) <==> (nodes.contains(p) || exists|j: int|
                1 <= j <= k && p == #[trigger] path.take(j)),
    decreases k,
{
    if k > 0 {
        lemma_add_prefixes(nodes, path, (k - 1) as nat);
        let prev = add_prefixes(nodes, path, (k - 1) as nat);
        let t = path.take(k as int);
        let a = add_prefixes(nodes, path, k);
        if !prev.contains(t) {
            assert forall|x: int, y: int| 0 <= x < a.len() && 0 <= y < a.len() && x != y implies a[x]
                != a[y] by {
                if x == prev.len() {
                    assert(prev[y] == a[y]);
                } else if y == prev.len() {
                    assert(prev[x] == a[x]);
                }
            }
        }
        assert forall|p: Seq<Seq<char>>|
            #![trigger a.contains(p)]
            a.contains(p) <==> (nodes.contains(p) || exists|j: int|
                1 <= j <= k && p == #[trigger] path.take(j)) by {
            if !prev.contains(t) {
                lemma_push_contains(prev, t, p);
            }
            assert(a.contains(p) <==> (prev.contains(p) || p == t));
            if exists|j: int| 1 <= j <= k && p == #[trigger] path.take(j) {
                let j = choose|j: int| 1 <= j <= k && p == #[trigger] path.take(j);
                if j < k {
                    assert(1 <= j <= (k - 1) as nat && p == path.take(j));
                    assert(exists|j2: int| 1 <= j2 <= (k - 1) as nat && p == #[trigger] path.take(j2));
                    assert(prev.contains(p));
                }
            }
            if p == t {
                assert(p == path.take(k as int));
            }
        }
    }
}

/// The namespace nodes hold no node twice, and hold exactly the non-empty
/// prefixes of the paths.
pub proof fn lemma_nodes_upto(paths: Seq<Seq<Seq<char>>>, n: nat)
    requires
        n <= paths.len(),
    ensures
        nodes_upto(paths, n).no_duplicates(),
        forall|p: Seq<Seq<char>>| nodes_upto(paths, n).contains(p) <==> is_node_of(paths, n, p),
    decreases n,
{
    if n > 0 {
        lemma_nodes_upto(paths, (n - 1) as nat);
        let prev = nodes_upto(paths, (n - 1) as nat);
        let last = paths[n - 1];
        lemma_add_prefixes(prev, last, last.len());
        assert forall|p: Seq<Seq<char>>| nodes_upto(paths, n).contains(p) <==> is_node_of(
            paths,
            n,
            p,
        ) by {
            if nodes_upto(paths, n).contains(p) {
                if prev.contains(p) {
                    assert(is_node_of(paths, (n - 1) as nat, p));
                    let (i, k) = choose|i: int, k: int|
                        0 <= i < n - 1 && 1 <= k <= paths[i].len() && p == #[trigger] paths[i].take(
                            k,
                        );
                    assert(is_node_of(paths, n, p));
                } else {
                    let j = choose|j: int| 1 <= j <= last.len() && p == #[trigger] last.take(j);
                    assert(p == paths[n - 1].take(j));
                    assert(is_node_of(paths, n, p));
                }
            }
            if is_node_of(paths, n, p) {
                let (i, k) = choose|i: int, k: int|
                    0 <= i < n && 1 <= k <= paths[i].len() && p == #[trigger] paths[i].take(k);
                if i < n - 1 {
                    assert(is_node_of(paths, (n - 1) as nat, p));
                    assert(prev.contains(p));
                } else {
                    assert(p == last.take(k));
                }
            }
        }
    }
}

/// Two lists of segments hold the same texts.
pub fn segments_eq(a: &Vec<String>, b: &Vec<String>) -> (r: bool)
    ensures
        r == (a.deep_view() == b.deep_view()),
{
    if a.len() != b.len() {
        assert(a.deep_view().len() != b.deep_view().len());
        return false;
    }
    let mut i: usize = 0;
    while i < a.len()
        invariant
            a.len() == b.len(),
            i <= a.len(),
            forall|j: int| 0 <= j < i ==> #[trigger] a.deep_view()[j] == b.deep_view()[j],
        decreases a.len() - i,
    {
        if !str_eq(a[i].as_str(), b[i].as_str()) {
            assert(a.deep_view()[i as int] != b.deep_view()[i as int]);
            return false;
        }
        i = i + 1;
    }
    assert(a.deep_view() =~= b.deep_view());
    true
}

/// Whether `p` is one of `nodes`.
pub fn contains_node(nodes: &Vec<Vec<String>>, p: &Vec<String>) -> (r: bool)
    ensures
        r == nodes.deep_view().contains(p.deep_view()),
{
    let mut i: usize = 0;
    while i < nodes.len()
        invariant
            i <= nodes.len(),
            forall|j: int| 0 <= j < i ==> #[trigger] nodes.deep_view()[j] != p.deep_view(),
        decreases nodes.len() - i,
    {
        if segments_eq(&nodes[i], p) {
            assert(nodes.deep_view()[i as int] == p.deep_view());
            return true;
        }
        i = i + 1;
    }
    false
}

/// The first `k` segments of `path`.
pub fn take_segments(path: &Vec<String>, k: usize) -> (r: Vec<String>)
    requires
        k <= path.len(),
    ensures
        r.deep_view() == path.deep_view().take(k as int),
{
    let mut out: Vec<String> = Vec::new();
    let mut i: usize = 0;
    while i < k
        invariant
            k <= path.len(),
            i <= k,
            out.deep_view() == path.deep_view().take(i as int),
        decreases k - i,
    {
        let ghost before = out.deep_view();
        assert(path.deep_view()[i as int] == path[i as int]@);
        out.push(path[i].clone());
        assert(out.deep_view() =~= before.push(path[i as int]@));
        assert(out.deep_view() =~= path.deep_view().take(i + 1));
        i = i + 1;
    }
    out
}

/// The namespace nodes of `paths`: every non-empty prefix of each path, once,
/// in the order first met.
pub fn build_nodes(paths: &Vec<Vec<String>>) -> (r: Vec<Vec<String>>)
    ensures
        r.deep_view() == namespace_nodes(paths.deep_view()),
{
    let mut nodes: Vec<Vec<String>> = Vec::new();
    let mut i: usize = 0;
    assert(nodes.deep_view() =~= nodes_upto(paths.deep_view(), 0));
    while i < paths.len()
        invariant
            i <= paths.len(),
            nodes.deep_view() == nodes_upto(paths.deep_view(), i as nat),
        decreases paths.len() - i,
    {
        let path = &paths[i];
        assert(paths.deep_view()[i as int] == path.deep_view());
        let ghost start = nodes.deep_view();
        let mut k: usize = 0;
        while k < path.len()
            invariant
                i < paths.len(),
                path == &paths[i as int],
                k <= path.len(),
                nodes.deep_view() == add_prefixes(start, path.deep_view(), k as nat),
            decreases path.len() - k,
        {
            let p = take_segments(path, k + 1);
            if !contains_node(&nodes, &p) {
                nodes.push(p);
            }
            assert(nodes.deep_view() =~= add_prefixes(start, path.deep_view(), (k + 1) as nat));
            k = k + 1;
        }
        i = i + 1;
    }
    nodes
}

} // verus!
