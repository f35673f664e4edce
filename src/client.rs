use vstd::prelude::*;
use vstd::string::*;

use crate::analyzer::{messages_view, services_view, AnalyzeResult, Message, MessageView, Service, ServiceView};
use crate::namespace::{
    build_nodes, call_key, client_path, is_node_of, lemma_nodes_upto, namespace_nodes,
    namespace_path, segments_eq, service_key,
};
use crate::text::{has_prefix, join, join_strings, starts_with};

verus! {

/// The location of the service that serves the generated client itself.
pub const INTROSPECTION_NAMESPACE: &'static str = "machinery_introspection";

/// The fixed start of every client: the transport interface, the envelope
/// unwrapper and the aliases of the primitive and container types.
pub const HEADER: &'static str = "
export interface Transport {
\tsend(fn: string, args: string): Promise<string>;
}

function handleResult(result: string) {
\tconst json = JSON.parse(result);
\tif (json.error) {
\t\tthrow new Error(json.error);
\t}
\treturn json.result;
}

export type Option<T> = T | undefined;
export type Result<T> = T;
export type Vec<T> = T[];

export type String = string;
export type Void = void;

export type u8 = number;
export type u16 = number;
export type u32 = number;
export type u64 = number;
export type usize = number;

export type i8 = number;
export type i16 = number;
export type i32 = number;
export type i64 = number;
export type isize = number;

export type f32 = number;
export type f64 = number;

export type bool = boolean;
";

/// Whether the client lists a service: all but the introspection service, and
/// that one too where introspection is on.
pub open spec fn listed(s: ServiceView, introspection: bool) -> bool {
    introspection || !has_prefix(s.location, INTROSPECTION_NAMESPACE@)
}

pub open spec fn param_text(a: (Seq<char>, Seq<char>)) -> Seq<char> {
    a.0 + ": "@ + a.1
}

pub open spec fn call_arg_text(a: (Seq<char>, Seq<char>)) -> Seq<char> {
    a.0 + " ?? null"@
}

/// The start of the client's function for a service, up to the call key.
pub open spec fn leaf_head(s: ServiceView) -> Seq<char> {
    "async "@ + s.name + "("@ + join(s.arguments.map_values(|a: (Seq<char>, Seq<char>)| param_text(a)), ", "@)
        + "): Promise<"@ + s.return_type + "> { return handleResult(await transport.send(\""@
}

/// The rest of the client's function for a service, after the call key.
pub open spec fn leaf_tail(s: ServiceView) -> Seq<char> {
    "\", JSON.stringify(["@ + join(
        s.arguments.map_values(|a: (Seq<char>, Seq<char>)| call_arg_text(a)),
        ", "@,
    ) + "]))); },\n"@
}

/// The client's function for a service: it sends the call key and the
/// arguments as a JSON array, and unwraps the envelope that comes back.
pub open spec fn leaf_text(s: ServiceView) -> Seq<char> {
    leaf_head(s) + call_key(s) + leaf_tail(s)
}

/// The namespace paths of the listed services among the first `n`.
pub open spec fn listed_paths(svcs: Seq<ServiceView>, base: Seq<char>, introspection: bool, n: nat) -> Seq<
    Seq<Seq<char>>,
>
    decreases n,
{
    if n == 0 {
        Seq::empty()
    } else {
        let prev = listed_paths(svcs, base, introspection, (n - 1) as nat);
        if listed(svcs[n - 1], introspection) {
            prev.push(client_path(svcs[n - 1].location, base))
        } else {
            prev
        }
    }
}

/// The functions, among the first `n` services, that stand right at `path`.
pub open spec fn leaves_text(
    svcs: Seq<ServiceView>,
    base: Seq<char>,
    introspection: bool,
    path: Seq<Seq<char>>,
    n: nat,
) -> Seq<char>
    decreases n,
{
    if n == 0 {
        Seq::empty()
    } else {
        let prev = leaves_text(svcs, base, introspection, path, (n - 1) as nat);
        let s = svcs[n - 1];
        if listed(s, introspection) && client_path(s.location, base) == path {
            prev + leaf_text(s)
        } else {
            prev
        }
    }
}

/// Whether `q` is a child of `p` in the namespace tree.
pub open spec fn is_child(q: Seq<Seq<char>>, p: Seq<Seq<char>>) -> bool {
    q.len() == p.len() + 1 && q.take(p.len() as int) == p
}

/// The children of `path` among the first `n` nodes, each as a key and the
/// object of its own contents.
pub open spec fn children_text(
    nodes: Seq<Seq<Seq<char>>>,
    svcs: Seq<ServiceView>,
    base: Seq<char>,
    introspection: bool,
    path: Seq<Seq<char>>,
    fuel: nat,
    n: nat,
) -> Seq<char>
    decreases fuel, n,
{
    if n == 0 || n > nodes.len() || fuel == 0 {
        Seq::empty()
    } else {
        let prev = children_text(nodes, svcs, base, introspection, path, fuel, (n - 1) as nat);
        let q = nodes[n - 1];
        if is_child(q, path) {
            prev + q.last() + ": {\n"@ + node_text(nodes, svcs, base, introspection, q, (fuel - 1) as nat)
                + "},\n"@
        } else {
            prev
        }
    }
}

/// The contents of the namespace object at `path`: its child namespaces in
/// the order first met, then the functions that stand there. `fuel` bounds
/// the depth of namespaces below `path` that are written out.
pub open spec fn node_text(
    nodes: Seq<Seq<Seq<char>>>,
    svcs: Seq<ServiceView>,
    base: Seq<char>,
    introspection: bool,
    path: Seq<Seq<char>>,
    fuel: nat,
) -> Seq<char>
    decreases fuel, nodes.len() + 1,
{
    (if fuel == 0 {
        Seq::empty()
    } else {
        children_text(nodes, svcs, base, introspection, path, fuel, nodes.len())
    }) + leaves_text(svcs, base, introspection, path, svcs.len())
}

/// The namespace tree of the listed services.
pub open spec fn client_nodes(svcs: Seq<ServiceView>, base: Seq<char>, introspection: bool) -> Seq<
    Seq<Seq<char>>,
> {
    namespace_nodes(listed_paths(svcs, base, introspection, svcs.len()))
}

/// The body of the object that `createClient` returns.
pub open spec fn tree_text(svcs: Seq<ServiceView>, base: Seq<char>, introspection: bool) -> Seq<char> {
    let nodes = client_nodes(svcs, base, introspection);
    node_text(nodes, svcs, base, introspection, Seq::empty(), nodes.len())
}

/// The service lines of the debug comment, for the first `n` services.
pub open spec fn debug_services(svcs: Seq<ServiceView>, n: nat) -> Seq<char>
    decreases n,
{
    if n == 0 {
        Seq::empty()
    } else {
        let s = svcs[n - 1];
        debug_services(svcs, (n - 1) as nat) + "service "@ + call_key(s) + "("@ + join(
            s.arguments.map_values(|a: (Seq<char>, Seq<char>)| param_text(a)),
            ", "@,
        ) + ") -> "@ + s.return_type + "\n"@
    }
}

/// The message lines of the debug comment, for the first `n` messages.
pub open spec fn debug_messages(msgs: Seq<MessageView>, n: nat) -> Seq<char>
    decreases n,
{
    if n == 0 {
        Seq::empty()
    } else {
        debug_messages(msgs, (n - 1) as nat) + "message "@ + msgs[n - 1].location + "::"@
            + msgs[n - 1].name + "\n"@
    }
}

/// A comment that lists every declaration found.
pub open spec fn debug_text(svcs: Seq<ServiceView>, msgs: Seq<MessageView>) -> Seq<char> {
    "/*\n"@ + debug_services(svcs, svcs.len()) + debug_messages(msgs, msgs.len()) + "*/\n"@
}

/// The aliases for the user's extra types, for the first `n` of them.
pub open spec fn custom_types_text(types: Seq<Seq<char>>, n: nat) -> Seq<char>
    decreases n,
{
    if n == 0 {
        Seq::empty()
    } else {
        custom_types_text(types, (n - 1) as nat) + "export type "@ + types[n - 1] + ";\n"@
    }
}

/// The declarations of the first `n` messages, each followed by a blank line.
pub open spec fn messages_text(msgs: Seq<MessageView>, n: nat) -> Seq<char>
    decreases n,
{
    if n == 0 {
        Seq::empty()
    } else {
        messages_text(msgs, (n - 1) as nat) + msgs[n - 1].code + "\n"@
    }
}

pub open spec fn optional_text(t: Option<String>) -> Seq<char> {
    match t {
        Some(s) => s@,
        None => Seq::empty(),
    }
}

/// The whole client source.
pub open spec fn client_text(
    debug: bool,
    header: Option<String>,
    types: Seq<Seq<char>>,
    footer: Option<String>,
    base: Seq<char>,
    introspection: bool,
    svcs: Seq<ServiceView>,
    msgs: Seq<MessageView>,
) -> Seq<char> {
    (if debug {
        debug_text(svcs, msgs)
    } else {
        Seq::empty()
    }) + optional_text(header) + HEADER@ + custom_types_text(types, types.len()) + messages_text(
        msgs,
        msgs.len(),
    ) + "export function createClient(transport: Transport) {\n\treturn {\n"@ + tree_text(
        svcs,
        base,
        introspection,
    ) + "\t};\n};\n"@ + optional_text(footer)
}

/// The parameter list and the argument array of a service's function.
fn argument_lists(s: &Service) -> (r: (String, String))
    ensures
        r.0@ == join(s@.arguments.map_values(|a: (Seq<char>, Seq<char>)| param_text(a)), ", "@),
        r.1@ == join(s@.arguments.map_values(|a: (Seq<char>, Seq<char>)| call_arg_text(a)), ", "@),
{
    let mut params: Vec<String> = Vec::new();
    let mut args: Vec<String> = Vec::new();
    let mut i: usize = 0;
    while i < s.arguments.len()
        invariant
            i <= s.arguments.len(),
            params.len() == i,
            args.len() == i,
            forall|j: int|
                0 <= j < i ==> #[trigger] params.deep_view()[j] == param_text(s@.arguments[j]),
            forall|j: int|
                0 <= j < i ==> #[trigger] args.deep_view()[j] == call_arg_text(s@.arguments[j]),
        decreases s.arguments.len() - i,
    {
        let a = &s.arguments[i];
        let mut p = a.name.clone();
        p.append(": ");
        p.append(a.ty.as_str());
        let mut c = a.name.clone();
        c.append(" ?? null");
        let ghost pb = params.deep_view();
        let ghost cb = args.deep_view();
        params.push(p);
        args.push(c);
        assert(params.deep_view() =~= pb.push(param_text(s@.arguments[i as int])));
        assert(args.deep_view() =~= cb.push(call_arg_text(s@.arguments[i as int])));
        i = i + 1;
    }
    assert(params.deep_view() =~= s@.arguments.map_values(|a: (Seq<char>, Seq<char>)| param_text(a)));
    assert(args.deep_view() =~= s@.arguments.map_values(|a: (Seq<char>, Seq<char>)| call_arg_text(a)));
    (join_strings(&params, ", "), join_strings(&args, ", "))
}

/// The client's function for a service.
pub fn render_leaf(s: &Service) -> (r: String)
    ensures
        r@ == leaf_text(s@),
{
    let (params, args) = argument_lists(s);
    let key = service_key(s);
    let mut out = String::from_str("async ");
    out.append(s.name.as_str());
    out.append("(");
    out.append(params.as_str());
    out.append("): Promise<");
    out.append(s.return_type.as_str());
    out.append("> { return handleResult(await transport.send(\"");
    out.append(key.as_str());
    out.append("\", JSON.stringify([");
    out.append(args.as_str());
    out.append("]))); },\n");
    out
}

/// Whether the client lists a service.
pub fn is_listed(s: &Service, introspection: bool) -> (r: bool)
    ensures
        r == listed(s@, introspection),
{
    introspection || !starts_with(s.location.as_str(), INTROSPECTION_NAMESPACE)
}

/// The namespace segments of each service, in order.
fn service_paths(svcs: &Vec<Service>, base: &str) -> (r: Vec<Vec<String>>)
    ensures
        r.len() == svcs.len(),
        forall|j: int|
            0 <= j < svcs.len() ==> #[trigger] r.deep_view()[j] == client_path(svcs@[j]@.location, base@),
{
    let mut out: Vec<Vec<String>> = Vec::new();
    let mut i: usize = 0;
    while i < svcs.len()
        invariant
            i <= svcs.len(),
            out.len() == i,
            forall|j: int|
                0 <= j < i ==> #[trigger] out.deep_view()[j] == client_path(svcs@[j]@.location, base@),
        decreases svcs.len() - i,
    {
        let p = namespace_path(svcs[i].location.as_str(), base);
        let ghost before = out.deep_view();
        out.push(p);
        assert(out.deep_view() =~= before.push(client_path(svcs@[i as int]@.location, base@)));
        i = i + 1;
    }
    out
}

/// The namespace paths of the listed services, in order.
fn listed_service_paths(
    svcs: &Vec<Service>,
    paths: &Vec<Vec<String>>,
    base: &str,
    introspection: bool,
) -> (r: Vec<Vec<String>>)
    requires
        paths.len() == svcs.len(),
        forall|j: int|
            0 <= j < svcs.len() ==> #[trigger] paths.deep_view()[j] == client_path(svcs@[j]@.location, base@),
    ensures
        r.deep_view() == listed_paths(services_view(svcs@), base@, introspection, svcs.len() as nat),
{
    let mut out: Vec<Vec<String>> = Vec::new();
    let mut i: usize = 0;
    while i < svcs.len()
        invariant
            paths.len() == svcs.len(),
            forall|j: int|
                0 <= j < svcs.len() ==> #[trigger] paths.deep_view()[j] == client_path(
                    svcs@[j]@.location,
                    base@,
                ),
            i <= svcs.len(),
            out.deep_view() == listed_paths(services_view(svcs@), base@, introspection, i as nat),
        decreases svcs.len() - i,
    {
        let ghost before = out.deep_view();
        assert(services_view(svcs@)[i as int] == svcs@[i as int]@);
        assert(paths.deep_view()[i as int] == client_path(svcs@[i as int]@.location, base@));
        if is_listed(&svcs[i], introspection) {
            out.push(clone_segments(&paths[i]));
            assert(out.deep_view() =~= before.push(paths.deep_view()[i as int]));
        }
        i = i + 1;
    }
    out
}

/// A copy of a list of segments.
fn clone_segments(p: &Vec<String>) -> (r: Vec<String>)
    ensures
        r.deep_view() == p.deep_view(),
{
    let mut out: Vec<String> = Vec::new();
    let mut i: usize = 0;
    while i < p.len()
        invariant
            i <= p.len(),
            out.deep_view() == p.deep_view().take(i as int),
        decreases p.len() - i,
    {
        let ghost before = out.deep_view();
        assert(p.deep_view()[i as int] == p[i as int]@);
        out.push(p[i].clone());
        assert(out.deep_view() =~= before.push(p[i as int]@));
        assert(out.deep_view() =~= p.deep_view().take(i + 1));
        i = i + 1;
    }
    assert(p.deep_view().take(p.len() as int) =~= p.deep_view());
    out
}

/// Whether `q` is a child of `p` in the namespace tree.
fn child_of(q: &Vec<String>, p: &Vec<String>) -> (r: bool)
    ensures
        r == is_child(q.deep_view(), p.deep_view()),
{
    if q.len() == 0 || q.len() - 1 != p.len() {
        return false;
    }
    let head = crate::namespace::take_segments(q, p.len());
    segments_eq(&head, p)
}

/// The contents of the namespace object at `path`.
fn render_node(
    nodes: &Vec<Vec<String>>,
    svcs: &Vec<Service>,
    paths: &Vec<Vec<String>>,
    base: &str,
    introspection: bool,
    path: &Vec<String>,
    fuel: usize,
) -> (r: String)
    requires
        paths.len() == svcs.len(),
        forall|j: int|
            0 <= j < svcs.len() ==> #[trigger] paths.deep_view()[j] == client_path(svcs@[j]@.location, base@),
    ensures
        r@ == node_text(
            nodes.deep_view(),
            services_view(svcs@),
            base@,
            introspection,
            path.deep_view(),
            fuel as nat,
        ),
    decreases fuel,
{
    let ghost nv = nodes.deep_view();
    let ghost sv = services_view(svcs@);
    let ghost pv = path.deep_view();
    let mut out = String::new();
    let mut i: usize = 0;
    while fuel > 0 && i < nodes.len()
        invariant
            nv == nodes.deep_view(),
            sv == services_view(svcs@),
            pv == path.deep_view(),
            paths.len() == svcs.len(),
            forall|j: int|
                0 <= j < svcs.len() ==> #[trigger] paths.deep_view()[j] == client_path(
                    svcs@[j]@.location,
                    base@,
                ),
            i <= nodes.len(),
            fuel == 0 ==> out@ == Seq::<char>::empty(),
            fuel > 0 ==> out@ == children_text(nv, sv, base@, introspection, pv, fuel as nat, i as nat),
        decreases nodes.len() - i,
    {
        let q = &nodes[i];
        assert(nv[i as int] == q.deep_view());
        if child_of(q, path) {
            let inner = render_node(nodes, svcs, paths, base, introspection, q, fuel - 1);
            out.append(q[q.len() - 1].as_str());
            out.append(": {\n");
            out.append(inner.as_str());
            out.append("},\n");
            assert(q.deep_view().last() == q[q.len() - 1]@);
        }
        i = i + 1;
    }
    let mut j: usize = 0;
    assert(fuel > 0 ==> i == nodes.len());
    let ghost head = out@;
    while j < svcs.len()
        invariant
            sv == services_view(svcs@),
            pv == path.deep_view(),
            paths.len() == svcs.len(),
            forall|k: int|
                0 <= k < svcs.len() ==> #[trigger] paths.deep_view()[k] == client_path(
                    svcs@[k]@.location,
                    base@,
                ),
            j <= svcs.len(),
            out@ == head + leaves_text(sv, base@, introspection, pv, j as nat),
        decreases svcs.len() - j,
    {
        assert(sv[j as int] == svcs@[j as int]@);
        assert(paths.deep_view()[j as int] == client_path(svcs@[j as int]@.location, base@));
        if is_listed(&svcs[j], introspection) && segments_eq(&paths[j], path) {
            let leaf = render_leaf(&svcs[j]);
            out.append(leaf.as_str());
        }
        j = j + 1;
    }
    out
}

/// The body of the object that `createClient` returns.
pub fn render_tree(svcs: &Vec<Service>, base: &str, introspection: bool) -> (r: String)
    ensures
        r@ == tree_text(services_view(svcs@), base@, introspection),
{
    let paths = service_paths(svcs, base);
    let listed = listed_service_paths(svcs, &paths, base, introspection);
    let nodes = build_nodes(&listed);
    let root: Vec<String> = Vec::new();
    assert(root.deep_view() =~= Seq::<Seq<char>>::empty());
    render_node(&nodes, svcs, &paths, base, introspection, &root, nodes.len())
}

/// A comment that lists every declaration found.
pub fn render_debug(svcs: &Vec<Service>, msgs: &Vec<Message>) -> (r: String)
    ensures
        r@ == debug_text(services_view(svcs@), messages_view(msgs@)),
{
    let ghost sv = services_view(svcs@);
    let ghost mv = messages_view(msgs@);
    let mut out = String::from_str("/*\n");
    let ghost head = out@;
    let mut i: usize = 0;
    while i < svcs.len()
        invariant
            sv == services_view(svcs@),
            i <= svcs.len(),
            out@ == head + debug_services(sv, i as nat),
        decreases svcs.len() - i,
    {
        assert(sv[i as int] == svcs@[i as int]@);
        let (params, _) = argument_lists(&svcs[i]);
        let key = service_key(&svcs[i]);
        out.append("service ");
        out.append(key.as_str());
        out.append("(");
        out.append(params.as_str());
        out.append(") -> ");
        out.append(svcs[i].return_type.as_str());
        out.append("\n");
        i = i + 1;
    }
    let ghost mid = out@;
    let mut j: usize = 0;
    while j < msgs.len()
        invariant
            mv == messages_view(msgs@),
            j <= msgs.len(),
            out@ == mid + debug_messages(mv, j as nat),
        decreases msgs.len() - j,
    {
        assert(mv[j as int] == msgs@[j as int]@);
        out.append("message ");
        out.append(msgs[j].location.as_str());
        out.append("::");
        out.append(msgs[j].name.as_str());
        out.append("\n");
        j = j + 1;
    }
    out.append("*/\n");
    out
}

/// The whole client source for the declarations of `result`.
pub fn render_client(
    debug: bool,
    header: &Option<String>,
    types: &Vec<String>,
    footer: &Option<String>,
    base: &str,
    introspection: bool,
    result: &AnalyzeResult,
) -> (r: String)
    ensures
        r@ == client_text(
            debug,
            *header,
            types.deep_view(),
            *footer,
            base@,
            introspection,
            services_view(result.services@),
            messages_view(result.messages@),
        ),
{
    let ghost mv = messages_view(result.messages@);
    let mut out = if debug {
        render_debug(&result.services, &result.messages)
    } else {
        String::new()
    };
    match header {
        Some(h) => out.append(h.as_str()),
        None => {},
    }
    out.append(HEADER);
    let ghost head = out@;
    let mut i: usize = 0;
    while i < types.len()
        invariant
            i <= types.len(),
            out@ == head + custom_types_text(types.deep_view(), i as nat),
        decreases types.len() - i,
    {
        assert(types.deep_view()[i as int] == types[i as int]@);
        out.append("export type ");
        out.append(types[i].as_str());
        out.append(";\n");
        i = i + 1;
    }
    let ghost mid = out@;
    let mut j: usize = 0;
    while j < result.messages.len()
        invariant
            mv == messages_view(result.messages@),
            j <= result.messages.len(),
            out@ == mid + messages_text(mv, j as nat),
        decreases result.messages.len() - j,
    {
        assert(mv[j as int] == result.messages@[j as int]@);
        out.append(result.messages[j].code.as_str());
        out.append("\n");
        j = j + 1;
    }
    out.append("export function createClient(transport: Transport) {\n\treturn {\n");
    let tree = render_tree(&result.services, base, introspection);
    out.append(tree.as_str());
    out.append("\t};\n};\n");
    match footer {
        Some(f) => out.append(f.as_str()),
        None => {},
    }
    out
}

proof fn lemma_listed_path_present(
    svcs: Seq<ServiceView>,
    base: Seq<char>,
    introspection: bool,
    n: nat,
    i: int,
)
    requires
        0 <= i < n <= svcs.len(),
        listed(svcs[i], introspection),
    ensures
        exists|m: int|
            0 <= m < listed_paths(svcs, base, introspection, n).len() && #[trigger] listed_paths(
                svcs,
                base,
                introspection,
                n,
            )[m] == client_path(svcs[i].location, base),
    decreases n,
{
    let prev = listed_paths(svcs, base, introspection, (n - 1) as nat);
    let cur = listed_paths(svcs, base, introspection, n);
    if i < n - 1 {
        lemma_listed_path_present(svcs, base, introspection, (n - 1) as nat, i);
        let m = choose|m: int| 0 <= m < prev.len() && #[trigger] prev[m] == client_path(svcs[i].location, base);
        if listed(svcs[n - 1], introspection) {
            assert(cur[m] == prev[m]);
        }
    } else {
        assert(cur[prev.len() as int] == client_path(svcs[i].location, base));
    }
}

/// Two listed services whose namespaces share their first `k` segments meet
/// in one node of the client tree: that prefix is a node, and it is there
/// once.
pub proof fn lemma_shared_namespace_merged(
    svcs: Seq<ServiceView>,
    base: Seq<char>,
    introspection: bool,
    a: int,
    b: int,
    k: int,
)
    requires
        0 <= a < svcs.len(),
        0 <= b < svcs.len(),
        listed(svcs[a], introspection),
        listed(svcs[b], introspection),
        1 <= k <= client_path(svcs[a].location, base).len(),
        k <= client_path(svcs[b].location, base).len(),
        client_path(svcs[a].location, base).take(k) == client_path(svcs[b].location, base).take(k),
    ensures
        ({
            let nodes = client_nodes(svcs, base, introspection);
            let shared = client_path(svcs[a].location, base).take(k);
            &&& nodes.contains(shared)
            &&& forall|m1: int, m2: int|
                0 <= m1 < nodes.len() && 0 <= m2 < nodes.len() && nodes[m1] == shared && nodes[m2]
                    == shared ==> m1 == m2
        }),
{
    let paths = listed_paths(svcs, base, introspection, svcs.len());
    lemma_listed_path_present(svcs, base, introspection, svcs.len(), a);
    let m = choose|m: int| 0 <= m < paths.len() && #[trigger] paths[m] == client_path(svcs[a].location, base);
    lemma_nodes_upto(paths, paths.len());
    let shared = client_path(svcs[a].location, base).take(k);
    assert(paths[m].take(k) == shared);
    assert(is_node_of(paths, paths.len(), shared));
}

} // verus!
