use vstd::prelude::*;
use vstd::string::*;

use crate::analyzer::{services_view, AnalyzeResult, Service, ServiceView};
use crate::client::{leaf_head, leaf_tail, leaf_text};
use crate::namespace::{call_key, client_path, namespace_path, service_key};
use crate::text::{join, join_strings, str_eq};

verus! {

/// The reply for a call key that names no service.
pub const UNKNOWN_FUNCTION: &'static str = "{ \"error\": \"Unknown function\" }";

/// The reply for arguments that do not decode as the service's parameters.
pub const BAD_INPUT: &'static str = "{ \"error\": \"Failed to deserialize input\" }";

/// The reply for a result that does not encode.
pub const BAD_OUTPUT: &'static str = "{ \"error\": \"Failed to serialize output\" }";

pub const WRAPPER_START: &'static str = "
    async fn handle_";

/// The signature of a wrapper that reads no arguments.
pub const NO_INPUT: &'static str = "(ctx: &machinery::context::Context, _json_input: String) -> String {
        let res_output = ";

/// The signature of a wrapper that reads arguments, and its decoding step:
/// where the payload does not decode, it replies `BAD_INPUT` and goes no
/// further.
pub const DECODE_INPUT: &'static str = "(ctx: &machinery::context::Context, json_input: String) -> String {
        let rest_input = machinery::json::from_str(&json_input);
        if rest_input.is_err() {
            return \"{ \\\"error\\\": \\\"Failed to deserialize input\\\" }\".to_owned();
        }
        let (";

pub const DECODED: &'static str = ",) = rest_input.unwrap();

        let res_output = ";

/// What a wrapper does with the handler's outcome: the handler's error, or the
/// encoded result, or `BAD_OUTPUT`, each in its envelope.
pub const REPLY: &'static str = ".await;
        if res_output.is_err() {
            let message = res_output.unwrap_err().to_string();
            return format!(\"{{ \\\"error\\\": {} }}\", machinery::json::to_string(&message).unwrap_or_default());
        }

        let output = res_output.unwrap();
        let output = machinery::json::to_string(&output);

        if output.is_ok() {
            return format!(\"{{ \\\"result\\\": {} }}\", output.unwrap());
        }

        return \"{ \\\"error\\\": \\\"Failed to serialize output\\\" }\".to_owned();
    }
";

pub const DISPATCH_START: &'static str = "
    pub async fn handle(ctx: machinery::context::Context, fn_name: String, json_input: String) -> String {
        match fn_name.as_str() {
";

pub const DISPATCH_END: &'static str = "            _ => return \"{ \\\"error\\\": \\\"Unknown function\\\" }\".to_owned(),
        }
    }
}
";

pub const INTROSPECTION_START: &'static str = "
    mod machinery_introspection {
        pub async fn ts_client(_ctx: &machinery::context::Context) -> machinery::Result<String> {
            let code = std::fs::read_to_string(\"";

pub const INTROSPECTION_END: &'static str = "\")?;
            Ok(code)
        }
    }
";

/// The host path by which the handler of a service is called.
pub open spec fn full_name(s: ServiceView) -> Seq<char> {
    s.location + "::"@ + s.name
}

/// The name of the wrapper of a service: its namespace segments below the
/// base path and its name, joined by `_`.
pub open spec fn wrapper_ident(s: ServiceView, base: Seq<char>) -> Seq<char> {
    join(client_path(s.location, base).push(s.name), "_"@)
}

pub open spec fn arg_binding(a: (Seq<char>, Seq<char>)) -> Seq<char> {
    "arg_"@ + a.0
}

pub open spec fn arg_bindings(s: ServiceView) -> Seq<char> {
    join(s.arguments.map_values(|a: (Seq<char>, Seq<char>)| arg_binding(a)), ", "@)
}

/// The wrapper of a service. Without parameters it calls the handler with the
/// context alone and never decodes the payload; with parameters it first
/// decodes the payload as a tuple of them.
pub open spec fn wrapper_text(s: ServiceView, base: Seq<char>) -> Seq<char> {
    WRAPPER_START@ + wrapper_ident(s, base) + if s.arguments.len() == 0 {
        NO_INPUT@ + full_name(s) + "(ctx)"@ + REPLY@
    } else {
        DECODE_INPUT@ + arg_bindings(s) + DECODED@ + full_name(s) + "(ctx, "@ + arg_bindings(s)
            + ")"@ + REPLY@
    }
}

/// The rest of a match arm, after the call key.
pub open spec fn arm_tail(s: ServiceView, base: Seq<char>) -> Seq<char> {
    "\" => handle_"@ + wrapper_ident(s, base) + "(&ctx, json_input).await,\n"@
}

/// The match arm that routes a call key to its wrapper.
pub open spec fn arm_text(s: ServiceView, base: Seq<char>) -> Seq<char> {
    "            \""@ + call_key(s) + arm_tail(s, base)
}

pub open spec fn wrappers_text(svcs: Seq<ServiceView>, base: Seq<char>, n: nat) -> Seq<char>
    decreases n,
{
    if n == 0 {
        Seq::empty()
    } else {
        wrappers_text(svcs, base, (n - 1) as nat) + wrapper_text(svcs[n - 1], base)
    }
}

pub open spec fn arms_text(svcs: Seq<ServiceView>, base: Seq<char>, n: nat) -> Seq<char>
    decreases n,
{
    if n == 0 {
        Seq::empty()
    } else {
        arms_text(svcs, base, (n - 1) as nat) + arm_text(svcs[n - 1], base)
    }
}

/// The module that serves the generated client file at `client_path`.
pub open spec fn introspection_text(client_file: Seq<char>) -> Seq<char> {
    INTROSPECTION_START@ + client_file + INTROSPECTION_END@
}

/// The whole dispatch module: the introspection module where one is given,
/// one wrapper per service, and the function that routes a call key to its
/// wrapper, or replies `UNKNOWN_FUNCTION`.
pub open spec fn dispatch_text(
    svcs: Seq<ServiceView>,
    base: Seq<char>,
    introspection: Option<Seq<char>>,
) -> Seq<char> {
    "mod __machinery {\n"@ + match introspection {
        Some(p) => introspection_text(p),
        None => Seq::empty(),
    } + wrappers_text(svcs, base, svcs.len()) + DISPATCH_START@ + arms_text(svcs, base, svcs.len())
        + DISPATCH_END@
}

/// The keys by which the dispatch function routes, one per service in order.
pub open spec fn dispatch_keys(svcs: Seq<ServiceView>) -> Seq<Seq<char>> {
    svcs.map_values(|s: ServiceView| call_key(s))
}

/// The name of the wrapper of a service.
pub fn render_ident(s: &Service, base: &str) -> (r: String)
    ensures
        r@ == wrapper_ident(s@, base@),
{
    let mut segs = namespace_path(s.location.as_str(), base);
    let ghost p = segs.deep_view();
    segs.push(s.name.clone());
    assert(segs.deep_view() =~= p.push(s@.name));
    join_strings(&segs, "_")
}

/// The bindings of the decoded arguments.
fn render_bindings(s: &Service) -> (r: String)
    ensures
        r@ == arg_bindings(s@),
{
    let mut names: Vec<String> = Vec::new();
    let mut i: usize = 0;
    while i < s.arguments.len()
        invariant
            i <= s.arguments.len(),
            names.len() == i,
            forall|j: int|
                0 <= j < i ==> #[trigger] names.deep_view()[j] == arg_binding(s@.arguments[j]),
        decreases s.arguments.len() - i,
    {
        let mut b = String::from_str("arg_");
        b.append(s.arguments[i].name.as_str());
        let ghost before = names.deep_view();
        names.push(b);
        assert(names.deep_view() =~= before.push(arg_binding(s@.arguments[i as int])));
        i = i + 1;
    }
    assert(names.deep_view() =~= s@.arguments.map_values(
        |a: (Seq<char>, Seq<char>)| arg_binding(a),
    ));
    join_strings(&names, ", ")
}

/// The wrapper of a service.
pub fn render_wrapper(s: &Service, base: &str) -> (r: String)
    ensures
        r@ == wrapper_text(s@, base@),
{
    let ident = render_ident(s, base);
    let mut full = s.location.clone();
    full.append("::");
    full.append(s.name.as_str());
    let mut out = String::from_str(WRAPPER_START);
    out.append(ident.as_str());
    if s.arguments.len() == 0 {
        out.append(NO_INPUT);
        out.append(full.as_str());
        out.append("(ctx)");
    } else {
        let bindings = render_bindings(s);
        out.append(DECODE_INPUT);
        out.append(bindings.as_str());
        out.append(DECODED);
        out.append(full.as_str());
        out.append("(ctx, ");
        out.append(bindings.as_str());
        out.append(")");
    }
    out.append(REPLY);
    out
}

/// The match arm that routes a service's call key to its wrapper.
pub fn render_arm(s: &Service, base: &str) -> (r: String)
    ensures
        r@ == arm_text(s@, base@),
{
    let key = service_key(s);
    let ident = render_ident(s, base);
    let mut out = String::from_str("            \"");
    out.append(key.as_str());
    out.append("\" => handle_");
    out.append(ident.as_str());
    out.append("(&ctx, json_input).await,\n");
    out
}

/// The whole dispatch module for the services of `result`; `introspection`
/// is the path of the generated client file where it is to be served.
pub fn render_dispatch(result: &AnalyzeResult, base: &str, introspection: &Option<String>) -> (r:
    String)
    ensures
        r@ == dispatch_text(
            services_view(result.services@),
            base@,
            match introspection {
                Some(p) => Some(p@),
                None => None,
            },
        ),
{
    let svcs = &result.services;
    let ghost sv = services_view(svcs@);
    let mut out = String::from_str("mod __machinery {\n");
    match introspection {
        Some(p) => {
            out.append(INTROSPECTION_START);
            out.append(p.as_str());
            out.append(INTROSPECTION_END);
        },
        None => {},
    }
    let ghost head = out@;
    let mut i: usize = 0;
    while i < svcs.len()
        invariant
            sv == services_view(svcs@),
            i <= svcs.len(),
            out@ == head + wrappers_text(sv, base@, i as nat),
        decreases svcs.len() - i,
    {
        assert(sv[i as int] == svcs@[i as int]@);
        let w = render_wrapper(&svcs[i], base);
        out.append(w.as_str());
        i = i + 1;
    }
    out.append(DISPATCH_START);
    let ghost mid = out@;
    let mut j: usize = 0;
    while j < svcs.len()
        invariant
            sv == services_view(svcs@),
            j <= svcs.len(),
            out@ == mid + arms_text(sv, base@, j as nat),
        decreases svcs.len() - j,
    {
        assert(sv[j as int] == svcs@[j as int]@);
        let a = render_arm(&svcs[j], base);
        out.append(a.as_str());
        j = j + 1;
    }
    out.append(DISPATCH_END);
    out
}

/// The call keys of the services, in order.
pub fn service_keys(svcs: &Vec<Service>) -> (r: Vec<String>)
    ensures
        r.deep_view() == dispatch_keys(services_view(svcs@)),
{
    let mut out: Vec<String> = Vec::new();
    let mut i: usize = 0;
    while i < svcs.len()
        invariant
            i <= svcs.len(),
            out.len() == i,
            forall|j: int|
                0 <= j < i ==> #[trigger] out.deep_view()[j] == call_key(svcs@[j]@),
        decreases svcs.len() - i,
    {
        let k = service_key(&svcs[i]);
        let ghost before = out.deep_view();
        out.push(k);
        assert(out.deep_view() =~= before.push(call_key(svcs@[i as int]@)));
        i = i + 1;
    }
    assert(out.deep_view() =~= dispatch_keys(services_view(svcs@)));
    out
}

/// Where a call with key `name` goes in a dispatch table with `keys`: the
/// first service with that key, or none, in which case the caller gets
/// `UNKNOWN_FUNCTION` and no handler runs.
pub fn route(keys: &Vec<String>, name: &str) -> (r: Option<usize>)
    ensures
        r matches Some(i) ==> i < keys.len() && keys@[i as int]@ == name@ && forall|j: int|
            0 <= j < i ==> keys@[j]@ != name@,
        r is None <==> forall|j: int| 0 <= j < keys.len() ==> keys@[j]@ != name@,
{
    let mut i: usize = 0;
    while i < keys.len()
        invariant
            i <= keys.len(),
            forall|j: int| 0 <= j < i ==> keys@[j]@ != name@,
        decreases keys.len() - i,
    {
        if str_eq(keys[i].as_str(), name) {
            return Some(i);
        }
        i = i + 1;
    }
    None
}

/// The client and the dispatch function key each service alike: the key
/// that the client's function sends is the key that the dispatch function
/// routes to that service's wrapper.
pub proof fn lemma_keys_agree(svcs: Seq<ServiceView>, base: Seq<char>)
    ensures
        forall|i: int|
            0 <= i < svcs.len() ==> {
                &&& #[trigger] leaf_text(svcs[i]) == leaf_head(svcs[i]) + dispatch_keys(svcs)[i]
                    + leaf_tail(svcs[i])
                &&& arm_text(svcs[i], base) == "            \""@ + dispatch_keys(svcs)[i] + arm_tail(
                    svcs[i],
                    base,
                )
            },
{
}

/// A wrapper of a service without parameters calls the handler with the
/// context alone and never decodes the payload; a wrapper of a service with
/// parameters decodes the payload first, and where that fails replies
/// `BAD_INPUT` before the handler is called.
pub proof fn lemma_wrapper_decoding(s: ServiceView, base: Seq<char>)
    ensures
        s.arguments.len() == 0 ==> wrapper_text(s, base) == WRAPPER_START@ + wrapper_ident(s, base)
            + NO_INPUT@ + full_name(s) + "(ctx)"@ + REPLY@,
        s.arguments.len() > 0 ==> wrapper_text(s, base) == WRAPPER_START@ + wrapper_ident(s, base)
            + DECODE_INPUT@ + arg_bindings(s) + DECODED@ + full_name(s) + "(ctx, "@ + arg_bindings(
            s,
        ) + ")"@ + REPLY@,
{
}

} // verus!
