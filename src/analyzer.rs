use vstd::prelude::*;
use vstd::string::*;

use crate::pipeline::Error;
use crate::source::{Field, Item, Param};
use crate::text::{
    ends_with, has_prefix, has_suffix, join, join_strings, split, split_on, starts_with, str_eq,
    strip_suffix, without_suffix,
};

verus! {

#[derive(PartialEq, Eq, Structural, Clone, Copy, Debug)]
pub enum MessageKind {
    Enum,
    Struct,
}

/// A parameter of a service: its name and its type as written.
pub struct Argument {
    pub name: String,
    pub ty: String,
}

/// A data type exchanged with clients, with its client-side declaration.
pub struct Message {
    pub kind: MessageKind,
    pub name: String,
    pub location: String,
    pub code: String,
}

/// A callable operation.
pub struct Service {
    pub name: String,
    pub location: String,
    pub arguments: Vec<Argument>,
    pub return_type: String,
}

/// Collects the declarations of one file.
pub struct MachineryVisitor {
    pub file_location: String,
    pub services: Vec<Service>,
    pub messages: Vec<Message>,
}

/// The declarations found in a set of files, in the order found.
pub struct AnalyzeResult {
    pub file_location: String,
    pub services: Vec<Service>,
    pub messages: Vec<Message>,
}

pub struct MessageView {
    pub kind: MessageKind,
    pub name: Seq<char>,
    pub location: Seq<char>,
    pub code: Seq<char>,
}

pub struct ServiceView {
    pub name: Seq<char>,
    pub location: Seq<char>,
    pub arguments: Seq<(Seq<char>, Seq<char>)>,
    pub return_type: Seq<char>,
}

impl View for Argument {
    type V = (Seq<char>, Seq<char>);

    open spec fn view(&self) -> (Seq<char>, Seq<char>) {
        (self.name@, self.ty@)
    }
}

impl View for Message {
    type V = MessageView;

    open spec fn view(&self) -> MessageView {
        MessageView {
            kind: self.kind,
            name: self.name@,
            location: self.location@,
            code: self.code@,
        }
    }
}

impl View for Service {
    type V = ServiceView;

    open spec fn view(&self) -> ServiceView {
        ServiceView {
            name: self.name@,
            location: self.location@,
            arguments: self.arguments@.map_values(|a: Argument| a@),
            return_type: self.return_type@,
        }
    }
}

pub open spec fn services_view(v: Seq<Service>) -> Seq<ServiceView> {
    v.map_values(|s: Service| s@)
}

pub open spec fn messages_view(v: Seq<Message>) -> Seq<MessageView> {
    v.map_values(|m: Message| m@)
}

/// Whether an attribute path is `machinery::<name>`.
pub open spec fn is_marker(path: Seq<Seq<char>>, name: Seq<char>) -> bool {
    path.len() == 2 && path[0] == "machinery"@ && path[1] == name
}

/// Whether one of the attributes is the marker `machinery::<name>`.
pub open spec fn has_marker(attrs: Seq<Seq<Seq<char>>>, name: Seq<char>) -> bool {
    exists|i: int| 0 <= i < attrs.len() && is_marker(#[trigger] attrs[i], name)
}

/// The namespace segment that a path segment of a source file stands for.
pub open spec fn segment_name(seg: Seq<char>) -> Seq<char> {
    if seg == "src"@ {
        "crate"@
    } else {
        strip_suffix(seg, ".rs"@)
    }
}

/// The namespace segments of the first `n` path segments.
pub open spec fn namespace_upto(segs: Seq<Seq<char>>, n: nat) -> Seq<Seq<char>>
    decreases n,
{
    if n == 0 {
        Seq::empty()
    } else {
        let prev = namespace_upto(segs, (n - 1) as nat);
        let s = segs[n - 1];
        if s == "."@ || s.len() == 0 {
            prev
        } else {
            prev.push(segment_name(s))
        }
    }
}

/// The location of the declarations of the file at `path`: its segments,
/// without `.` and empty ones, the source root `src` read as `crate` and the
/// extension `.rs` dropped, joined by `::`.
pub open spec fn location_of(path: Seq<char>) -> Seq<char> {
    let segs = split(path, '/');
    join(namespace_upto(segs, segs.len()), "::"@)
}

pub open spec fn quoted_variant(v: Seq<char>) -> Seq<char> {
    "\t\""@ + v + "\""@
}

/// The client declaration of an enumeration: a union of the variant names as
/// string literals, in order, or `never` where there is none.
pub open spec fn enum_code(name: Seq<char>, variants: Seq<Seq<char>>) -> Seq<char> {
    "export type "@ + name + " = \n"@ + if variants.len() == 0 {
        "never;\n"@
    } else {
        join(variants.map_values(|v: Seq<char>| quoted_variant(v)), " |\n"@) + ";\n"@
    }
}

pub open spec fn field_line(name: Seq<char>, ty: Seq<char>) -> Seq<char> {
    "\t"@ + name + ": "@ + ty + ",\n"@
}

/// The lines of the first `n` fields; positional fields have none.
pub open spec fn fields_text(fields: Seq<Field>, n: nat) -> Seq<char>
    decreases n,
{
    if n == 0 {
        Seq::empty()
    } else {
        let prev = fields_text(fields, (n - 1) as nat);
        match fields[n - 1].name {
            Some(name) => prev + field_line(name@, fields[n - 1].ty@),
            None => prev,
        }
    }
}

/// The client declaration of a record: an interface with one line per named
/// field.
pub open spec fn struct_code(name: Seq<char>, fields: Seq<Field>) -> Seq<char> {
    "export interface "@ + name + " {\n"@ + fields_text(fields, fields.len()) + "}\n"@
}

/// Whether a parameter is the request context that the host runtime passes
/// in: one whose type is a reference to a `Context`.
pub open spec fn is_context(p: Param) -> bool {
    match p {
        Param::Typed { ty, .. } => has_prefix(ty@, "&"@) && has_suffix(ty@, "Context"@),
        Param::Receiver => false,
    }
}

/// The named parameters of the first `n` parameters; receivers are left out,
/// and so is a leading context parameter.
pub open spec fn arguments_upto(params: Seq<Param>, n: nat) -> Seq<(Seq<char>, Seq<char>)>
    decreases n,
{
    if n == 0 {
        Seq::empty()
    } else {
        let prev = arguments_upto(params, (n - 1) as nat);
        if n == 1 && is_context(params[0]) {
            prev
        } else {
            match params[n - 1] {
                Param::Typed { pattern, ty } => prev.push((pattern@, ty@)),
                Param::Receiver => prev,
            }
        }
    }
}

pub open spec fn return_type_of(output: Option<String>) -> Seq<char> {
    match output {
        Some(t) => t@,
        None => "void"@,
    }
}

/// The attributes of an item.
pub open spec fn item_attrs(item: Item) -> Seq<Seq<Seq<char>>> {
    match item {
        Item::Function { attrs, .. } => attrs.deep_view(),
        Item::Struct { attrs, .. } => attrs.deep_view(),
        Item::Enum { attrs, .. } => attrs.deep_view(),
        Item::Other { attrs } => attrs.deep_view(),
    }
}

/// The services an item declares at `loc`: one for a function with the
/// service marker, none otherwise.
pub open spec fn item_services(item: Item, loc: Seq<char>) -> Seq<ServiceView> {
    match item {
        Item::Function { attrs, name, params, output } => if has_marker(
            attrs.deep_view(),
            "service"@,
        ) {
            seq![
                ServiceView {
                    name: name@,
                    location: loc,
                    arguments: arguments_upto(params@, params@.len()),
                    return_type: return_type_of(output),
                },
            ]
        } else {
            Seq::empty()
        },
        _ => Seq::empty(),
    }
}

/// The messages an item declares at `loc`: one for a record or an enumeration
/// with the message marker, none otherwise.
pub open spec fn item_messages(item: Item, loc: Seq<char>) -> Seq<MessageView> {
    if !has_marker(item_attrs(item), "message"@) {
        Seq::empty()
    } else {
        match item {
            Item::Struct { name, fields, .. } => seq![
                MessageView {
                    kind: MessageKind::Struct,
                    name: name@,
                    location: loc,
                    code: struct_code(name@, fields@),
                },
            ],
            Item::Enum { name, variants, .. } => seq![
                MessageView {
                    kind: MessageKind::Enum,
                    name: name@,
                    location: loc,
                    code: enum_code(name@, variants.deep_view()),
                },
            ],
            _ => Seq::empty(),
        }
    }
}

/// Whether an item carries the message marker without being a record or an
/// enumeration.
pub open spec fn item_rejected(item: Item) -> bool {
    has_marker(item_attrs(item), "message"@) && match item {
        Item::Function { .. } => true,
        Item::Other { .. } => true,
        _ => false,
    }
}

pub open spec fn services_upto(items: Seq<Item>, loc: Seq<char>, n: nat) -> Seq<ServiceView>
    decreases n,
{
    if n == 0 {
        Seq::empty()
    } else {
        services_upto(items, loc, (n - 1) as nat) + item_services(items[n - 1], loc)
    }
}

pub open spec fn messages_upto(items: Seq<Item>, loc: Seq<char>, n: nat) -> Seq<MessageView>
    decreases n,
{
    if n == 0 {
        Seq::empty()
    } else {
        messages_upto(items, loc, (n - 1) as nat) + item_messages(items[n - 1], loc)
    }
}

/// Whether one of the items carries the message marker without being a
/// record or an enumeration.
pub open spec fn any_rejected(items: Seq<Item>) -> bool {
    exists|k: int| 0 <= k < items.len() && item_rejected(#[trigger] items[k])
}

/// Whether one of `attrs` is the marker `machinery::<name>`.
pub fn has_machinery_attribute(attrs: &Vec<Vec<String>>, name: &str) -> (r: bool)
    ensures
        r == has_marker(attrs.deep_view(), name@),
{
    let mut i: usize = 0;
    while i < attrs.len()
        invariant
            i <= attrs.len(),
            forall|j: int| 0 <= j < i ==> !is_marker(#[trigger] attrs.deep_view()[j], name@),
        decreases attrs.len() - i,
    {
        let path = &attrs[i];
        assert(attrs.deep_view()[i as int] == path.deep_view());
        if path.len() == 2 {
            let first = str_eq(path[0].as_str(), "machinery");
            let second = str_eq(path[1].as_str(), name);
            if first && second {
                assert(is_marker(attrs.deep_view()[i as int], name@));
                return true;
            }
        }
        i = i + 1;
    }
    false
}

/// The location of the declarations of the file at `path`.
pub fn file_location(path: &str) -> (r: String)
    ensures
        r@ == location_of(path@),
{
    let segs = split_on(path, '/');
    let mut kept: Vec<String> = Vec::new();
    let mut i: usize = 0;
    while i < segs.len()
        invariant
            i <= segs.len(),
            kept.deep_view() == namespace_upto(segs.deep_view(), i as nat),
        decreases segs.len() - i,
    {
        let seg = segs[i].as_str();
        assert(segs.deep_view()[i as int] == seg@);
        if !(str_eq(seg, ".") || seg.unicode_len() == 0) {
            let name = if str_eq(seg, "src") {
                String::from_str("crate")
            } else {
                without_suffix(seg, ".rs")
            };
            kept.push(name);
            assert(kept.deep_view() =~= namespace_upto(segs.deep_view(), (i + 1) as nat));
        }
        i = i + 1;
    }
    join_strings(&kept, "::")
}

/// The client declaration of an enumeration.
pub fn parse_enum(name: &str, variants: &Vec<String>) -> (r: String)
    ensures
        r@ == enum_code(name@, variants.deep_view()),
{
    let mut out = String::from_str("export type ");
    out.append(name);
    out.append(" = \n");
    if variants.len() == 0 {
        out.append("never;\n");
        return out;
    }
    let mut quoted: Vec<String> = Vec::new();
    let mut i: usize = 0;
    while i < variants.len()
        invariant
            i <= variants.len(),
            quoted.len() == i,
            forall|j: int|
                0 <= j < i ==> #[trigger] quoted.deep_view()[j] == quoted_variant(
                    variants.deep_view()[j],
                ),
        decreases variants.len() - i,
    {
        let mut q = String::from_str("\t\"");
        q.append(variants[i].as_str());
        q.append("\"");
        assert(q@ == quoted_variant(variants.deep_view()[i as int]));
        let ghost before = quoted.deep_view();
        quoted.push(q);
        assert(quoted.deep_view() =~= before.push(q@));
        i = i + 1;
    }
    assert(quoted.deep_view() =~= variants.deep_view().map_values(|v: Seq<char>| quoted_variant(v)));
    let body = join_strings(&quoted, " |\n");
    out.append(body.as_str());
    out.append(";\n");
    out
}

/// The client declaration of a record.
pub fn parse_struct(name: &str, fields: &Vec<Field>) -> (r: String)
    ensures
        r@ == struct_code(name@, fields@),
{
    let mut out = String::from_str("export interface ");
    out.append(name);
    out.append(" {\n");
    let ghost head = out@;
    let mut i: usize = 0;
    while i < fields.len()
        invariant
            i <= fields.len(),
            out@ == head + fields_text(fields@, i as nat),
        decreases fields.len() - i,
    {
        let field = &fields[i];
        match &field.name {
            Some(n) => {
                out.append("\t");
                out.append(n.as_str());
                out.append(": ");
                out.append(field.ty.as_str());
                out.append(",\n");
            },
            None => {},
        }
        i = i + 1;
    }
    out.append("}\n");
    out
}

/// The named parameters of a function, in order.
pub fn parse_fn_arguments(params: &Vec<Param>) -> (r: Vec<Argument>)
    ensures
        r@.map_values(|a: Argument| a@) == arguments_upto(params@, params@.len()),
{
    let mut out: Vec<Argument> = Vec::new();
    let mut i: usize = 0;
    while i < params.len()
        invariant
            i <= params.len(),
            out@.map_values(|a: Argument| a@) == arguments_upto(params@, i as nat),
        decreases params.len() - i,
    {
        match &params[i] {
            Param::Typed { pattern, ty } => {
                let context = i == 0 && starts_with(ty.as_str(), "&") && ends_with(
                    ty.as_str(),
                    "Context",
                );
                if !context {
                    out.push(Argument { name: pattern.clone(), ty: ty.clone() });
                }
            },
            Param::Receiver => {},
        }
        assert(out@.map_values(|a: Argument| a@) =~= arguments_upto(params@, (i + 1) as nat));
        i = i + 1;
    }
    out
}

/// The declared result type of a function, `void` where none is declared.
pub fn parse_fn_return_type(output: &Option<String>) -> (r: String)
    ensures
        r@ == return_type_of(*output),
{
    match output {
        Some(t) => t.clone(),
        None => String::from_str("void"),
    }
}

} // verus!

verus! {

impl MachineryVisitor {
    /// A visitor for the file whose declarations stand at `file_location`.
    pub fn new(file_location: String) -> (r: Self)
        ensures
            r.file_location == file_location,
            r.services@.len() == 0,
            r.messages@.len() == 0,
    {
        MachineryVisitor { file_location, services: Vec::new(), messages: Vec::new() }
    }

    /// Records the declaration that `item` makes, if any. Returns false, and
    /// records nothing, where `item` carries the message marker without being
    /// a record or an enumeration.
    pub fn visit_item(&mut self, item: &Item) -> (ok: bool)
        ensures
            ok == !item_rejected(*item),
            final(self).file_location == old(self).file_location,
            ok ==> services_view(final(self).services@) == services_view(old(self).services@)
                + item_services(*item, old(self).file_location@),
            ok ==> messages_view(final(self).messages@) == messages_view(old(self).messages@)
                + item_messages(*item, old(self).file_location@),
            !ok ==> final(self).services@ == old(self).services@,
            !ok ==> final(self).messages@ == old(self).messages@,
    {
        let ghost loc = self.file_location@;
        let ghost old_services = services_view(self.services@);
        let ghost old_messages = messages_view(self.messages@);
        match item {
            Item::Function { attrs, name, params, output } => {
                if has_machinery_attribute(attrs, "message") {
                    return false;
                }
                if has_machinery_attribute(attrs, "service") {
                    let service = Service {
                        name: name.clone(),
                        location: self.file_location.clone(),
                        arguments: parse_fn_arguments(params),
                        return_type: parse_fn_return_type(output),
                    };
                    self.services.push(service);
                    assert(services_view(self.services@) =~= old_services + item_services(*item, loc));
                } else {
                    assert(services_view(self.services@) =~= old_services + item_services(*item, loc));
                }
                assert(messages_view(self.messages@) =~= old_messages + item_messages(*item, loc));
                true
            },
            Item::Struct { attrs, name, fields } => {
                if has_machinery_attribute(attrs, "message") {
                    let message = Message {
                        kind: MessageKind::Struct,
                        name: name.clone(),
                        location: self.file_location.clone(),
                        code: parse_struct(name.as_str(), fields),
                    };
                    self.messages.push(message);
                }
                assert(services_view(self.services@) =~= old_services + item_services(*item, loc));
                assert(messages_view(self.messages@) =~= old_messages + item_messages(*item, loc));
                true
            },
            Item::Enum { attrs, name, variants } => {
                if has_machinery_attribute(attrs, "message") {
                    let message = Message {
                        kind: MessageKind::Enum,
                        name: name.clone(),
                        location: self.file_location.clone(),
                        code: parse_enum(name.as_str(), variants),
                    };
                    self.messages.push(message);
                }
                assert(services_view(self.services@) =~= old_services + item_services(*item, loc));
                assert(messages_view(self.messages@) =~= old_messages + item_messages(*item, loc));
                true
            },
            Item::Other { attrs } => {
                if has_machinery_attribute(attrs, "message") {
                    return false;
                }
                assert(services_view(self.services@) =~= old_services + item_services(*item, loc));
                assert(messages_view(self.messages@) =~= old_messages + item_messages(*item, loc));
                true
            },
        }
    }
}

/// The declarations that the items of the file at `path` make, in order,
/// each stamped with the file's location. Fails where an item carries the
/// message marker without being a record or an enumeration.
pub fn analyze_file(items: &Vec<Item>, path: &str) -> (r: Result<AnalyzeResult, Error>)
    ensures
        r.is_ok() == !any_rejected(items@),
        r matches Ok(res) ==> res.file_location@ == location_of(path@) && services_view(
            res.services@,
        ) == services_upto(items@, location_of(path@), items@.len()) && messages_view(
            res.messages@,
        ) == messages_upto(items@, location_of(path@), items@.len()),
        r matches Err(e) ==> e matches Error::UnsupportedMessageShape(l) && l@ == location_of(
            path@,
        ),
{
    let location = file_location(path);
    let mut visitor = MachineryVisitor::new(location);
    let mut i: usize = 0;
    while i < items.len()
        invariant
            i <= items.len(),
            visitor.file_location@ == location_of(path@),
            forall|k: int| 0 <= k < i ==> !item_rejected(#[trigger] items@[k]),
            services_view(visitor.services@) == services_upto(items@, location_of(path@), i as nat),
            messages_view(visitor.messages@) == messages_upto(items@, location_of(path@), i as nat),
        decreases items.len() - i,
    {
        if !visitor.visit_item(&items[i]) {
            return Err(Error::UnsupportedMessageShape(visitor.file_location));
        }
        i = i + 1;
    }
    Ok(
        AnalyzeResult {
            file_location: visitor.file_location,
            services: visitor.services,
            messages: visitor.messages,
        },
    )
}

/// An enumeration with no variant is declared as `never`; one with variants
/// as the union of their names as string literals, each once, in order.
pub proof fn lemma_enum_union(name: Seq<char>, variants: Seq<Seq<char>>)
    ensures
        variants.len() == 0 ==> enum_code(name, variants) == "export type "@ + name + " = \n"@
            + "never;\n"@,
        variants.len() > 0 ==> enum_code(name, variants) == "export type "@ + name + " = \n"@
            + join(variants.map_values(|v: Seq<char>| quoted_variant(v)), " |\n"@) + ";\n"@,
        variants.map_values(|v: Seq<char>| quoted_variant(v)).len() == variants.len(),
        forall|i: int|
            0 <= i < variants.len() ==> variants.map_values(|v: Seq<char>| quoted_variant(v))[i]
                == "\t\""@ + #[trigger] variants[i] + "\""@,
{
}

} // verus!
