use vstd::prelude::*;

verus! {

/// A field of a record type: its name (none for a positional field) and its
/// type as written.
pub struct Field {
    pub name: Option<String>,
    pub ty: String,
}

/// A parameter of a function: a `self` receiver, or a pattern with its type
/// as written.
pub enum Param {
    Receiver,
    Typed { pattern: String, ty: String },
}

/// A top-level item of a source file, as far as declaration discovery reads
/// it. Each attribute is given by the segments of its path
/// (`#[machinery::service]` is `["machinery", "service"]`).
pub enum Item {
    Function {
        attrs: Vec<Vec<String>>,
        name: String,
        params: Vec<Param>,
        output: Option<String>,
    },
    Struct { attrs: Vec<Vec<String>>, name: String, fields: Vec<Field> },
    Enum { attrs: Vec<Vec<String>>, name: String, variants: Vec<String> },
    Other { attrs: Vec<Vec<String>> },
}

} // verus!
