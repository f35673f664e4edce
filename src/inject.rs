use vstd::prelude::*;
use vstd::string::*;

use crate::text::str_eq;

verus! {

/// What a handler's request carries: its headers, as name and value, in the
/// order received.
pub struct Context {
    pub headers: Vec<(String, String)>,
}

/// The value of the first header named `name`, if any.
pub open spec fn header_value(headers: Seq<(String, String)>, name: Seq<char>) -> Option<Seq<char>>
    decreases headers.len(),
{
    if headers.len() == 0 {
        None
    } else if headers[0].0@ == name {
        Some(headers[0].1@)
    } else {
        header_value(headers.drop_first(), name)
    }
}

impl Context {
    /// The value of the first header named `name`, if any.
    pub fn header(&self, name: &str) -> (r: Option<String>)
        ensures
            r matches Some(v) ==> header_value(self.headers@, name@) == Some(v@),
            r is None ==> header_value(self.headers@, name@) is None,
    {
        let mut i: usize = 0;
        assert(self.headers@.skip(0) =~= self.headers@);
        while i < self.headers.len()
            invariant
                i <= self.headers.len(),
                header_value(self.headers@, name@) == header_value(self.headers@.skip(i as int), name@),
            decreases self.headers.len() - i,
        {
            assert(self.headers@.skip(i as int)[0] == self.headers@[i as int]);
            if str_eq(self.headers[i].0.as_str(), name) {
                return Some(self.headers[i].1.clone());
            }
            assert(self.headers@.skip(i as int).drop_first() =~= self.headers@.skip(i + 1));
            i = i + 1;
        }
        None
    }
}

/// A value that a handler can ask for, built from the request.
pub trait Injectable: Sized + View {
    /// The value built from the request, or none where it cannot be.
    spec fn injected(ctx: &Context) -> Option<<Self as View>::V>;

    /// Builds the value from the request, or says why it cannot.
    fn inject(ctx: &Context) -> (r: Result<Box<Self>, String>)
        ensures
            r is Ok <==> Self::injected(ctx) is Some,
            r matches Ok(b) ==> Self::injected(ctx) == Some((*b)@),
    ;
}

/// The value of type `T` for the request.
pub fn inject<T: Injectable>(ctx: &Context) -> (r: Result<T, String>)
    ensures
        r is Ok <==> T::injected(ctx) is Some,
        r matches Ok(v) ==> T::injected(ctx) == Some(v@),
{
    match T::inject(ctx) {
        Ok(boxed) => Ok(*boxed),
        Err(e) => Err(e),
    }
}

/// The user on whose behalf a request is made, named by its `user_id` header.
pub struct User {
    pub id: String,
}

/// The reply where a request names no user.
pub const NO_USER: &'static str = "user_id is not found";

impl View for User {
    type V = Seq<char>;

    open spec fn view(&self) -> Seq<char> {
        self.id@
    }
}

impl Injectable for User {
    open spec fn injected(ctx: &Context) -> Option<Seq<char>> {
        header_value(ctx.headers@, "user_id"@)
    }

    fn inject(ctx: &Context) -> (r: Result<Box<User>, String>) {
        match ctx.header("user_id") {
            Some(id) => Ok(Box::new(User { id })),
            None => Err(String::from_str(NO_USER)),
        }
    }
}

} // verus!
