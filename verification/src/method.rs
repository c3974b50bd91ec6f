//! Request methods of the `http` crate, as the library's contracts see them.
//!
//! Nothing in this file is proved: it states what `http` says of a method's name.

use http::Method;
use vstd::prelude::*;

verus! {

/// `http::Method`, seen through `method_name`.
#[verifier::external_type_specification]
#[verifier::external_body]
pub struct ExMethod(Method);

/// The name of a method, as it stands in a request line: `GET`, `POST`, ...
pub uninterp spec fn method_name(m: Method) -> Seq<char>;

/// The names of a list of methods.
pub open spec fn method_names(ms: Seq<Method>) -> Seq<Seq<char>> {
    ms.map_values(|m: Method| method_name(m))
}

/// `Method::eq`: two methods are equal exactly when their names are.
#[verifier::external_body]
pub(crate) fn same_method(a: &Method, b: &Method) -> (r: bool)
    ensures
        r == (method_name(*a) == method_name(*b)),
{
    a == b
}

/// `Method::clone`: a method of the same name.
pub assume_specification[ <Method as Clone>::clone ](m: &Method) -> (r: Method)
    ensures
        method_name(r) == method_name(*m),
;

} // verus!
