//! The type significance analyzer: decides whether a declared return type is
//! string-like — text itself, or a success/failure or optional-value wrapper
//! whose first type argument is string-like.  String-like return types gate
//! body preservation for methods.

use vstd::prelude::*;

use crate::text::{contains_seq, starts_with_seq, str_contains, str_starts_with};
use crate::tree::{lemma_types_view, opt_type_view, type_view, types_view, TypeExpr, TypeView};

verus! {

/// A type is string-like iff it is a reference to a string-like type, a
/// named type whose textual form mentions a text-bearing type, or a
/// `Result`/`Option` whose first type argument is string-like.
pub open spec fn spec_is_string_like(t: TypeView) -> bool
    decreases t,
{
    match t {
        TypeView::Reference { referent } => spec_is_string_like(*referent),
        TypeView::Named { text, args } => {
            if contains_seq(text, "String"@) || contains_seq(text, "str"@) || contains_seq(
                text,
                "Cow<str>"@,
            ) {
                true
            } else if (starts_with_seq(text, "Result"@) || starts_with_seq(text, "Option"@))
                && args.len() > 0 {
                spec_is_string_like(args[0])
            } else {
                false
            }
        },
        TypeView::Opaque => false,
    }
}

/// A return type is significant iff it is declared and string-like; an
/// absent return type is never significant.
pub open spec fn spec_ret_significant(ret: Option<TypeView>) -> bool {
    ret matches Option::Some(t) && spec_is_string_like(t)
}

/// Checks whether a type is string-like, or a `Result`/`Option` containing a
/// string-like type.
pub fn is_string_like(t: &TypeExpr) -> (b: bool)
    ensures
        b == spec_is_string_like(type_view(*t)),
    decreases *t,
{
    match t {
        TypeExpr::Reference { referent } => is_string_like(referent),
        TypeExpr::Named { text, args } => {
            if str_contains(text.as_str(), "String") || str_contains(text.as_str(), "str")
                || str_contains(text.as_str(), "Cow<str>") {
                true
            } else if (str_starts_with(text.as_str(), "Result") || str_starts_with(
                text.as_str(),
                "Option",
            )) && args.len() > 0 {
                proof {
                    lemma_types_view(args@);
                }
                let r = is_string_like(&args[0]);
                proof {
                    assert(types_view(args@)[0] == type_view(args@[0]));
                }
                r
            } else {
                false
            }
        },
        TypeExpr::Opaque => false,
    }
}

/// Checks whether a method's declared return type calls for preserving its
/// body.
pub fn analyze_return_type(ret: &Option<TypeExpr>) -> (b: bool)
    ensures
        b == spec_ret_significant(opt_type_view(*ret)),
{
    match ret {
        Option::Some(t) => is_string_like(t),
        Option::None => false,
    }
}

} // verus!
