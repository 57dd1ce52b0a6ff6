use vstd::prelude::*;
use vstd::string::*;
use crate::schema::TypeExpr;

verus! {

/// The identifier of the last path segment of the type written as `ty`, where
/// `ty` parses as a path type (`Option<u8>`, `std::option::Option<u8>`), and
/// nothing otherwise.
pub uninterp spec fn path_type_last_segment(ty: Seq<char>) -> Option<Seq<char>>;

/// The one name by which a type is recognised as optional.
pub open spec fn wrapper_name() -> Seq<char> {
    "Option"@
}

/// A type is optional when it is a path whose last segment is `Option`,
/// matched by name: an alias of `Option` under another name is not detected.
pub open spec fn is_optional_type(ty: Seq<char>) -> bool {
    path_type_last_segment(ty) == Some(wrapper_name())
}

/// The type `ty` wrapped once in `Option`.
pub open spec fn wrapped_type(ty: Seq<char>) -> Seq<char> {
    "Option<"@ + ty + ">"@
}

/// Relies on syn::parse_str::<syn::Type>, and on syn::Ident's to_string for
/// the last segment: which segment ends a path type depends on the text alone.
#[verifier::external_body]
fn last_path_segment(ty: &str) -> (r: Option<String>)
    ensures
        match r {
            Some(seg) => path_type_last_segment(ty@) == Some(seg@),
            None => path_type_last_segment(ty@) is None,
        },
{
    match syn::parse_str::<syn::Type>(ty) {
        Ok(syn::Type::Path(p)) => p.path.segments.last().map(|s| s.ident.to_string()),
        _ => None,
    }
}

/// Whether a type whose path ends in `last` (nothing for a type that is no
/// path) is optional.
pub fn names_wrapper(last: &Option<String>) -> (r: bool)
    ensures
        r == (*last matches Some(seg) && seg@ == wrapper_name()),
{
    match last {
        Some(seg) => {
            let wrapper = String::from_str("Option");
            let same = *seg == wrapper;
            proof {
                if !same {
                    assert(seg@ != wrapper_name());
                }
            }
            same
        },
        None => false,
    }
}

impl TypeExpr {
    /// Whether this type is already optional.
    pub fn is_optional(&self) -> (r: bool)
        ensures
            r == is_optional_type(self@),
    {
        let last = last_path_segment(self.text.as_str());
        names_wrapper(&last)
    }

    /// This type wrapped once in `Option`.
    pub fn wrap_optional(&self) -> (r: TypeExpr)
        ensures
            r@ == wrapped_type(self@),
    {
        let mut text = String::from_str("Option<");
        text.append(self.text.as_str());
        text.append(">");
        TypeExpr { text }
    }
}

} // verus!
