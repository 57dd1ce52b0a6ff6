use vstd::prelude::*;
use crate::project::project_view;
use crate::render::declaration_text;
use crate::schema::{DeclBody, SchemaError, SchemaView, TypeDecl, fields_view, parse_schema};

verus! {

/// The whole transform on one declaration: a struct with named fields gives
/// the text of its derived record's declaration; any other shape is refused
/// with `NotARecord`, and nothing is generated for it.
pub fn optionalize(decl: TypeDecl) -> (r: Result<String, SchemaError>)
    ensures
        match decl.body {
            DeclBody::Named(fs) => r matches Ok(text) && text@ == declaration_text(
                project_view(SchemaView { name: decl.name@, fields: fields_view(fs@) }),
            ),
            _ => r matches Err(SchemaError::NotARecord { name }) && name@ == decl.name@,
        },
{
    match parse_schema(decl) {
        Ok(schema) => Ok(schema.project().render()),
        Err(e) => Err(e),
    }
}

} // verus!
