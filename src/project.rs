use vstd::prelude::*;
use vstd::string::*;
use crate::classify::{is_optional_type, wrapped_type};
use crate::schema::{Field, TypeExpr, FieldView, RecordSchema, SchemaView, fields_view};

verus! {

/// The name of the derived record: the original name followed by `Optional`.
pub open spec fn derived_name(name: Seq<char>) -> Seq<char> {
    name + "Optional"@
}

/// A field of the derived record: same visibility and name, and the type
/// wrapped in `Option` unless it is already optional.
pub open spec fn project_field(f: FieldView) -> FieldView {
    FieldView {
        vis: f.vis,
        name: f.name,
        ty: if is_optional_type(f.ty) {
            f.ty
        } else {
            wrapped_type(f.ty)
        },
    }
}

/// The optional projection of a record schema.
pub open spec fn project_view(s: SchemaView) -> SchemaView {
    SchemaView { name: derived_name(s.name), fields: s.fields.map_values(|f: FieldView| project_field(f)) }
}

impl Field {
    /// This field as it stands in the derived record.
    pub fn project(&self) -> (r: Field)
        ensures
            r@ == project_field(self@),
    {
        let ty = if self.ty.is_optional() {
            TypeExpr { text: self.ty.text.clone() }
        } else {
            self.ty.wrap_optional()
        };
        Field { vis: self.vis.clone(), name: self.name.clone(), ty }
    }
}

impl RecordSchema {
    /// The derived record: the name suffixed with `Optional`, each field
    /// projected, in the original order.
    pub fn project(&self) -> (r: RecordSchema)
        ensures
            r@ == project_view(self@),
    {
        let mut name = self.name.clone();
        name.append("Optional");
        let mut fields: Vec<Field> = Vec::new();
        let n = self.fields.len();
        for i in 0..n
            invariant
                n == self.fields@.len(),
                fields@.len() == i,
                forall|j: int| 0 <= j < i ==> #[trigger] fields@[j]@ == project_field(self.fields@[j]@),
        {
            fields.push(self.fields[i].project());
        }
        let r = RecordSchema { name, fields };
        assert(r@.fields =~= project_view(self@).fields);
        r
    }
}

/// The derived record has as many fields as the original, with the same
/// names and visibilities in the same order; distinct names stay distinct.
pub proof fn lemma_project_keeps_field_names(s: SchemaView)
    ensures
        project_view(s).fields.len() == s.fields.len(),
        forall|i: int|
            0 <= i < s.fields.len() ==> #[trigger] project_view(s).fields[i].name == s.fields[i].name
                && project_view(s).fields[i].vis == s.fields[i].vis,
        s.wf() ==> project_view(s).wf(),
{
}

/// A field whose type is not optional gets its type wrapped exactly once; an
/// optional one keeps its type unchanged.
pub proof fn lemma_project_wraps_once(s: SchemaView)
    ensures
        forall|i: int|
            0 <= i < s.fields.len() ==> #[trigger] project_view(s).fields[i].ty == if is_optional_type(
                s.fields[i].ty,
            ) {
                s.fields[i].ty
            } else {
                wrapped_type(s.fields[i].ty)
            },
{
}

/// The derived record of a record named `N` is named `N` followed by `Optional`.
pub proof fn lemma_project_name(s: SchemaView)
    ensures
        project_view(s).name == s.name + "Optional"@,
{
}

/// A record all of whose fields are optional projects onto the same fields:
/// only its name changes.
pub proof fn lemma_all_optional_fields_kept(s: SchemaView)
    requires
        forall|i: int| 0 <= i < s.fields.len() ==> is_optional_type(#[trigger] s.fields[i].ty),
    ensures
        project_view(s).fields == s.fields,
        project_view(s).name == derived_name(s.name),
{
    assert(project_view(s).fields =~= s.fields);
}

/// Projecting a derived record again, where each of its fields is recognised
/// as optional, only suffixes the name once more: every field, and whether it
/// is optional, stays as it was.
pub proof fn lemma_reproject_renames_only(s: SchemaView)
    requires
        forall|i: int|
            0 <= i < project_view(s).fields.len() ==> is_optional_type(
                #[trigger] project_view(s).fields[i].ty,
            ),
    ensures
        project_view(project_view(s)).fields == project_view(s).fields,
        project_view(project_view(s)).name == derived_name(derived_name(s.name)),
{
    lemma_all_optional_fields_kept(project_view(s));
}

/// A record without fields yields a derived record without fields, under the
/// derived name.
pub proof fn lemma_project_empty(s: SchemaView)
    requires
        s.fields.len() == 0,
    ensures
        project_view(s).fields.len() == 0,
        project_view(s).name == derived_name(s.name),
{
}

} // verus!
