use vstd::prelude::*;

verus! {

/// The source text of a field's declared type, kept exactly as written.
#[derive(Clone, Debug, PartialEq, Eq)]
pub struct TypeExpr {
    pub text: String,
}

impl View for TypeExpr {
    type V = Seq<char>;

    open spec fn view(&self) -> Seq<char> {
        self.text@
    }
}

/// One named field: its visibility qualifier (empty when private), its name
/// and its declared type.
#[derive(Clone, Debug, PartialEq, Eq)]
pub struct Field {
    pub vis: String,
    pub name: String,
    pub ty: TypeExpr,
}

pub struct FieldView {
    pub vis: Seq<char>,
    pub name: Seq<char>,
    pub ty: Seq<char>,
}

impl View for Field {
    type V = FieldView;

    open spec fn view(&self) -> FieldView {
        FieldView { vis: self.vis@, name: self.name@, ty: self.ty@ }
    }
}

pub open spec fn fields_view(fs: Seq<Field>) -> Seq<FieldView> {
    fs.map_values(|f: Field| f@)
}

/// A record type: its name and its fields in declaration order.
#[derive(Clone, Debug, PartialEq, Eq)]
pub struct RecordSchema {
    pub name: String,
    pub fields: Vec<Field>,
}

pub struct SchemaView {
    pub name: Seq<char>,
    pub fields: Seq<FieldView>,
}

impl View for RecordSchema {
    type V = SchemaView;

    open spec fn view(&self) -> SchemaView {
        SchemaView { name: self.name@, fields: fields_view(self.fields@) }
    }
}

/// Field names of a record are pairwise distinct.
pub open spec fn names_unique(fs: Seq<FieldView>) -> bool {
    forall|i: int, j: int|
        0 <= i < fs.len() && 0 <= j < fs.len() && i != j ==> #[trigger] fs[i].name != #[trigger] fs[j].name
}

impl SchemaView {
    pub open spec fn wf(self) -> bool {
        names_unique(self.fields)
    }
}

/// The shape of a type declaration as the host hands it over.
#[derive(Clone, Debug, PartialEq, Eq)]
pub enum DeclBody {
    /// A struct with named fields, the one shape that is a record.
    Named(Vec<Field>),
    /// A tuple struct.
    Unnamed,
    /// A unit struct.
    Unit,
    Enum,
    Union,
}

/// One type declaration: its name and its shape.
#[derive(Clone, Debug, PartialEq, Eq)]
pub struct TypeDecl {
    pub name: String,
    pub body: DeclBody,
}

#[derive(Clone, Debug, PartialEq, Eq)]
pub enum SchemaError {
    /// The declaration is not a struct with named fields; `name` is the
    /// declaration's own name, where a diagnostic is anchored.
    NotARecord { name: String },
}

/// Reads a record schema out of a declaration; every shape but a struct with
/// named fields is refused.
pub fn parse_schema(decl: TypeDecl) -> (r: Result<RecordSchema, SchemaError>)
    ensures
        match decl.body {
            DeclBody::Named(fs) => r matches Ok(s) && s@ == (SchemaView {
                name: decl.name@,
                fields: fields_view(fs@),
            }),
            _ => r matches Err(SchemaError::NotARecord { name }) && name@ == decl.name@,
        },
{
    match decl.body {
        DeclBody::Named(fields) => Ok(RecordSchema { name: decl.name, fields }),
        _ => Err(SchemaError::NotARecord { name: decl.name }),
    }
}

} // verus!
