use vstd::prelude::*;
use vstd::string::*;
use crate::schema::{Field, FieldView, RecordSchema, SchemaView, fields_view};

verus! {

/// One field as written in a struct body: ` vis name: type,`, with no
/// visibility word for a private field.
pub open spec fn field_text(f: FieldView) -> Seq<char> {
    if f.vis.len() == 0 {
        " "@ + f.name + ": "@ + f.ty + ","@
    } else {
        " "@ + f.vis + " "@ + f.name + ": "@ + f.ty + ","@
    }
}

/// The fields one after the other, in order.
pub open spec fn fields_text(fs: Seq<FieldView>) -> Seq<char>
    decreases fs.len(),
{
    if fs.len() == 0 {
        Seq::empty()
    } else {
        fields_text(fs.drop_last()) + field_text(fs.last())
    }
}

/// A public struct declaration with the record's name and fields.
pub open spec fn declaration_text(s: SchemaView) -> Seq<char> {
    "pub struct "@ + s.name + " {"@ + fields_text(s.fields) + " }"@
}

impl Field {
    /// This field as written in a struct body.
    pub fn render(&self) -> (r: String)
        ensures
            r@ == field_text(self@),
    {
        let mut out = String::from_str(" ");
        if !self.vis.as_str().is_empty() {
            out.append(self.vis.as_str());
            out.append(" ");
        }
        out.append(self.name.as_str());
        out.append(": ");
        out.append(self.ty.text.as_str());
        out.append(",");
        out
    }
}

impl RecordSchema {
    /// The record as a public struct declaration, in Rust syntax.
    pub fn render(&self) -> (r: String)
        ensures
            r@ == declaration_text(self@),
    {
        let mut out = String::from_str("pub struct ");
        out.append(self.name.as_str());
        out.append(" {");
        let ghost head = out@;
        let ghost fs = fields_view(self.fields@);
        let n = self.fields.len();
        assert(fs.take(0) =~= Seq::<FieldView>::empty());
        for i in 0..n
            invariant
                n == self.fields@.len(),
                fs == fields_view(self.fields@),
                out@ == head + fields_text(fs.take(i as int)),
        {
            let text = self.fields[i].render();
            out.append(text.as_str());
            assert(fs.take(i + 1).drop_last() =~= fs.take(i as int));
        }
        assert(fs.take(n as int) =~= fs);
        out.append(" }");
        out
    }
}

} // verus!
