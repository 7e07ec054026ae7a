//! The shape of the index, as far as a filter may speak of it.

use vstd::prelude::*;

verus! {

/// The declared type of a field that a filter may mention.
#[derive(Clone, Copy, Debug, PartialEq, Eq, Structural)]
pub enum FieldType {
    String,
    Int,
}

impl FieldType {
    /// The type's name.
    pub open spec fn spec_label(self) -> Seq<char> {
        match self {
            FieldType::String => "string"@,
            FieldType::Int => "int"@,
        }
    }

    /// The type that a name denotes, if it denotes one.
    pub open spec fn named(label: Seq<char>) -> Option<FieldType> {
        if label == "string"@ {
            Some(FieldType::String)
        } else if label == "int"@ {
            Some(FieldType::Int)
        } else {
            None
        }
    }

    /// Reads a type's name; `None` when the name denotes no type.
    pub fn from_label(label: &str) -> (t: Option<FieldType>)
        ensures
            t == FieldType::named(label@),
    {
        let label = label.to_owned();
        if label == "string".to_owned() {
            Some(FieldType::String)
        } else if label == "int".to_owned() {
            Some(FieldType::Int)
        } else {
            None
        }
    }

    /// The type's name.
    pub fn label(&self) -> (l: &'static str)
        ensures
            l@ == self.spec_label(),
    {
        match self {
            FieldType::String => "string",
            FieldType::Int => "int",
        }
    }
}

/// Every field type is the one its own name denotes.
pub proof fn lemma_label_denotes_type(t: FieldType)
    ensures
        FieldType::named(t.spec_label()) == Some(t),
{
    reveal_strlit("string");
    reveal_strlit("int");
    assert("string"@.len() == 6 && "int"@.len() == 3);
}

/// A field that may appear in a filter expression.
pub struct FilterField {
    pub name: String,
    pub dtype: FieldType,
}

/// The mathematical content of a [`FilterField`].
pub ghost struct FilterFieldView {
    pub name: Seq<char>,
    pub dtype: FieldType,
}

impl View for FilterField {
    type V = FilterFieldView;

    open spec fn view(&self) -> FilterFieldView {
        FilterFieldView { name: self.name@, dtype: self.dtype }
    }
}

impl DeepView for FilterField {
    type V = FilterFieldView;

    open spec fn deep_view(&self) -> FilterFieldView {
        self@
    }
}

/// The fields of the index's schema that a filter may mention: the
/// document identifier, a string, and the page number, an integer.
pub open spec fn known_fields() -> Seq<FilterFieldView> {
    seq![
        FilterFieldView { name: "doc_id"@, dtype: FieldType::String },
        FilterFieldView { name: "page"@, dtype: FieldType::Int },
    ]
}

} // verus!
