use vstd::prelude::*;

verus! {

/// One field correspondence: `source -> target`.
#[derive(Clone, Debug, PartialEq)]
pub struct Field {
    pub source: String,
    pub target: String,
}

/// A parsed mapping declaration.
#[derive(Clone, Debug, PartialEq)]
pub struct Model {
    pub source_binding: String,
    pub target_binding: String,
    pub source_type: Vec<String>,
    pub target_type: Vec<String>,
    pub fields: Vec<Field>,
}

pub struct FieldView {
    pub source: Seq<char>,
    pub target: Seq<char>,
}

pub struct ModelView {
    pub source_binding: Seq<char>,
    pub target_binding: Seq<char>,
    pub source_type: Seq<Seq<char>>,
    pub target_type: Seq<Seq<char>>,
    pub fields: Seq<FieldView>,
}

impl View for Field {
    type V = FieldView;

    open spec fn view(&self) -> FieldView {
        FieldView { source: self.source@, target: self.target@ }
    }
}

impl View for Model {
    type V = ModelView;

    open spec fn view(&self) -> ModelView {
        ModelView {
            source_binding: self.source_binding@,
            target_binding: self.target_binding@,
            source_type: strs_view(self.source_type@),
            target_type: strs_view(self.target_type@),
            fields: fields_view(self.fields@),
        }
    }
}

pub open spec fn strs_view(v: Seq<String>) -> Seq<Seq<char>> {
    v.map_values(|s: String| s@)
}

pub open spec fn fields_view(v: Seq<Field>) -> Seq<FieldView> {
    v.map_values(|f: Field| f@)
}

/// A model is well formed when both type paths have at least one segment.
pub open spec fn model_wf(m: ModelView) -> bool {
    m.source_type.len() > 0 && m.target_type.len() > 0
}

} // verus!
