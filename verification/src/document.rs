use vstd::prelude::*;
use crate::dec::Dec;
use crate::model::DocumentModel;

verus! {

/// One node of a declarative configuration: the generic tree a
/// configuration text parses into before a validator is built from it.
#[derive(Debug)]
pub enum Document {
    Mapping(Vec<(String, Document)>),
    Sequence(Vec<Document>),
    Text(String),
    Integer(i64),
    Decimal(Dec),
    Boolean(bool),
    Null,
}

/// The model of a mapping's entries, in document order.
pub open spec fn document_fields_model(s: Seq<(String, Document)>) -> Seq<
    (Seq<char>, DocumentModel),
>
    decreases s,
{
    if s.len() == 0 {
        Seq::empty()
    } else {
        document_fields_model(s.drop_last()).push(
            (s[s.len() - 1].0@, s[s.len() - 1].1.model()),
        )
    }
}

/// The model of a sequence's elements, in order.
pub open spec fn document_items_model(s: Seq<Document>) -> Seq<DocumentModel>
    decreases s,
{
    if s.len() == 0 {
        Seq::empty()
    } else {
        document_items_model(s.drop_last()).push(s[s.len() - 1].model())
    }
}

impl Document {
    /// The mathematical reading of this document tree.
    pub open spec fn model(self) -> DocumentModel
        decreases self,
    {
        match self {
            Document::Mapping(entries) => DocumentModel::Mapping(
                document_fields_model(entries@),
            ),
            Document::Sequence(items) => DocumentModel::Sequence(document_items_model(items@)),
            Document::Text(s) => DocumentModel::Text(s@),
            Document::Integer(n) => DocumentModel::Integer(n),
            Document::Decimal(d) => DocumentModel::Decimal(d),
            Document::Boolean(b) => DocumentModel::Boolean(b),
            Document::Null => DocumentModel::Null,
        }
    }
}

impl View for Document {
    type V = DocumentModel;

    open spec fn view(&self) -> DocumentModel {
        self.model()
    }
}

/// The entries' model reads off entry by entry.
pub broadcast proof fn lemma_document_fields_model(s: Seq<(String, Document)>)
    ensures
        (#[trigger] document_fields_model(s)).len() == s.len(),
        forall|j: int|
            0 <= j < s.len() ==> document_fields_model(s)[j] == (s[j].0@, s[j].1.model()),
    decreases s.len(),
{
    if s.len() > 0 {
        lemma_document_fields_model(s.drop_last());
    }
}

/// The elements' model reads off element by element.
pub broadcast proof fn lemma_document_items_model(s: Seq<Document>)
    ensures
        (#[trigger] document_items_model(s)).len() == s.len(),
        forall|j: int| 0 <= j < s.len() ==> document_items_model(s)[j] == s[j].model(),
    decreases s.len(),
{
    if s.len() > 0 {
        lemma_document_items_model(s.drop_last());
    }
}

} // verus!
