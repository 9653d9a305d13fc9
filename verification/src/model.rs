use vstd::prelude::*;
use crate::dec::Dec;

verus! {

/// The mathematical reading of one node of ingested data: field names and
/// text become character sequences, object fields and list elements become
/// sequences of models.
pub ghost enum ValueModel {
    Object(Seq<(Seq<char>, ValueModel)>),
    String(Seq<char>),
    Integer(i64),
    Decimal(Dec),
    Boolean(bool),
    List(Seq<ValueModel>),
}

/// The mathematical reading of one schema node, mirroring [`ValueModel`].
pub ghost enum ValidatorModel {
    Object(Seq<(Seq<char>, ValidatorModel)>),
    String(Option<Seq<char>>),
    Integer(Option<i64>),
    Decimal(Option<Dec>),
    List(Box<ValidatorModel>),
}

/// The mathematical reading of a validation failure.
pub ghost enum ErrorModel {
    TypeError { expected: ValidatorModel, got: ValueModel },
    MissingKey { key: Seq<char> },
    RegexError { word: Seq<char>, pattern: Seq<char> },
    Minimum { number: Dec, minimum: Dec },
}

/// The mathematical reading of one node of a declarative configuration
/// document.
pub ghost enum DocumentModel {
    Mapping(Seq<(Seq<char>, DocumentModel)>),
    Sequence(Seq<DocumentModel>),
    Text(Seq<char>),
    Integer(i64),
    Decimal(Dec),
    Boolean(bool),
    Null,
}

} // verus!
