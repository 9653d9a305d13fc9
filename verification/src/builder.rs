use vstd::prelude::*;
use vstd::string::StringExecFns;
use crate::dec::Dec;
use crate::document::{document_fields_model, lemma_document_fields_model, Document};
use crate::engine::{lookup, lookup_from};
use crate::error::BuildError;
use crate::model::{DocumentModel, ValidatorModel};
use crate::validator::{lemma_validator_fields_model, validator_fields_model, AS3Validator};

verus! {

/// What building a validator from a configuration document returns. The
/// top level must be a mapping with a `Root` entry; that entry is the root
/// schema node.
pub open spec fn spec_build_root(doc: DocumentModel) -> Result<ValidatorModel, BuildError> {
    match doc {
        DocumentModel::Mapping(entries) => match lookup(entries, "Root"@) {
            Some(node) => spec_build_node(node),
            None => Err(BuildError::MissingRoot),
        },
        _ => Err(BuildError::NotAMapping),
    }
}

/// What building one schema node returns. A node is a mapping whose
/// `+Type` entry names the validator kind; an `Object` node's other entries
/// declare its required fields, a scalar node may carry its one optional
/// constraint, and a `List` node carries exactly one item schema.
pub open spec fn spec_build_node(doc: DocumentModel) -> Result<ValidatorModel, BuildError>
    decreases doc, 0nat,
{
    match doc {
        DocumentModel::Mapping(entries) => match lookup(entries, "+Type"@) {
            None => Err(BuildError::MissingDiscriminator),
            Some(tnode) => match tnode {
                DocumentModel::Text(t) => if t == "Object"@ {
                    match build_fields_from(entries, 0) {
                        Ok(fields) => Ok(ValidatorModel::Object(fields)),
                        Err(e) => Err(e),
                    }
                } else if t == "String"@ {
                    match lookup(entries, "regex"@) {
                        None => Ok(ValidatorModel::String(None)),
                        Some(DocumentModel::Text(p)) => Ok(ValidatorModel::String(Some(p))),
                        Some(_) => Err(BuildError::RegexNotText),
                    }
                } else if t == "Integer"@ {
                    match lookup(entries, "minimum"@) {
                        None => Ok(ValidatorModel::Integer(None)),
                        Some(DocumentModel::Integer(n)) => Ok(ValidatorModel::Integer(Some(n))),
                        Some(_) => Err(BuildError::MinimumNotInteger),
                    }
                } else if t == "Decimal"@ {
                    match lookup(entries, "minimum"@) {
                        None => Ok(ValidatorModel::Decimal(None)),
                        Some(DocumentModel::Integer(n)) => Ok(
                            ValidatorModel::Decimal(Some(Dec { units: n, micros: 0u32 })),
                        ),
                        Some(DocumentModel::Decimal(d)) => Ok(ValidatorModel::Decimal(Some(d))),
                        Some(_) => Err(BuildError::MinimumNotNumeric),
                    }
                } else if t == "List"@ {
                    match build_fields_from(entries, 0) {
                        Ok(fields) => if fields.len() == 1 {
                            Ok(ValidatorModel::List(Box::new(fields[0].1)))
                        } else {
                            Err(BuildError::ListItemCount)
                        },
                        Err(e) => Err(e),
                    }
                } else {
                    Err(BuildError::UnknownTypeName)
                },
                _ => Err(BuildError::DiscriminatorNotText),
            },
        },
        _ => Err(BuildError::NotAMapping),
    }
}

/// The field declarations of a node, from position `i` on: every entry but
/// the discriminator, each with its child validator built; the first child
/// that fails to build decides the result.
pub open spec fn build_fields_from(entries: Seq<(Seq<char>, DocumentModel)>, i: int) -> Result<
    Seq<(Seq<char>, ValidatorModel)>,
    BuildError,
>
    decreases entries, entries.len() - i,
{
    if i < 0 || i >= entries.len() {
        Ok(Seq::empty())
    } else if entries[i].0 == "+Type"@ {
        build_fields_from(entries, i + 1)
    } else {
        match spec_build_node(entries[i].1) {
            Err(e) => Err(e),
            Ok(child) => match build_fields_from(entries, i + 1) {
                Err(e) => Err(e),
                Ok(rest) => Ok(seq![(entries[i].0, child)] + rest),
            },
        }
    }
}

/// Finds the entry named `key` in a mapping: the first match, as `lookup`
/// reads it.
fn get_entry<'a>(entries: &'a Vec<(String, Document)>, key: &String) -> (r: Option<&'a Document>)
    ensures
        (match r {
            Some(c) => lookup(document_fields_model(entries@), key@) == Some(c@),
            None => lookup(document_fields_model(entries@), key@) is None,
        }),
{
    let n = entries.len();
    let mut i: usize = 0;
    while i < n
        invariant
            n == entries.len(),
            i <= n,
            lookup_from(document_fields_model(entries@), key@, 0) == lookup_from(
                document_fields_model(entries@),
                key@,
                i as int,
            ),
        decreases n - i,
    {
        proof {
            lemma_document_fields_model(entries@);
        }
        let entry = &entries[i];
        if entry.0 == *key {
            return Some(&entry.1);
        }
        i += 1;
    }
    proof {
        lemma_document_fields_model(entries@);
    }
    None
}

/// Builds the field declarations of a node: every entry but the
/// discriminator, in document order, each child built recursively.
fn build_fields(entries: &Vec<(String, Document)>) -> (r: Result<
    Vec<(String, AS3Validator)>,
    BuildError,
>)
    ensures
        (match r {
            Ok(fields) => build_fields_from(document_fields_model(entries@), 0)
                == Ok::<Seq<(Seq<char>, ValidatorModel)>, BuildError>(
                validator_fields_model(fields@),
            ),
            Err(e) => build_fields_from(document_fields_model(entries@), 0) == Err::<
                Seq<(Seq<char>, ValidatorModel)>,
                BuildError,
            >(e),
        }),
    decreases *entries,
{
    let marker = String::from_str("+Type");
    let n = entries.len();
    let mut out: Vec<(String, AS3Validator)> = Vec::new();
    let mut i: usize = 0;
    while i < n
        invariant
            marker@ == "+Type"@,
            n == entries.len(),
            i <= n,
            (build_fields_from(document_fields_model(entries@), i as int) is Ok
                ==> build_fields_from(document_fields_model(entries@), 0) == Ok::<
                Seq<(Seq<char>, ValidatorModel)>,
                BuildError,
            >(
                validator_fields_model(out@) + build_fields_from(
                    document_fields_model(entries@),
                    i as int,
                )->Ok_0,
            )),
            (build_fields_from(document_fields_model(entries@), i as int) is Err
                ==> build_fields_from(document_fields_model(entries@), 0) == build_fields_from(
                document_fields_model(entries@),
                i as int,
            )),
        decreases n - i,
    {
        proof {
            lemma_document_fields_model(entries@);
            lemma_validator_fields_model(out@);
            assert(decreases_to!(*entries => entries@));
            assert(decreases_to!(entries@ => entries@[i as int]));
            assert(decreases_to!(entries@[i as int] => entries@[i as int].1));
            assert(decreases_to!(*entries => entries@[i as int].1));
        }
        let ghost em = document_fields_model(entries@);
        let ghost old_out = out@;
        let entry = &entries[i];
        if !(entry.0 == marker) {
            match from_document_node(&entry.1) {
                Err(e) => {
                    return Err(e);
                },
                Ok(child) => {
                    out.push((entry.0.clone(), child));
                    proof {
                        lemma_validator_fields_model(out@);
                        lemma_validator_fields_model(old_out);
                        if build_fields_from(em, i + 1) is Ok {
                            let rest = build_fields_from(em, i + 1)->Ok_0;
                            let built = (em[i as int].0, child@);
                            assert(build_fields_from(em, i as int) == Ok::<
                                Seq<(Seq<char>, ValidatorModel)>,
                                BuildError,
                            >(seq![built] + rest));
                            assert(validator_fields_model(old_out) + (seq![built] + rest)
                                =~= validator_fields_model(out@) + rest);
                        }
                    }
                },
            }
        }
        i += 1;
    }
    proof {
        lemma_document_fields_model(entries@);
        lemma_validator_fields_model(out@);
        assert(validator_fields_model(out@) + Seq::<(Seq<char>, ValidatorModel)>::empty()
            =~= validator_fields_model(out@));
    }
    Ok(out)
}

/// Builds one schema node from its document form.
fn from_document_node(doc: &Document) -> (r: Result<AS3Validator, BuildError>)
    ensures
        (match r {
            Ok(v) => spec_build_node(doc@) == Ok::<ValidatorModel, BuildError>(v@),
            Err(e) => spec_build_node(doc@) == Err::<ValidatorModel, BuildError>(e),
        }),
    decreases *doc,
{
    match doc {
        Document::Mapping(entries) => {
            proof {
                assert(decreases_to!(*doc => doc->Mapping_0));
                assert(decreases_to!(*doc => *entries));
            }
            let marker = String::from_str("+Type");
            match get_entry(entries, &marker) {
                None => Err(BuildError::MissingDiscriminator),
                Some(tnode) => match tnode {
                    Document::Text(t) => {
                        if *t == String::from_str("Object") {
                            match build_fields(entries) {
                                Ok(fields) => Ok(AS3Validator::Object(fields)),
                                Err(e) => Err(e),
                            }
                        } else if *t == String::from_str("String") {
                            let regex_marker = String::from_str("regex");
                            match get_entry(entries, &regex_marker) {
                                None => Ok(AS3Validator::String { regex: None }),
                                Some(Document::Text(p)) => Ok(
                                    AS3Validator::String { regex: Some(p.clone()) },
                                ),
                                Some(_) => Err(BuildError::RegexNotText),
                            }
                        } else if *t == String::from_str("Integer") {
                            let minimum_marker = String::from_str("minimum");
                            match get_entry(entries, &minimum_marker) {
                                None => Ok(AS3Validator::Integer { minimum: None }),
                                Some(Document::Integer(m)) => Ok(
                                    AS3Validator::Integer { minimum: Some(*m) },
                                ),
                                Some(_) => Err(BuildError::MinimumNotInteger),
                            }
                        } else if *t == String::from_str("Decimal") {
                            let minimum_marker = String::from_str("minimum");
                            match get_entry(entries, &minimum_marker) {
                                None => Ok(AS3Validator::Decimal { minimum: None }),
                                Some(Document::Integer(m)) => Ok(
                                    AS3Validator::Decimal { minimum: Some(Dec::from_i64(*m)) },
                                ),
                                Some(Document::Decimal(d)) => Ok(
                                    AS3Validator::Decimal { minimum: Some(*d) },
                                ),
                                Some(_) => Err(BuildError::MinimumNotNumeric),
                            }
                        } else if *t == String::from_str("List") {
                            match build_fields(entries) {
                                Ok(mut fields) => {
                                    proof {
                                        lemma_validator_fields_model(fields@);
                                    }
                                    if fields.len() == 1 {
                                        match fields.pop() {
                                            Some(pair) => Ok(
                                                AS3Validator::List(Box::new(pair.1)),
                                            ),
                                            None => Err(BuildError::ListItemCount),
                                        }
                                    } else {
                                        Err(BuildError::ListItemCount)
                                    }
                                },
                                Err(e) => Err(e),
                            }
                        } else {
                            Err(BuildError::UnknownTypeName)
                        }
                    },
                    _ => Err(BuildError::DiscriminatorNotText),
                },
            }
        },
        _ => Err(BuildError::NotAMapping),
    }
}

impl AS3Validator {
    /// Builds a validator tree from a declarative configuration document,
    /// or reports why the document is malformed. The document's top level
    /// must be a mapping with a `Root` entry holding the root schema node.
    pub fn from_document(doc: &Document) -> (r: Result<AS3Validator, BuildError>)
        ensures
            (match r {
                Ok(v) => spec_build_root(doc@) == Ok::<ValidatorModel, BuildError>(v@),
                Err(e) => spec_build_root(doc@) == Err::<ValidatorModel, BuildError>(e),
            }),
    {
        match doc {
            Document::Mapping(entries) => {
                let root_marker = String::from_str("Root");
                match get_entry(entries, &root_marker) {
                    Some(node) => from_document_node(node),
                    None => Err(BuildError::MissingRoot),
                }
            },
            _ => Err(BuildError::NotAMapping),
        }
    }
}

} // verus!
