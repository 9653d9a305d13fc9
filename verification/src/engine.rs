use vstd::prelude::*;
use crate::data::{
    data_fields_model, data_items_model, lemma_data_fields_model, lemma_data_items_model, AS3Data,
};
use crate::dec::Dec;
use crate::error::AS3ValidationError;
use crate::model::{ErrorModel, ValidatorModel, ValueModel};
use crate::pattern::{pattern_matches, regex_match};
use crate::validator::{
    lemma_validator_fields_model, validator_fields_model, wf_fields_from, wf_validator,
    AS3Validator,
};

verus! {

/// The first entry at or after position `i` whose name is `key`, if any.
pub open spec fn lookup_from<T>(entries: Seq<(Seq<char>, T)>, key: Seq<char>, i: int) -> Option<T>
    decreases entries.len() - i,
{
    if i < 0 || i >= entries.len() {
        None
    } else if entries[i].0 == key {
        Some(entries[i].1)
    } else {
        lookup_from(entries, key, i + 1)
    }
}

/// The first entry whose name is `key`, if any.
pub open spec fn lookup<T>(entries: Seq<(Seq<char>, T)>, key: Seq<char>) -> Option<T> {
    lookup_from(entries, key, 0)
}

/// What validating a value against a validator returns: success, or the
/// first violation in traversal order. Required fields are taken in
/// declaration order and list elements in list order; the walk stops at the
/// first failure. A validator and a value of different shapes fail as a
/// type mismatch before any constraint is read.
pub open spec fn spec_validate(v: ValidatorModel, d: ValueModel) -> Result<(), ErrorModel>
    decreases v, 0nat,
{
    match (v, d) {
        (ValidatorModel::Object(req), ValueModel::Object(entries)) => validate_fields_from(
            req,
            entries,
            0,
        ),
        (ValidatorModel::String(pat), ValueModel::String(s)) => match pat {
            Some(p) => if regex_match(p, s) {
                Ok(())
            } else {
                Err(ErrorModel::RegexError { word: s, pattern: p })
            },
            None => Ok(()),
        },
        (ValidatorModel::Integer(min), ValueModel::Integer(n)) => match min {
            Some(m) => if n < m {
                Err(
                    ErrorModel::Minimum {
                        number: Dec { units: n, micros: 0u32 },
                        minimum: Dec { units: m, micros: 0u32 },
                    },
                )
            } else {
                Ok(())
            },
            None => Ok(()),
        },
        (ValidatorModel::Decimal(min), ValueModel::Decimal(x)) => match min {
            Some(m) => if x.spec_lt(m) {
                Err(ErrorModel::Minimum { number: x, minimum: m })
            } else {
                Ok(())
            },
            None => Ok(()),
        },
        (ValidatorModel::List(item), ValueModel::List(elems)) => validate_items_from(
            *item,
            elems,
            0,
        ),
        _ => Err(ErrorModel::TypeError { expected: v, got: d }),
    }
}

/// Validation of an object's required fields from position `i` on: the
/// first missing or failing field decides the result.
pub open spec fn validate_fields_from(
    req: Seq<(Seq<char>, ValidatorModel)>,
    entries: Seq<(Seq<char>, ValueModel)>,
    i: int,
) -> Result<(), ErrorModel>
    decreases req, req.len() - i,
{
    if i < 0 || i >= req.len() {
        Ok(())
    } else {
        match lookup(entries, req[i].0) {
            None => Err(ErrorModel::MissingKey { key: req[i].0 }),
            Some(child) => match spec_validate(req[i].1, child) {
                Err(e) => Err(e),
                Ok(()) => validate_fields_from(req, entries, i + 1),
            },
        }
    }
}

/// Validation of a list's elements from position `i` on, every element
/// against the same item validator: the first failing element decides the
/// result.
pub open spec fn validate_items_from(
    item: ValidatorModel,
    elems: Seq<ValueModel>,
    i: int,
) -> Result<(), ErrorModel>
    decreases item, elems.len() - i,
{
    if i < 0 || i >= elems.len() {
        Ok(())
    } else {
        match spec_validate(item, elems[i]) {
            Err(e) => Err(e),
            Ok(()) => validate_items_from(item, elems, i + 1),
        }
    }
}

/// The mathematical reading of a validation result.
pub open spec fn result_model(r: Result<(), AS3ValidationError>) -> Result<(), ErrorModel> {
    match r {
        Ok(()) => Ok(()),
        Err(e) => Err(e@),
    }
}

/// Finds the field named `key` in an object's entries: the first match, as
/// `lookup` reads it.
fn get_field<'a>(entries: &'a Vec<(String, AS3Data)>, key: &String) -> (r: Option<&'a AS3Data>)
    ensures
        (match r {
            Some(c) => lookup(data_fields_model(entries@), key@) == Some(c@),
            None => lookup(data_fields_model(entries@), key@) is None,
        }),
{
    let n = entries.len();
    let mut i: usize = 0;
    while i < n
        invariant
            n == entries.len(),
            i <= n,
            lookup_from(data_fields_model(entries@), key@, 0) == lookup_from(
                data_fields_model(entries@),
                key@,
                i as int,
            ),
        decreases n - i,
    {
        proof {
            lemma_data_fields_model(entries@);
        }
        let entry = &entries[i];
        if entry.0 == *key {
            return Some(&entry.1);
        }
        i += 1;
    }
    proof {
        lemma_data_fields_model(entries@);
    }
    None
}

impl AS3Validator {
    /// Decides whether `data` conforms to this validator, returning the
    /// first violation found in traversal order. Every regular expression
    /// the validator declares must compile; `try_validate` checks that
    /// first.
    pub fn validate(&self, data: &AS3Data) -> (r: Result<(), AS3ValidationError>)
        requires
            wf_validator(self@),
        ensures
            result_model(r) == spec_validate(self@, data@),
        decreases *self,
    {
        match (self, data) {
            (AS3Validator::Object(req), AS3Data::Object(entries)) => {
                let n = req.len();
                let mut i: usize = 0;
                while i < n
                    invariant
                        *self == AS3Validator::Object(*req),
                        *data == AS3Data::Object(*entries),
                        n == req.len(),
                        i <= n,
                        wf_fields_from(validator_fields_model(req@), i as int),
                        validate_fields_from(
                            validator_fields_model(req@),
                            data_fields_model(entries@),
                            0,
                        ) == validate_fields_from(
                            validator_fields_model(req@),
                            data_fields_model(entries@),
                            i as int,
                        ),
                    decreases n - i,
                {
                    proof {
                        lemma_validator_fields_model(req@);
                        assert(decreases_to!(*self => self->Object_0));
                        assert(decreases_to!(*req => req@));
                        assert(decreases_to!(req@ => req@[i as int]));
                        assert(decreases_to!(req@[i as int] => req@[i as int].1));
                        assert(decreases_to!(*self => req@[i as int].1));
                    }
                    let entry = &req[i];
                    match get_field(entries, &entry.0) {
                        None => {
                            return Err(AS3ValidationError::MissingKey { key: entry.0.clone() });
                        },
                        Some(child) => match entry.1.validate(child) {
                            Err(e) => {
                                return Err(e);
                            },
                            Ok(()) => {},
                        },
                    }
                    i += 1;
                }
                proof {
                    lemma_validator_fields_model(req@);
                }
                Ok(())
            },
            (AS3Validator::String { regex }, AS3Data::String(s)) => match regex {
                Some(p) => {
                    if pattern_matches(p.as_str(), s.as_str()) {
                        Ok(())
                    } else {
                        Err(AS3ValidationError::RegexError { word: s.clone(), regex: p.clone() })
                    }
                },
                None => Ok(()),
            },
            (AS3Validator::Integer { minimum }, AS3Data::Integer(n)) => match minimum {
                Some(m) => if *n < *m {
                    Err(
                        AS3ValidationError::Minimum {
                            number: Dec::from_i64(*n),
                            minimum: Dec::from_i64(*m),
                        },
                    )
                } else {
                    Ok(())
                },
                None => Ok(()),
            },
            (AS3Validator::Decimal { minimum }, AS3Data::Decimal(x)) => match minimum {
                Some(m) => if x.is_lt(*m) {
                    Err(AS3ValidationError::Minimum { number: *x, minimum: *m })
                } else {
                    Ok(())
                },
                None => Ok(()),
            },
            (AS3Validator::List(item), AS3Data::List(elems)) => {
                let n = elems.len();
                let mut i: usize = 0;
                while i < n
                    invariant
                        *self == AS3Validator::List(*item),
                        *data == AS3Data::List(*elems),
                        n == elems.len(),
                        i <= n,
                        wf_validator((**item)@),
                        validate_items_from((**item)@, data_items_model(elems@), 0)
                            == validate_items_from(
                            (**item)@,
                            data_items_model(elems@),
                            i as int,
                        ),
                    decreases n - i,
                {
                    proof {
                        lemma_data_items_model(elems@);
                        assert(decreases_to!(*self => self->List_0));
                        assert(decreases_to!(*self => **item));
                    }
                    match item.validate(&elems[i]) {
                        Err(e) => {
                            return Err(e);
                        },
                        Ok(()) => {},
                    }
                    i += 1;
                }
                proof {
                    lemma_data_items_model(elems@);
                }
                Ok(())
            },
            _ => Err(
                AS3ValidationError::TypeError { expected: self.clone(), got: data.clone() },
            ),
        }
    }

    /// Validates `data` when every declared pattern compiles; reports
    /// `None` when one does not, instead of attempting the walk.
    pub fn try_validate(&self, data: &AS3Data) -> (r: Option<Result<(), AS3ValidationError>>)
        ensures
            r is Some <==> wf_validator(self@),
            (r matches Some(inner) ==> result_model(inner) == spec_validate(self@, data@)),
    {
        if self.is_wf() {
            Some(self.validate(data))
        } else {
            None
        }
    }
}

} // verus!
