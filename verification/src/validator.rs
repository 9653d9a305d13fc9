use vstd::prelude::*;
use crate::dec::Dec;
use crate::model::ValidatorModel;
use crate::pattern::{pattern_compiles, regex_ok};

verus! {

/// One schema node: what a data node of the same place must look like.
/// An `Object` lists the required fields by name; names absent from the
/// list are unconstrained. Scalar nodes may carry one optional constraint,
/// and a `List` constrains every element with a single child validator.
#[derive(Debug)]
#[allow(inconsistent_fields)]
pub enum AS3Validator {
    Object(Vec<(String, AS3Validator)>),
    String { regex: Option<String> },
    Integer { minimum: Option<i64> },
    Decimal { minimum: Option<Dec> },
    List(Box<AS3Validator>),
}

/// The model of an object validator's required fields, in declaration
/// order.
pub open spec fn validator_fields_model(s: Seq<(String, AS3Validator)>) -> Seq<
    (Seq<char>, ValidatorModel),
>
    decreases s,
{
    if s.len() == 0 {
        Seq::empty()
    } else {
        validator_fields_model(s.drop_last()).push(
            (s[s.len() - 1].0@, s[s.len() - 1].1.model()),
        )
    }
}

impl AS3Validator {
    /// The mathematical reading of this validator tree.
    pub open spec fn model(self) -> ValidatorModel
        decreases self,
    {
        match self {
            AS3Validator::Object(fields) => ValidatorModel::Object(
                validator_fields_model(fields@),
            ),
            AS3Validator::String { regex } => ValidatorModel::String(
                match regex {
                    Some(p) => Some(p@),
                    None => None,
                },
            ),
            AS3Validator::Integer { minimum } => ValidatorModel::Integer(minimum),
            AS3Validator::Decimal { minimum } => ValidatorModel::Decimal(minimum),
            AS3Validator::List(item) => ValidatorModel::List(Box::new((*item).model())),
        }
    }
}

impl View for AS3Validator {
    type V = ValidatorModel;

    open spec fn view(&self) -> ValidatorModel {
        self.model()
    }
}

impl Clone for AS3Validator {
    /// A clone reads as the same validator.
    fn clone(&self) -> (r: Self)
        ensures
            r@ == self@,
    {
        clone_validator(self)
    }
}

fn clone_validator(v: &AS3Validator) -> (r: AS3Validator)
    ensures
        r@ == v@,
    decreases *v,
{
    match v {
        AS3Validator::Object(fields) => {
            let n = fields.len();
            let mut out: Vec<(String, AS3Validator)> = Vec::new();
            let mut i: usize = 0;
            while i < n
                invariant
                    *v == AS3Validator::Object(*fields),
                    n == fields.len(),
                    i <= n,
                    out@.len() == i,
                    forall|j: int|
                        0 <= j < i ==> (#[trigger] out@[j]).0@ == fields@[j].0@ && out@[j].1.model()
                            == fields@[j].1.model(),
                decreases n - i,
            {
                proof {
                    assert(decreases_to!(*v => v->Object_0));
                    assert(decreases_to!(*fields => fields@));
                    assert(decreases_to!(fields@ => fields@[i as int]));
                    assert(decreases_to!(fields@[i as int] => fields@[i as int].1));
                    assert(decreases_to!(*v => fields@[i as int].1));
                }
                let entry = &fields[i];
                let child = clone_validator(&entry.1);
                out.push((entry.0.clone(), child));
                i += 1;
            }
            proof {
                lemma_validator_fields_model(out@);
                lemma_validator_fields_model(fields@);
                assert(validator_fields_model(out@) =~= validator_fields_model(fields@));
            }
            AS3Validator::Object(out)
        },
        AS3Validator::String { regex } => AS3Validator::String {
            regex: match regex {
                Some(p) => Some(p.clone()),
                None => None,
            },
        },
        AS3Validator::Integer { minimum } => AS3Validator::Integer { minimum: *minimum },
        AS3Validator::Decimal { minimum } => AS3Validator::Decimal { minimum: *minimum },
        AS3Validator::List(item) => {
            proof {
                assert(decreases_to!(*v => v->List_0));
                assert(decreases_to!(*v => **item));
            }
            AS3Validator::List(Box::new(clone_validator(item)))
        },
    }
}

impl PartialEq for AS3Validator {
    /// Two validators are equal when they read as the same schema.
    fn eq(&self, other: &Self) -> (r: bool) {
        validator_eq(self, other)
    }
}

impl vstd::std_specs::cmp::PartialEqSpecImpl for AS3Validator {
    open spec fn obeys_eq_spec() -> bool {
        true
    }

    open spec fn eq_spec(&self, other: &Self) -> bool {
        self@ == other@
    }
}

fn validator_eq(a: &AS3Validator, b: &AS3Validator) -> (r: bool)
    ensures
        r == (a@ == b@),
    decreases *a,
{
    match (a, b) {
        (AS3Validator::Object(af), AS3Validator::Object(bf)) => {
            proof {
                lemma_validator_fields_model(af@);
                lemma_validator_fields_model(bf@);
            }
            let n = af.len();
            if bf.len() != n {
                return false;
            }
            let mut i: usize = 0;
            while i < n
                invariant
                    *a == AS3Validator::Object(*af),
                    *b == AS3Validator::Object(*bf),
                    n == af.len(),
                    n == bf.len(),
                    i <= n,
                    forall|j: int|
                        0 <= j < i ==> #[trigger] validator_fields_model(af@)[j]
                            == validator_fields_model(bf@)[j],
                decreases n - i,
            {
                proof {
                    lemma_validator_fields_model(af@);
                    lemma_validator_fields_model(bf@);
                    assert(decreases_to!(*a => a->Object_0));
                    assert(decreases_to!(*af => af@));
                    assert(decreases_to!(af@ => af@[i as int]));
                    assert(decreases_to!(af@[i as int] => af@[i as int].1));
                    assert(decreases_to!(*a => af@[i as int].1));
                }
                let ea = &af[i];
                let eb = &bf[i];
                if !(ea.0 == eb.0) {
                    proof {
                        assert(validator_fields_model(af@)[i as int] != validator_fields_model(
                            bf@,
                        )[i as int]);
                        assert(a@ != b@);
                    }
                    return false;
                }
                if !validator_eq(&ea.1, &eb.1) {
                    proof {
                        assert(validator_fields_model(af@)[i as int] != validator_fields_model(
                            bf@,
                        )[i as int]);
                        assert(a@ != b@);
                    }
                    return false;
                }
                i += 1;
            }
            proof {
                lemma_validator_fields_model(af@);
                lemma_validator_fields_model(bf@);
                assert(validator_fields_model(af@) =~= validator_fields_model(bf@));
            }
            true
        },
        (AS3Validator::String { regex: ra }, AS3Validator::String { regex: rb }) => match (
            ra,
            rb,
        ) {
            (Some(pa), Some(pb)) => *pa == *pb,
            (None, None) => true,
            _ => false,
        },
        (
            AS3Validator::Integer { minimum: ma },
            AS3Validator::Integer { minimum: mb },
        ) => match (ma, mb) {
            (Some(xa), Some(xb)) => *xa == *xb,
            (None, None) => true,
            _ => false,
        },
        (
            AS3Validator::Decimal { minimum: ma },
            AS3Validator::Decimal { minimum: mb },
        ) => match (ma, mb) {
            (Some(xa), Some(xb)) => *xa == *xb,
            (None, None) => true,
            _ => false,
        },
        (AS3Validator::List(ia), AS3Validator::List(ib)) => {
            proof {
                assert(decreases_to!(*a => a->List_0));
                assert(decreases_to!(*a => **ia));
            }
            validator_eq(ia, ib)
        },
        _ => false,
    }
}

/// The fields' model reads off entry by entry.
pub broadcast proof fn lemma_validator_fields_model(s: Seq<(String, AS3Validator)>)
    ensures
        (#[trigger] validator_fields_model(s)).len() == s.len(),
        forall|j: int|
            0 <= j < s.len() ==> validator_fields_model(s)[j] == (s[j].0@, s[j].1.model()),
    decreases s.len(),
{
    if s.len() > 0 {
        lemma_validator_fields_model(s.drop_last());
    }
}

/// A validator is well formed when every regular expression it declares
/// compiles.
pub open spec fn wf_validator(v: ValidatorModel) -> bool
    decreases v, 0nat,
{
    match v {
        ValidatorModel::Object(fields) => wf_fields_from(fields, 0),
        ValidatorModel::String(pat) => match pat {
            Some(p) => regex_ok(p),
            None => true,
        },
        ValidatorModel::Integer(_) => true,
        ValidatorModel::Decimal(_) => true,
        ValidatorModel::List(item) => wf_validator(*item),
    }
}

/// Well-formedness of an object validator's fields, from position `i` on.
pub open spec fn wf_fields_from(fields: Seq<(Seq<char>, ValidatorModel)>, i: int) -> bool
    decreases fields, fields.len() - i,
{
    if i < 0 || i >= fields.len() {
        true
    } else {
        wf_validator(fields[i].1) && wf_fields_from(fields, i + 1)
    }
}

impl AS3Validator {
    /// Reports whether every pattern declared in this validator tree is a
    /// valid regular expression; only such a tree can be validated against.
    pub fn is_wf(&self) -> (r: bool)
        ensures
            r == wf_validator(self@),
        decreases *self,
    {
        match self {
            AS3Validator::Object(fields) => {
                let n = fields.len();
                let mut i: usize = 0;
                while i < n
                    invariant
                        *self == AS3Validator::Object(*fields),
                        n == fields.len(),
                        i <= n,
                        wf_fields_from(validator_fields_model(fields@), 0) <==> wf_fields_from(
                            validator_fields_model(fields@),
                            i as int,
                        ),
                    decreases n - i,
                {
                    proof {
                        lemma_validator_fields_model(fields@);
                        assert(decreases_to!(*self => self->Object_0));
                        assert(decreases_to!(*fields => fields@));
                        assert(decreases_to!(fields@ => fields@[i as int]));
                        assert(decreases_to!(fields@[i as int] => fields@[i as int].1));
                        assert(decreases_to!(*self => fields@[i as int].1));
                    }
                    if !fields[i].1.is_wf() {
                        proof {
                            assert(!wf_fields_from(validator_fields_model(fields@), i as int));
                        }
                        return false;
                    }
                    i += 1;
                }
                proof {
                    lemma_validator_fields_model(fields@);
                    assert(wf_fields_from(validator_fields_model(fields@), n as int));
                }
                true
            },
            AS3Validator::String { regex } => match regex {
                Some(p) => pattern_compiles(p.as_str()),
                None => true,
            },
            AS3Validator::Integer { .. } => true,
            AS3Validator::Decimal { .. } => true,
            AS3Validator::List(item) => item.is_wf(),
        }
    }
}

} // verus!
