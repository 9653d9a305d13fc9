use vstd::prelude::*;
use crate::dec::Dec;
use crate::model::ValueModel;

verus! {

/// One node of ingested data: an object of uniquely named fields, a list of
/// elements, or a scalar. A number with no fractional part that fits a
/// 64-bit signed integer is an `Integer`; any other number is a `Decimal`.
#[derive(Debug)]
pub enum AS3Data {
    Object(Vec<(String, AS3Data)>),
    String(String),
    Integer(i64),
    Decimal(Dec),
    Boolean(bool),
    List(Vec<AS3Data>),
}

/// The model of an object's fields: each entry keeps its place, its name
/// becomes a character sequence and its value a [`ValueModel`].
pub open spec fn data_fields_model(s: Seq<(String, AS3Data)>) -> Seq<(Seq<char>, ValueModel)>
    decreases s,
{
    if s.len() == 0 {
        Seq::empty()
    } else {
        data_fields_model(s.drop_last()).push((s[s.len() - 1].0@, s[s.len() - 1].1.model()))
    }
}

/// The model of a list's elements, in order.
pub open spec fn data_items_model(s: Seq<AS3Data>) -> Seq<ValueModel>
    decreases s,
{
    if s.len() == 0 {
        Seq::empty()
    } else {
        data_items_model(s.drop_last()).push(s[s.len() - 1].model())
    }
}

impl AS3Data {
    /// The mathematical reading of this data tree.
    pub open spec fn model(self) -> ValueModel
        decreases self,
    {
        match self {
            AS3Data::Object(fields) => ValueModel::Object(data_fields_model(fields@)),
            AS3Data::String(s) => ValueModel::String(s@),
            AS3Data::Integer(n) => ValueModel::Integer(n),
            AS3Data::Decimal(d) => ValueModel::Decimal(d),
            AS3Data::Boolean(b) => ValueModel::Boolean(b),
            AS3Data::List(items) => ValueModel::List(data_items_model(items@)),
        }
    }
}

impl View for AS3Data {
    type V = ValueModel;

    open spec fn view(&self) -> ValueModel {
        self.model()
    }
}

impl Clone for AS3Data {
    /// A clone reads as the same value.
    fn clone(&self) -> (r: Self)
        ensures
            r@ == self@,
    {
        clone_data(self)
    }
}

fn clone_data(d: &AS3Data) -> (r: AS3Data)
    ensures
        r@ == d@,
    decreases *d,
{
    match d {
        AS3Data::Object(fields) => {
            let n = fields.len();
            let mut out: Vec<(String, AS3Data)> = Vec::new();
            let mut i: usize = 0;
            while i < n
                invariant
                    *d == AS3Data::Object(*fields),
                    n == fields.len(),
                    i <= n,
                    out@.len() == i,
                    forall|j: int|
                        0 <= j < i ==> (#[trigger] out@[j]).0@ == fields@[j].0@ && out@[j].1.model()
                            == fields@[j].1.model(),
                decreases n - i,
            {
                proof {
                    assert(decreases_to!(*d => d->Object_0));
                    assert(decreases_to!(*fields => fields@));
                    assert(decreases_to!(fields@ => fields@[i as int]));
                    assert(decreases_to!(fields@[i as int] => fields@[i as int].1));
                    assert(decreases_to!(*d => fields@[i as int].1));
                }
                let entry = &fields[i];
                let child = clone_data(&entry.1);
                out.push((entry.0.clone(), child));
                i += 1;
            }
            proof {
                lemma_data_fields_model(out@);
                lemma_data_fields_model(fields@);
                assert(data_fields_model(out@) =~= data_fields_model(fields@));
            }
            AS3Data::Object(out)
        },
        AS3Data::String(s) => AS3Data::String(s.clone()),
        AS3Data::Integer(n) => AS3Data::Integer(*n),
        AS3Data::Decimal(x) => AS3Data::Decimal(*x),
        AS3Data::Boolean(b) => AS3Data::Boolean(*b),
        AS3Data::List(items) => {
            let n = items.len();
            let mut out: Vec<AS3Data> = Vec::new();
            let mut i: usize = 0;
            while i < n
                invariant
                    *d == AS3Data::List(*items),
                    n == items.len(),
                    i <= n,
                    out@.len() == i,
                    forall|j: int|
                        0 <= j < i ==> (#[trigger] out@[j]).model() == items@[j].model(),
                decreases n - i,
            {
                proof {
                    assert(decreases_to!(*d => d->List_0));
                    assert(decreases_to!(*items => items@));
                    assert(decreases_to!(items@ => items@[i as int]));
                    assert(decreases_to!(*d => items@[i as int]));
                }
                let child = clone_data(&items[i]);
                out.push(child);
                i += 1;
            }
            proof {
                lemma_data_items_model(out@);
                lemma_data_items_model(items@);
                assert(data_items_model(out@) =~= data_items_model(items@));
            }
            AS3Data::List(out)
        },
    }
}

impl PartialEq for AS3Data {
    /// Two data trees are equal when they read as the same value.
    fn eq(&self, other: &Self) -> (r: bool) {
        data_eq(self, other)
    }
}

impl vstd::std_specs::cmp::PartialEqSpecImpl for AS3Data {
    open spec fn obeys_eq_spec() -> bool {
        true
    }

    open spec fn eq_spec(&self, other: &Self) -> bool {
        self@ == other@
    }
}

fn data_eq(a: &AS3Data, b: &AS3Data) -> (r: bool)
    ensures
        r == (a@ == b@),
    decreases *a,
{
    match (a, b) {
        (AS3Data::Object(af), AS3Data::Object(bf)) => {
            proof {
                lemma_data_fields_model(af@);
                lemma_data_fields_model(bf@);
            }
            let n = af.len();
            if bf.len() != n {
                return false;
            }
            let mut i: usize = 0;
            while i < n
                invariant
                    *a == AS3Data::Object(*af),
                    *b == AS3Data::Object(*bf),
                    n == af.len(),
                    n == bf.len(),
                    i <= n,
                    forall|j: int|
                        0 <= j < i ==> #[trigger] data_fields_model(af@)[j] == data_fields_model(
                            bf@,
                        )[j],
                decreases n - i,
            {
                proof {
                    lemma_data_fields_model(af@);
                    lemma_data_fields_model(bf@);
                    assert(decreases_to!(*a => a->Object_0));
                    assert(decreases_to!(*af => af@));
                    assert(decreases_to!(af@ => af@[i as int]));
                    assert(decreases_to!(af@[i as int] => af@[i as int].1));
                    assert(decreases_to!(*a => af@[i as int].1));
                }
                let ea = &af[i];
                let eb = &bf[i];
                if !(ea.0 == eb.0) {
                    proof {
                        assert(data_fields_model(af@)[i as int] != data_fields_model(
                            bf@,
                        )[i as int]);
                        assert(a@ != b@);
                    }
                    return false;
                }
                if !data_eq(&ea.1, &eb.1) {
                    proof {
                        assert(data_fields_model(af@)[i as int] != data_fields_model(
                            bf@,
                        )[i as int]);
                        assert(a@ != b@);
                    }
                    return false;
                }
                i += 1;
            }
            proof {
                lemma_data_fields_model(af@);
                lemma_data_fields_model(bf@);
                assert(data_fields_model(af@) =~= data_fields_model(bf@));
            }
            true
        },
        (AS3Data::String(x), AS3Data::String(y)) => *x == *y,
        (AS3Data::Integer(x), AS3Data::Integer(y)) => *x == *y,
        (AS3Data::Decimal(x), AS3Data::Decimal(y)) => *x == *y,
        (AS3Data::Boolean(x), AS3Data::Boolean(y)) => *x == *y,
        (AS3Data::List(ax), AS3Data::List(bx)) => {
            proof {
                lemma_data_items_model(ax@);
                lemma_data_items_model(bx@);
            }
            let n = ax.len();
            if bx.len() != n {
                return false;
            }
            let mut i: usize = 0;
            while i < n
                invariant
                    *a == AS3Data::List(*ax),
                    *b == AS3Data::List(*bx),
                    n == ax.len(),
                    n == bx.len(),
                    i <= n,
                    forall|j: int|
                        0 <= j < i ==> #[trigger] data_items_model(ax@)[j] == data_items_model(
                            bx@,
                        )[j],
                decreases n - i,
            {
                proof {
                    lemma_data_items_model(ax@);
                    lemma_data_items_model(bx@);
                    assert(decreases_to!(*a => a->List_0));
                    assert(decreases_to!(*ax => ax@));
                    assert(decreases_to!(ax@ => ax@[i as int]));
                    assert(decreases_to!(*a => ax@[i as int]));
                }
                if !data_eq(&ax[i], &bx[i]) {
                    proof {
                        assert(data_items_model(ax@)[i as int] != data_items_model(
                            bx@,
                        )[i as int]);
                        assert(a@ != b@);
                    }
                    return false;
                }
                i += 1;
            }
            proof {
                lemma_data_items_model(ax@);
                lemma_data_items_model(bx@);
                assert(data_items_model(ax@) =~= data_items_model(bx@));
            }
            true
        },
        _ => false,
    }
}

/// The fields' model reads off entry by entry.
pub broadcast proof fn lemma_data_fields_model(s: Seq<(String, AS3Data)>)
    ensures
        (#[trigger] data_fields_model(s)).len() == s.len(),
        forall|j: int|
            0 <= j < s.len() ==> data_fields_model(s)[j] == (s[j].0@, s[j].1.model()),
    decreases s.len(),
{
    if s.len() > 0 {
        lemma_data_fields_model(s.drop_last());
    }
}

/// The elements' model reads off element by element.
pub broadcast proof fn lemma_data_items_model(s: Seq<AS3Data>)
    ensures
        (#[trigger] data_items_model(s)).len() == s.len(),
        forall|j: int| 0 <= j < s.len() ==> data_items_model(s)[j] == s[j].model(),
    decreases s.len(),
{
    if s.len() > 0 {
        lemma_data_items_model(s.drop_last());
    }
}

} // verus!
