use vstd::prelude::*;
use crate::dec::Dec;
use crate::engine::{lookup, lookup_from, spec_validate, validate_fields_from};
use crate::model::{ErrorModel, ValidatorModel, ValueModel};
use crate::pattern::regex_match;

verus! {

/// Validation is deterministic: one validator and one value read to one
/// result, so repeated calls with the same inputs agree.
pub proof fn lemma_validate_deterministic(
    v1: ValidatorModel,
    d1: ValueModel,
    v2: ValidatorModel,
    d2: ValueModel,
)
    requires
        v1 == v2,
        d1 == d2,
    ensures
        spec_validate(v1, d1) == spec_validate(v2, d2),
{
}

/// From position `i` on, entries whose names avoid `key` cannot answer a
/// lookup for `key`.
proof fn lemma_lookup_none_beyond(
    data: Seq<(Seq<char>, ValueModel)>,
    extra: Seq<(Seq<char>, ValueModel)>,
    key: Seq<char>,
    i: int,
)
    requires
        data.len() <= i,
        forall|j: int| 0 <= j < extra.len() ==> (#[trigger] extra[j]).0 != key,
    ensures
        lookup_from(data + extra, key, i) is None,
    decreases (data + extra).len() - i,
{
    if i < (data + extra).len() {
        assert((data + extra)[i] == extra[i - data.len()]);
        lemma_lookup_none_beyond(data, extra, key, i + 1);
    }
}

/// Appending entries whose names avoid `key` leaves a lookup for `key`
/// unchanged.
proof fn lemma_lookup_append(
    data: Seq<(Seq<char>, ValueModel)>,
    extra: Seq<(Seq<char>, ValueModel)>,
    key: Seq<char>,
    i: int,
)
    requires
        0 <= i,
        forall|j: int| 0 <= j < extra.len() ==> (#[trigger] extra[j]).0 != key,
    ensures
        lookup_from(data + extra, key, i) == lookup_from(data, key, i),
    decreases data.len() - i,
{
    if i >= data.len() {
        lemma_lookup_none_beyond(data, extra, key, i);
    } else {
        assert((data + extra)[i] == data[i]);
        lemma_lookup_append(data, extra, key, i + 1);
    }
}

/// Object validation ignores unrecognized data fields: appending entries
/// whose names are not required never changes an object's validation
/// result; in particular a passing object still passes.
pub proof fn lemma_extra_fields_ignored(
    req: Seq<(Seq<char>, ValidatorModel)>,
    data: Seq<(Seq<char>, ValueModel)>,
    extra: Seq<(Seq<char>, ValueModel)>,
)
    requires
        forall|i: int, j: int|
            0 <= i < req.len() && 0 <= j < extra.len() ==> (#[trigger] req[i]).0 != (
            #[trigger] extra[j]).0,
    ensures
        spec_validate(ValidatorModel::Object(req), ValueModel::Object(data + extra))
            == spec_validate(ValidatorModel::Object(req), ValueModel::Object(data)),
{
    lemma_extra_fields_ignored_from(req, data, extra, 0);
}

proof fn lemma_extra_fields_ignored_from(
    req: Seq<(Seq<char>, ValidatorModel)>,
    data: Seq<(Seq<char>, ValueModel)>,
    extra: Seq<(Seq<char>, ValueModel)>,
    i: int,
)
    requires
        0 <= i,
        forall|i0: int, j: int|
            0 <= i0 < req.len() && 0 <= j < extra.len() ==> (#[trigger] req[i0]).0 != (
            #[trigger] extra[j]).0,
    ensures
        validate_fields_from(req, data + extra, i) == validate_fields_from(req, data, i),
    decreases req.len() - i,
{
    if i < req.len() {
        lemma_lookup_append(data, extra, req[i].0, 0);
        lemma_extra_fields_ignored_from(req, data, extra, i + 1);
    }
}

/// The outcome of one required field against an object's entries: missing,
/// or whatever its child validation reads to.
pub open spec fn field_outcome(
    entry: (Seq<char>, ValidatorModel),
    data: Seq<(Seq<char>, ValueModel)>,
) -> Result<(), ErrorModel> {
    match lookup(data, entry.0) {
        None => Err(ErrorModel::MissingKey { key: entry.0 }),
        Some(child) => spec_validate(entry.1, child),
    }
}

/// Fail-fast: when one or more required fields fail, the object's result is
/// exactly the error of the first failing field in declaration order —
/// one error, never a collection.
pub proof fn lemma_fail_fast(
    req: Seq<(Seq<char>, ValidatorModel)>,
    data: Seq<(Seq<char>, ValueModel)>,
    i: int,
)
    requires
        0 <= i < req.len(),
        forall|j: int| 0 <= j < i ==> field_outcome(#[trigger] req[j], data) is Ok,
        field_outcome(req[i], data) is Err,
    ensures
        spec_validate(ValidatorModel::Object(req), ValueModel::Object(data)) == field_outcome(
            req[i],
            data,
        ),
{
    lemma_fail_fast_from(req, data, 0, i);
}

proof fn lemma_fail_fast_from(
    req: Seq<(Seq<char>, ValidatorModel)>,
    data: Seq<(Seq<char>, ValueModel)>,
    k: int,
    i: int,
)
    requires
        0 <= k <= i < req.len(),
        forall|j: int| k <= j < i ==> field_outcome(#[trigger] req[j], data) is Ok,
        field_outcome(req[i], data) is Err,
    ensures
        validate_fields_from(req, data, k) == field_outcome(req[i], data),
    decreases i - k,
{
    if k < i {
        lemma_fail_fast_from(req, data, k + 1, i);
    }
}

/// The integer minimum is inclusive: a value equal to the declared minimum
/// passes, and a smaller one fails carrying the exact compared values,
/// widened to decimals.
pub proof fn lemma_integer_minimum_inclusive(m: i64, n: i64)
    ensures
        n >= m ==> spec_validate(
            ValidatorModel::Integer(Some(m)),
            ValueModel::Integer(n),
        ) is Ok,
        n < m ==> spec_validate(ValidatorModel::Integer(Some(m)), ValueModel::Integer(n)) == Err::<
            (),
            ErrorModel,
        >(
            ErrorModel::Minimum {
                number: Dec { units: n, micros: 0u32 },
                minimum: Dec { units: m, micros: 0u32 },
            },
        ),
{
}

/// The decimal minimum is inclusive in the same way: a value not below the
/// declared minimum passes, and a smaller one fails carrying the exact
/// compared values.
pub proof fn lemma_decimal_minimum_inclusive(m: Dec, x: Dec)
    ensures
        !x.spec_lt(m) ==> spec_validate(
            ValidatorModel::Decimal(Some(m)),
            ValueModel::Decimal(x),
        ) is Ok,
        x.spec_lt(m) ==> spec_validate(ValidatorModel::Decimal(Some(m)), ValueModel::Decimal(x))
            == Err::<(), ErrorModel>(ErrorModel::Minimum { number: x, minimum: m }),
{
}

/// A string validator with no declared pattern accepts every string; with a
/// declared pattern, rejection carries the exact failing word and the exact
/// pattern text.
pub proof fn lemma_string_pattern(p: Seq<char>, s: Seq<char>)
    ensures
        spec_validate(ValidatorModel::String(None), ValueModel::String(s)) is Ok,
        regex_match(p, s) ==> spec_validate(
            ValidatorModel::String(Some(p)),
            ValueModel::String(s),
        ) is Ok,
        !regex_match(p, s) ==> spec_validate(ValidatorModel::String(Some(p)), ValueModel::String(s))
            == Err::<(), ErrorModel>(ErrorModel::RegexError { word: s, pattern: p }),
{
}

/// Type mismatch takes precedence: an integer validator against a decimal
/// value is a type error, never a minimum failure, whatever the numbers
/// are.
pub proof fn lemma_type_mismatch_precedence(min: Option<i64>, x: Dec)
    ensures
        spec_validate(ValidatorModel::Integer(min), ValueModel::Decimal(x)) == Err::<
            (),
            ErrorModel,
        >(
            ErrorModel::TypeError {
                expected: ValidatorModel::Integer(min),
                got: ValueModel::Decimal(x),
            },
        ),
{
}

} // verus!
