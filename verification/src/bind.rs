use vstd::prelude::*;
use crate::errors::BindError;
use crate::kind::{OptionValue, kind_of, spec_kind_of};
use crate::param::Parameter;

verus! {

/// What the slot at position `i` of the payload yields for parameter `p`:
/// the value when one is present at that position and carries exactly the
/// parameter's resolved kind, and the absent representation otherwise.
pub open spec fn slot_value(p: Parameter, opts: Seq<Option<OptionValue>>, i: int) -> Option<OptionValue> {
    if 0 <= i < opts.len() && opts[i] is Some && spec_kind_of(opts[i]->0) == p.kind {
        opts[i]
    } else {
        None
    }
}

/// A required parameter must find a kind-matching value at its position;
/// an optional parameter is satisfied by anything.
pub open spec fn required_ok(p: Parameter, opts: Seq<Option<OptionValue>>, i: int) -> bool {
    p.required ==> slot_value(p, opts, i) is Some
}

/// A payload binds to a parameter list exactly when every required
/// parameter finds a kind-matching value at its position.
pub open spec fn bind_ok(params: Seq<Parameter>, opts: Seq<Option<OptionValue>>) -> bool {
    forall|i: int| 0 <= i < params.len() ==> required_ok(#[trigger] params[i], opts, i)
}

/// The bound argument list of a successful binding: one slot per declared
/// parameter, in declaration order. A satisfied required slot holds its
/// value; an optional slot holds the value when present and kind-matching,
/// and the absent representation on a missing position, a missing value or
/// a kind mismatch — mismatches on optional slots are treated as "no
/// value", never as an error.
pub open spec fn spec_bound_args(params: Seq<Parameter>, opts: Seq<Option<OptionValue>>) -> Seq<Option<OptionValue>> {
    Seq::new(params.len(), |i: int| slot_value(params[i], opts, i))
}

/// The failure the required parameter at position `i` raises: a mismatch
/// when some value is present at the position, a missing-value failure
/// when the payload is too short or the slot carries no value.
pub open spec fn bind_error_at(params: Seq<Parameter>, opts: Seq<Option<OptionValue>>, i: int) -> BindError
    recommends
        0 <= i < params.len(),
        !required_ok(params[i], opts, i),
{
    if 0 <= i < opts.len() && opts[i] is Some {
        BindError::KindMismatch {
            index: i as usize,
            expected: params[i].kind,
            found: spec_kind_of(opts[i]->0),
        }
    } else {
        BindError::MissingRequired { index: i as usize, expected: params[i].kind }
    }
}

/// The failure of the first unsatisfied required parameter at or after
/// position `i`.
pub open spec fn first_bind_error(params: Seq<Parameter>, opts: Seq<Option<OptionValue>>, i: int) -> BindError
    decreases params.len() - i,
{
    if i < params.len() {
        if required_ok(params[i], opts, i) {
            first_bind_error(params, opts, i + 1)
        } else {
            bind_error_at(params, opts, i)
        }
    } else {
        arbitrary()
    }
}

proof fn lemma_first_bind_error_skip(params: Seq<Parameter>, opts: Seq<Option<OptionValue>>, lo: int, i: int)
    requires
        0 <= lo <= i < params.len(),
        forall|j: int| lo <= j < i ==> required_ok(#[trigger] params[j], opts, j),
        !required_ok(params[i], opts, i),
    ensures
        first_bind_error(params, opts, lo) == bind_error_at(params, opts, i),
    decreases i - lo,
{
    if lo < i {
        lemma_first_bind_error_skip(params, opts, lo + 1, i);
    }
}

/// Binds an invocation payload's ordered option values to a command's
/// declared parameters, positionally: the i-th parameter reads the i-th
/// payload slot. Required parameters are strict — a missing position, a
/// missing value or a kind mismatch aborts with the first such failure and
/// no arguments are produced. Optional parameters are lenient — the same
/// situations yield the absent representation instead. The payload is
/// consumed: each invocation's options are read exactly once.
pub fn bind(params: &Vec<Parameter>, options: Vec<Option<OptionValue>>) -> (r: Result<Vec<Option<OptionValue>>, BindError>)
    ensures
        r is Ok <==> bind_ok(params@, options@),
        r matches Ok(args) ==> args@ == spec_bound_args(params@, options@),
        r matches Err(e) ==> e == first_bind_error(params@, options@, 0),
{
    let mut rest = options;
    let ghost opts: Seq<Option<OptionValue>> = rest@;
    let mut args: Vec<Option<OptionValue>> = Vec::new();
    let mut i: usize = 0;
    while i < params.len()
        invariant
            opts == options@,
            0 <= i <= params@.len(),
            i <= opts.len() ==> rest@ == opts.skip(i as int),
            i > opts.len() ==> rest@.len() == 0,
            forall|j: int| 0 <= j < i ==> required_ok(#[trigger] params@[j], opts, j),
            args@.len() == i,
            forall|j: int| 0 <= j < i ==> args@[j] == slot_value(params@[j], opts, j),
        decreases params@.len() - i,
    {
        let p = &params[i];
        let cur: Option<OptionValue> = if rest.len() > 0 {
            let ghost rest_before = rest@;
            let v = rest.remove(0);
            proof {
                if i < opts.len() {
                    assert(rest_before.skip(1) =~= opts.skip(i as int + 1));
                }
            }
            v
        } else {
            None
        };
        let ok: bool = match &cur {
            Some(v) => kind_of(v) == p.kind,
            None => false,
        };
        if p.required && !ok {
            let e = match &cur {
                Some(v) => BindError::KindMismatch {
                    index: i,
                    expected: p.kind,
                    found: kind_of(v),
                },
                None => BindError::MissingRequired { index: i, expected: p.kind },
            };
            proof {
                lemma_first_bind_error_skip(params@, opts, 0, i as int);
            }
            return Err(e);
        }
        args.push(if ok { cur } else { None });
        i = i + 1;
    }
    proof {
        assert(args@ =~= spec_bound_args(params@, opts));
    }
    Ok(args)
}

/// The kind published for a slot of a command's schema is the very kind the
/// binder checks that slot against: both read the parameter's cached
/// resolution. Hence a payload that supplies, for every required slot, a
/// value of the published kind at the published position always binds, and
/// each such slot binds to exactly the supplied value.
pub proof fn lemma_published_kind_governs_binding(params: Seq<Parameter>, opts: Seq<Option<OptionValue>>)
    requires
        forall|i: int| 0 <= i < params.len() && (#[trigger] params[i]).required
            ==> i < opts.len() && opts[i] is Some && spec_kind_of(opts[i]->0) == params[i].kind,
    ensures
        bind_ok(params, opts),
        forall|i: int| 0 <= i < params.len() && (#[trigger] params[i]).required
            ==> spec_bound_args(params, opts)[i] == opts[i],
{
}

} // verus!
