//! The four aggregation policies of the dispatch core.
//!
//! A dispatch fans one logical call out to every registered handler and
//! collects one outcome per handler, in registry order. The functions here
//! fold such an outcome sequence into the single response a caller sees:
//!
//! - [`collect_all_successes`]: keep every `Success` value, in registry
//!   order; any hard error fails the whole dispatch with an error naming the
//!   operation and target and wrapping the first error's detail.
//! - [`first_success`]: return the first successful value, breaking ties by
//!   ascending registry index; if all fail, a fresh generic error. This fold
//!   serves both the race-first-success policy (reads) and the any-confirms
//!   policy (checks), which differ only in when a concurrent runner may stop
//!   waiting.
//! - [`all_succeed`]: succeed only if every handler succeeded; any failure
//!   yields a fresh generic error, and nothing already committed is rolled
//!   back.
//!
//! Each fold is a pure function of the outcome sequence, so aggregation is
//! deterministic: completion timing never influences a result, only registry
//! order does.

use crate::error::{VadeError, VadeResult};
use crate::vade_plugin::VadePluginResultValue;
use vstd::prelude::*;
use vstd::string::StringExecFns;

verus! {

/// The `Success` payloads of `s`, in order, with `Ignored` and
/// `NotImplemented` entries dropped.
pub open spec fn successes_of<T>(s: Seq<VadePluginResultValue<T>>) -> Seq<T>
    decreases s.len(),
{
    if s.len() == 0 {
        Seq::empty()
    } else {
        let rest = successes_of(s.drop_first());
        match s[0] {
            VadePluginResultValue::Success(t) => seq![t] + rest,
            _ => rest,
        }
    }
}

/// The payloads of a sequence of outcomes, assuming none of them is an
/// error; `Err` entries contribute nothing.
pub open spec fn ok_values_of<T>(s: Seq<VadeResult<T>>) -> Seq<T>
    decreases s.len(),
{
    if s.len() == 0 {
        Seq::empty()
    } else {
        let rest = ok_values_of(s.drop_first());
        if s[0] is Ok {
            seq![s[0]->Ok_0] + rest
        } else {
            rest
        }
    }
}

/// The first hard error among the outcomes, in registry order, if any.
pub open spec fn first_error_of<T>(s: Seq<VadeResult<T>>) -> Option<VadeError>
    decreases s.len(),
{
    if s.len() == 0 {
        None
    } else if s[0] is Err {
        Some(s[0]->Err_0)
    } else {
        first_error_of(s.drop_first())
    }
}

/// The first successful value among the outcomes, in registry order, if any.
pub open spec fn first_ok_of<T>(s: Seq<VadeResult<T>>) -> Option<T>
    decreases s.len(),
{
    if s.len() == 0 {
        None
    } else if s[0] is Ok {
        Some(s[0]->Ok_0)
    } else {
        first_ok_of(s.drop_first())
    }
}

/// Whether every outcome succeeded.
pub open spec fn all_ok<T>(s: Seq<VadeResult<T>>) -> bool {
    forall|i: int| 0 <= i < s.len() ==> s[i] is Ok
}

/// The message of the error a failed collect-all dispatch reports: it names
/// the operation and the target and wraps the handler error's detail.
pub open spec fn dispatch_error_message(
    task_name: Seq<char>,
    target: Seq<char>,
    detail: Seq<char>,
) -> Seq<char> {
    "could not run \""@ + task_name + "\" for \""@ + target + "\"; "@ + detail
}

/// Builds the error a failed collect-all dispatch reports.
fn dispatch_error(task_name: &str, target: &str, detail: &VadeError) -> (e: VadeError)
    ensures
        e.message@ == dispatch_error_message(task_name@, target@, detail.message@),
{
    let mut message = "could not run \"".to_owned();
    message.append(task_name);
    message.append("\" for \"");
    message.append(target);
    message.append("\"; ");
    message.append(detail.message.as_str());
    proof {
        assert(message@ =~= dispatch_error_message(task_name@, target@, detail.message@));
    }
    VadeError { message }
}

/// Keeps the payload of every `Success` entry, in order, dropping `Ignored`
/// and `NotImplemented` entries.
pub fn filter_successes<T>(results: Vec<VadePluginResultValue<T>>) -> (r: Vec<T>)
    ensures
        r@ == successes_of(results@),
{
    let ghost all = results@;
    let mut remaining = results;
    let mut filtered: Vec<T> = Vec::new();
    while remaining.len() > 0
        invariant
            successes_of(all) == filtered@ + successes_of(remaining@),
        decreases remaining@.len(),
    {
        let ghost before = remaining@;
        let head = remaining.remove(0);
        proof {
            assert(before.drop_first() =~= remaining@);
        }
        match head {
            VadePluginResultValue::Success(value) => {
                let ghost f = filtered@;
                filtered.push(value);
                proof {
                    assert(f + (seq![value] + successes_of(remaining@)) =~= filtered@
                        + successes_of(remaining@));
                }
            },
            VadePluginResultValue::NotImplemented => {},
            VadePluginResultValue::Ignored => {},
        }
    }
    proof {
        assert(successes_of(all) =~= filtered@);
    }
    filtered
}

/// Folds collect-all outcomes: if any handler raised a hard error, the whole
/// dispatch fails with an error naming the operation and target and wrapping
/// the first such error; otherwise the `Success` values are returned in
/// registry order, and an empty list is a valid outcome.
#[verifier::loop_isolation(false)]
pub fn collect_all_successes<T>(
    task_name: &str,
    target: &str,
    outcomes: Vec<VadeResult<VadePluginResultValue<T>>>,
) -> (r: VadeResult<Vec<T>>)
    ensures
        match first_error_of(outcomes@) {
            Some(e) => r is Err && r->Err_0.message@ == dispatch_error_message(
                task_name@,
                target@,
                e.message@,
            ),
            None => r is Ok && r->Ok_0@ == successes_of(ok_values_of(outcomes@)),
        },
{
    let ghost all = outcomes@;
    let mut remaining = outcomes;
    let mut values: Vec<VadePluginResultValue<T>> = Vec::new();
    while remaining.len() > 0
        invariant
            first_error_of(all) == first_error_of(remaining@),
            ok_values_of(all) == values@ + ok_values_of(remaining@),
        decreases remaining@.len(),
    {
        let ghost before = remaining@;
        let head = remaining.remove(0);
        proof {
            assert(before.drop_first() =~= remaining@);
        }
        match head {
            Ok(value) => {
                let ghost v = values@;
                values.push(value);
                proof {
                    assert(v + (seq![value] + ok_values_of(remaining@)) =~= values@
                        + ok_values_of(remaining@));
                }
            },
            Err(e) => {
                proof {
                    assert(before[0] is Err && before[0]->Err_0 == e);
                    assert(first_error_of(before) == Some(e));
                }
                return Err(dispatch_error(task_name, target, &e));
            },
        }
    }
    proof {
        assert(ok_values_of(all) =~= values@);
    }
    Ok(filter_successes(values))
}

/// Folds race-first-success and any-confirms outcomes: the first successful
/// value, by ascending registry index, wins; if every handler failed, the
/// dispatch fails with the given generic message, and the per-handler error
/// detail is discarded.
#[verifier::loop_isolation(false)]
pub fn first_success<T>(outcomes: Vec<VadeResult<T>>, error_message: &str) -> (r: VadeResult<T>)
    ensures
        match first_ok_of(outcomes@) {
            Some(v) => r is Ok && r->Ok_0 == v,
            None => r is Err && r->Err_0.message@ == error_message@,
        },
{
    let ghost all = outcomes@;
    let mut remaining = outcomes;
    while remaining.len() > 0
        invariant
            first_ok_of(all) == first_ok_of(remaining@),
        decreases remaining@.len(),
    {
        let ghost before = remaining@;
        let head = remaining.remove(0);
        proof {
            assert(before.drop_first() =~= remaining@);
        }
        match head {
            Ok(value) => {
                proof {
                    assert(before[0] is Ok && before[0]->Ok_0 == value);
                    assert(first_ok_of(before) == Some(value));
                }
                return Ok(value);
            },
            Err(_) => {},
        }
    }
    Err(VadeError::new(error_message))
}

/// Folds all-or-nothing outcomes: the dispatch succeeds only if every
/// handler succeeded; any single failure fails the whole dispatch with the
/// given generic message. Side effects already committed by handlers that
/// succeeded are not rolled back.
pub fn all_succeed<T>(outcomes: Vec<VadeResult<T>>, error_message: &str) -> (r: VadeResult<()>)
    ensures
        all_ok(outcomes@) ==> r is Ok,
        !all_ok(outcomes@) ==> r is Err && r->Err_0.message@ == error_message@,
{
    let mut i: usize = 0;
    while i < outcomes.len()
        invariant
            0 <= i <= outcomes@.len(),
            forall|j: int| 0 <= j < i ==> outcomes@[j] is Ok,
        decreases outcomes@.len() - i,
    {
        if outcomes[i].is_err() {
            return Err(VadeError::new(error_message));
        }
        i += 1;
    }
    Ok(())
}

/// An aggregated collect-all list never holds more entries than there were
/// handler outcomes: at most one entry per handler that returned `Success`.
pub proof fn lemma_collect_all_len_bound<T>(s: Seq<VadeResult<VadePluginResultValue<T>>>)
    ensures
        successes_of(ok_values_of(s)).len() <= s.len(),
    decreases s.len(),
{
    if s.len() > 0 {
        lemma_collect_all_len_bound(s.drop_first());
        let vals = ok_values_of(s);
        if s[0] is Ok {
            assert(vals.drop_first() =~= ok_values_of(s.drop_first()));
            assert(successes_of(vals) == match vals[0] {
                VadePluginResultValue::Success(t) => seq![t] + successes_of(vals.drop_first()),
                _ => successes_of(vals.drop_first()),
            });
        }
    }
}

/// With any number of handlers that all answer `NotImplemented`, a
/// collect-all dispatch carries no error and aggregates the empty list, so
/// by [`collect_all_successes`]'s contract it returns `Ok` of an empty list,
/// never an error.
pub proof fn lemma_collect_all_of_not_implemented<T>(s: Seq<VadeResult<VadePluginResultValue<T>>>)
    requires
        forall|i: int|
            0 <= i < s.len() ==> s[i] == Ok::<VadePluginResultValue<T>, VadeError>(
                VadePluginResultValue::NotImplemented,
            ),
    ensures
        first_error_of(s) is None,
        successes_of(ok_values_of(s)) == Seq::<T>::empty(),
    decreases s.len(),
{
    if s.len() > 0 {
        let rest = s.drop_first();
        assert(forall|i: int| 0 <= i < rest.len() ==> rest[i] == s[i + 1]);
        lemma_collect_all_of_not_implemented(rest);
        assert(s[0] == Ok::<VadePluginResultValue<T>, VadeError>(
            VadePluginResultValue::NotImplemented,
        ));
        let vals = ok_values_of(s);
        assert(vals == seq![VadePluginResultValue::<T>::NotImplemented] + ok_values_of(rest));
        assert(vals.drop_first() =~= ok_values_of(rest));
        assert(vals[0] == VadePluginResultValue::<T>::NotImplemented);
        assert(successes_of(vals) == successes_of(ok_values_of(rest)));
    }
}

/// Collect-all keeps `Success` values in registry order and silently drops
/// `Ignored` entries: for handlers [A, B, C] where B ignores the request
/// while A and C succeed with values `a` and `c`, the aggregated list is
/// exactly [a, c].
pub proof fn lemma_collect_all_keeps_registry_order<T>(a: T, c: T)
    ensures
        ({
            let s: Seq<VadeResult<VadePluginResultValue<T>>> = seq![
                Ok(VadePluginResultValue::Success(a)),
                Ok(VadePluginResultValue::Ignored),
                Ok(VadePluginResultValue::Success(c)),
            ];
            first_error_of(s) is None && successes_of(ok_values_of(s)) == seq![a, c]
        }),
{
    let s: Seq<VadeResult<VadePluginResultValue<T>>> = seq![
        Ok(VadePluginResultValue::Success(a)),
        Ok(VadePluginResultValue::Ignored),
        Ok(VadePluginResultValue::Success(c)),
    ];
    let s1 = s.drop_first();
    let s2 = s1.drop_first();
    let s3 = s2.drop_first();
    assert(s1 =~= seq![
        Ok::<VadePluginResultValue<T>, VadeError>(VadePluginResultValue::Ignored),
        Ok(VadePluginResultValue::Success(c)),
    ]);
    assert(s2 =~= seq![Ok::<VadePluginResultValue<T>, VadeError>(
        VadePluginResultValue::Success(c),
    )]);
    assert(s3 =~= Seq::<VadeResult<VadePluginResultValue<T>>>::empty());
    assert(first_error_of(s3) is None);
    assert(first_error_of(s2) is None);
    assert(first_error_of(s1) is None);
    assert(first_error_of(s) is None);
    assert(ok_values_of(s3) == Seq::<VadePluginResultValue<T>>::empty());
    assert(ok_values_of(s2) =~= seq![VadePluginResultValue::Success(c)]);
    assert(ok_values_of(s1) =~= seq![
        VadePluginResultValue::Ignored,
        VadePluginResultValue::Success(c),
    ]);
    let vals = ok_values_of(s);
    assert(vals =~= seq![
        VadePluginResultValue::Success(a),
        VadePluginResultValue::Ignored,
        VadePluginResultValue::Success(c),
    ]);
    let v1 = vals.drop_first();
    let v2 = v1.drop_first();
    let v3 = v2.drop_first();
    assert(v1 =~= seq![VadePluginResultValue::Ignored, VadePluginResultValue::Success(c)]);
    assert(v2 =~= seq![VadePluginResultValue::Success(c)]);
    assert(v3 =~= Seq::<VadePluginResultValue<T>>::empty());
    assert(successes_of(v3) == Seq::<T>::empty());
    assert(successes_of(v2) =~= seq![c]);
    assert(successes_of(v1) =~= seq![c]);
    assert(successes_of(vals) =~= seq![a, c]);
}

/// A single hard error fails the whole collect-all dispatch, whatever the
/// other handlers answered: if any outcome is an error, the fold reports an
/// error, so handlers that succeeded are not surfaced.
pub proof fn lemma_collect_all_fails_on_error<T>(s: Seq<VadeResult<VadePluginResultValue<T>>>)
    requires
        exists|i: int| 0 <= i < s.len() && s[i] is Err,
    ensures
        first_error_of(s) is Some,
    decreases s.len(),
{
    if s[0] is Err {
    } else {
        let i = choose|i: int| 0 <= i < s.len() && s[i] is Err;
        let rest = s.drop_first();
        assert(rest[i - 1] == s[i]);
        assert(exists|j: int| 0 <= j < rest.len() && rest[j] is Err);
        lemma_collect_all_fails_on_error(rest);
    }
}

/// Race-first-success returns the succeeding handler's value with one
/// failing and one succeeding handler in either registration order, and
/// fails only when every handler fails.
pub proof fn lemma_race_returns_the_success<T>(v: T, e1: VadeError, e2: VadeError)
    ensures
        first_ok_of(seq![Err::<T, VadeError>(e1), Ok(v)]) == Some(v),
        first_ok_of(seq![Ok::<T, VadeError>(v), Err(e1)]) == Some(v),
        first_ok_of(seq![Err::<T, VadeError>(e1), Err(e2)]) is None,
{
    let single_ok: Seq<VadeResult<T>> = seq![Ok(v)];
    let fail_then_ok: Seq<VadeResult<T>> = seq![Err(e1), Ok(v)];
    assert(first_ok_of(single_ok) == Some(v));
    assert(fail_then_ok.drop_first() =~= single_ok);
    assert(first_ok_of(fail_then_ok) == Some(v));
    let empty: Seq<VadeResult<T>> = Seq::empty();
    let single_err: Seq<VadeResult<T>> = seq![Err(e2)];
    let both_fail: Seq<VadeResult<T>> = seq![Err(e1), Err(e2)];
    assert(first_ok_of(empty) is None);
    assert(single_err.drop_first() =~= empty);
    assert(first_ok_of(single_err) is None);
    assert(both_fail.drop_first() =~= single_err);
    assert(first_ok_of(both_fail) is None);
}

/// All-or-nothing reports failure when the first handler succeeds and the
/// second fails: no partial-success signal reaches the caller.
pub proof fn lemma_all_or_nothing_rejects_partial_success<T>(v: T, e: VadeError)
    ensures
        !all_ok(seq![Ok::<T, VadeError>(v), Err(e)]),
{
    assert(seq![Ok::<T, VadeError>(v), Err(e)][1] is Err);
}

/// Every aggregation policy is a pure function of the per-handler outcome
/// sequence, which the dispatcher assembles in registry order: two
/// registries populated with the same handlers in the same order, observing
/// the same outcomes, aggregate identical responses with identical ordering.
/// Completion timing has no influence.
pub proof fn lemma_aggregation_is_deterministic<T>(
    s1: Seq<VadeResult<VadePluginResultValue<T>>>,
    s2: Seq<VadeResult<VadePluginResultValue<T>>>,
)
    requires
        s1 == s2,
    ensures
        first_error_of(s1) == first_error_of(s2),
        successes_of(ok_values_of(s1)) == successes_of(ok_values_of(s2)),
        first_ok_of(s1) == first_ok_of(s2),
        all_ok(s1) == all_ok(s2),
{
}

} // verus!
