//! The reconciliation decision: which fields to fill, and what to do next.
use crate::charset::str_eq;
use crate::constraints::ConstraintError;
use crate::decode::ConfigError;
use crate::settings::{constraints_of, Settings};
use crate::yaml::{decode, decoded};
use vstd::prelude::*;

verus! {

/// Seconds until a resource that was brought up to date is looked at again.
pub const RESCHEDULE_SECS: u64 = 300;

/// Seconds until an invocation whose write failed is retried.
pub const RETRY_SECS: u64 = 5;

/// What the controller loop is to do after an invocation.
#[derive(Clone, Copy, Debug, PartialEq, Eq, Structural)]
pub enum Action {
    /// Run again after this many seconds.
    Requeue(u64),
    /// Run again only when the resource changes.
    AwaitChange,
}

/// Why an invocation failed.
#[derive(Clone, Copy, Debug, PartialEq, Eq, Structural)]
pub enum ReconcileError {
    Config(ConfigError),
    Constraint(ConstraintError),
    /// The store rejected the patch or could not be reached.
    Store,
}

/// The result of an invocation that did not fail before any write.
#[derive(Debug)]
pub enum Step {
    /// Nothing to write.
    Done(Action),
    /// Merge these fields, with their new values, into the resource.
    Write(Vec<(String, String)>),
}

/// Whether `existing` holds the field name `n`.
pub open spec fn has_name(existing: Seq<String>, n: Seq<char>) -> bool {
    exists|i: int| 0 <= i < existing.len() && (#[trigger] existing[i])@ == n
}

/// The configured fields that `existing` lacks, in configuration order.
pub open spec fn missing(config: Seq<(String, Settings)>, existing: Seq<String>) -> Seq<(String, Settings)>
    decreases config.len(),
{
    if config.len() == 0 {
        Seq::empty()
    } else {
        let rest = missing(config.drop_last(), existing);
        if has_name(existing, config.last().0@) {
            rest
        } else {
            rest.push(config.last())
        }
    }
}

/// `patch` gives each missing field, in order, a value that its constraints accept.
pub open spec fn patch_fills(
    patch: Seq<(String, String)>,
    m: Seq<(String, Settings)>,
    default_length: usize,
) -> bool {
    &&& patch.len() == m.len()
    &&& forall|j: int|
        0 <= j < patch.len() ==> (#[trigger] patch[j]).0 == m[j].0 && constraints_of(
            m[j].1,
            default_length,
        ).accepts(patch[j].1@)
}

/// The settings of some missing field cannot be met whatever is drawn.
pub open spec fn some_problem(m: Seq<(String, Settings)>, default_length: usize) -> bool {
    exists|j: int| 0 <= j < m.len() && constraints_of((#[trigger] m[j]).1, default_length).problem() is Some
}

/// Every missing field can be met and demands no subset, so that any draw
/// is accepted.
pub open spec fn all_simple(m: Seq<(String, Settings)>, default_length: usize) -> bool {
    forall|j: int|
        0 <= j < m.len() ==> {
            let cs = constraints_of((#[trigger] m[j]).1, default_length);
            cs.problem() is None && cs.mandatory_count() == 0
        }
}

/// What an invocation on a decoded configuration may return.
pub open spec fn outcome_fits(
    config: Seq<(String, Settings)>,
    existing: Seq<String>,
    default_length: usize,
    r: Result<Step, ReconcileError>,
) -> bool {
    let m = missing(config, existing);
    &&& match r {
        Ok(Step::Done(a)) => m.len() == 0 && a == Action::Requeue(RESCHEDULE_SECS),
        Ok(Step::Write(p)) => m.len() > 0 && patch_fills(p@, m, default_length),
        Err(ReconcileError::Constraint(e)) => exists|j: int|
            0 <= j < m.len() && match constraints_of((#[trigger] m[j]).1, default_length).problem() {
                Some(p) => e == p,
                None => e == ConstraintError::Unsatisfied,
            },
        Err(_) => false,
    }
    &&& some_problem(m, default_length) ==> r is Err
    &&& all_simple(m, default_length) ==> r is Ok
    &&& !some_problem(m, default_length) ==> (r is Ok || r == Err::<Step, ReconcileError>(
        ReconcileError::Constraint(ConstraintError::Unsatisfied),
    ))
}

proof fn lemma_missing_prefix(config: Seq<(String, Settings)>, existing: Seq<String>, i: int)
    requires
        0 <= i <= config.len(),
    ensures
        missing(config.subrange(0, i), existing).len() <= missing(config, existing).len(),
        forall|j: int|
            0 <= j < missing(config.subrange(0, i), existing).len() ==> missing(
                config.subrange(0, i),
                existing,
            )[j] == missing(config, existing)[j],
    decreases config.len() - i,
{
    if i < config.len() {
        lemma_missing_prefix(config, existing, i + 1);
        assert(config.subrange(0, i + 1).drop_last() =~= config.subrange(0, i));
    } else {
        assert(config.subrange(0, i) =~= config);
    }
}

/// Whether `existing` holds the field name `n`.
pub fn present(existing: &Vec<String>, n: &str) -> (r: bool)
    ensures
        r == has_name(existing@, n@),
{
    let mut i: usize = 0;
    while i < existing.len()
        invariant
            i <= existing@.len(),
            forall|j: int| 0 <= j < i ==> (#[trigger] existing@[j])@ != n@,
        decreases existing@.len() - i,
    {
        if str_eq(existing[i].as_str(), n) {
            return true;
        }
        i = i + 1;
    }
    false
}

/// Synthesizes a value for each configured field that `existing` lacks,
/// and nothing for the others; fails, all or nothing, when one of them
/// cannot be synthesized.
pub fn fill_missing(
    existing: &Vec<String>,
    config: &Vec<(String, Settings)>,
    default_length: usize,
) -> (r: Result<Vec<(String, String)>, ConstraintError>)
    ensures
        ({
            let m = missing(config@, existing@);
            &&& match r {
                Ok(p) => patch_fills(p@, m, default_length) && !some_problem(m, default_length),
                Err(e) => exists|j: int|
                    0 <= j < m.len() && match constraints_of(
                        (#[trigger] m[j]).1,
                        default_length,
                    ).problem() {
                        Some(p) => e == p,
                        None => e == ConstraintError::Unsatisfied,
                    },
            }
            &&& all_simple(m, default_length) ==> r is Ok
            &&& !some_problem(m, default_length) ==> (r is Ok || r
                == Err::<Vec<(String, String)>, ConstraintError>(ConstraintError::Unsatisfied))
        }),
{
    let mut patch: Vec<(String, String)> = Vec::new();
    let mut i: usize = 0;
    assert(config@.subrange(0, 0) =~= Seq::<(String, Settings)>::empty());
    while i < config.len()
        invariant
            i <= config@.len(),
            patch_fills(patch@, missing(config@.subrange(0, i as int), existing@), default_length),
            !some_problem(missing(config@.subrange(0, i as int), existing@), default_length),
        decreases config@.len() - i,
    {
        let ghost pre = missing(config@.subrange(0, i as int), existing@);
        let ghost next = config@.subrange(0, i as int + 1);
        assert(next.drop_last() =~= config@.subrange(0, i as int));
        assert(next.last() == config@[i as int]);
        let (name, settings) = &config[i];
        if !present(existing, name.as_str()) {
            let cs = settings.constraints(default_length);
            match cs.synthesize() {
                Ok(v) => {
                    patch.push((name.clone(), v));
                    assert(missing(next, existing@) == pre.push(config@[i as int]));
                    proof {
                        let m2 = missing(next, existing@);
                        assert forall|j: int| 0 <= j < m2.len() implies constraints_of(
                            (#[trigger] m2[j]).1,
                            default_length,
                        ).problem() is None by {
                            if j < pre.len() {
                                assert(m2[j] == pre[j]);
                            }
                        }
                        assert forall|j: int| 0 <= j < patch@.len() implies (
                        #[trigger] patch@[j]).0 == m2[j].0 && constraints_of(
                            m2[j].1,
                            default_length,
                        ).accepts(patch@[j].1@) by {
                            if j < pre.len() {
                                assert(m2[j] == pre[j]);
                            }
                        }
                    }
                },
                Err(e) => {
                    proof {
                        let m2 = missing(next, existing@);
                        assert(m2 == pre.push(config@[i as int]));
                        lemma_missing_prefix(config@, existing@, i as int + 1);
                        let m = missing(config@, existing@);
                        let j = pre.len() as int;
                        assert(m[j] == m2[j]);
                        if constraints_of(m[j].1, default_length).problem() is Some {
                            assert(some_problem(m, default_length));
                        }
                        assert(!all_simple(m, default_length));
                    }
                    return Err(e);
                },
            }
        } else {
            assert(missing(next, existing@) == pre);
        }
        i = i + 1;
    }
    assert(config@.subrange(0, config@.len() as int) =~= config@);
    Ok(patch)
}

/// One invocation on a decoded configuration: fills the fields that
/// `existing` lacks; with none lacking, writes nothing and looks again later.
pub fn reconcile_config(
    existing: &Vec<String>,
    config: &Vec<(String, Settings)>,
    default_length: usize,
) -> (r: Result<Step, ReconcileError>)
    ensures
        outcome_fits(config@, existing@, default_length, r),
{
    match fill_missing(existing, config, default_length) {
        Ok(p) => {
            if p.len() == 0 {
                Ok(Step::Done(Action::Requeue(RESCHEDULE_SECS)))
            } else {
                Ok(Step::Write(p))
            }
        },
        Err(e) => Err(ReconcileError::Constraint(e)),
    }
}

/// One invocation on a resource: `existing` names the fields it holds and
/// `annotation` is its generation annotation, if it has one. A resource
/// without one is left alone until it changes; an annotation that does not
/// decode fails the invocation before any write.
pub fn reconcile(existing: &Vec<String>, annotation: Option<&str>, default_length: usize) -> (r:
    Result<Step, ReconcileError>)
    ensures
        annotation is None ==> r == Ok::<Step, ReconcileError>(Step::Done(Action::AwaitChange)),
        annotation is Some ==> match decoded(annotation->Some_0@) {
            Ok(config) => outcome_fits(config, existing@, default_length, r),
            Err(e) => r == Err::<Step, ReconcileError>(ReconcileError::Config(e)),
        },
{
    match annotation {
        None => Ok(Step::Done(Action::AwaitChange)),
        Some(raw) => match decode(raw) {
            Ok(config) => reconcile_config(existing, &config, default_length),
            Err(e) => Err(ReconcileError::Config(e)),
        },
    }
}

/// What follows the store's answer to a patch: a resource written is
/// looked at again later; a failed write is an error of the store.
pub fn after_write(written: bool) -> (r: Result<Action, ReconcileError>)
    ensures
        written ==> r == Ok::<Action, ReconcileError>(Action::Requeue(RESCHEDULE_SECS)),
        !written ==> r == Err::<Action, ReconcileError>(ReconcileError::Store),
{
    if written {
        Ok(Action::Requeue(RESCHEDULE_SECS))
    } else {
        Err(ReconcileError::Store)
    }
}

/// The retry action for a failed invocation: a store failure is retried
/// shortly; a configuration or constraint failure would only repeat, so it
/// waits for the resource to change.
pub fn error_policy(e: &ReconcileError) -> (r: Action)
    ensures
        *e == ReconcileError::Store ==> r == Action::Requeue(RETRY_SECS),
        *e != ReconcileError::Store ==> r == Action::AwaitChange,
{
    match e {
        ReconcileError::Store => Action::Requeue(RETRY_SECS),
        _ => Action::AwaitChange,
    }
}

} // verus!
