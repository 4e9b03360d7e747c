//! Properties that hold across the library's functions.
use crate::charset::is_digit;
use crate::decode::{
    document_valid, key_named, lemma_options_fail_extends, options_upto, settings_of, ConfigError,
};
use crate::yaml::{decoded, yaml_document};
use crate::reconcile::{has_name, missing, outcome_fits, patch_fills, Action, ReconcileError, Step, RESCHEDULE_SECS};
use crate::settings::{constraints_of, Preset, Settings};
use vstd::prelude::*;

verus! {

proof fn lemma_none_missing(config: Seq<(String, Settings)>, existing: Seq<String>)
    requires
        forall|i: int| 0 <= i < config.len() ==> has_name(existing, (#[trigger] config[i]).0@),
    ensures
        missing(config, existing).len() == 0,
    decreases config.len(),
{
    if config.len() > 0 {
        let rest = config.drop_last();
        assert forall|i: int| 0 <= i < rest.len() implies has_name(existing, (#[trigger] rest[i]).0@) by {
            assert(rest[i] == config[i]);
        }
        lemma_none_missing(rest, existing);
        assert(has_name(existing, config[config.len() - 1].0@));
    }
}

/// Reconciling a resource that already holds every configured field writes
/// nothing: the invocation is done and looks at the resource again later.
pub proof fn law_present_fields_are_kept(
    config: Seq<(String, Settings)>,
    existing: Seq<String>,
    default_length: usize,
    r: Result<Step, ReconcileError>,
)
    requires
        forall|i: int| 0 <= i < config.len() ==> has_name(existing, (#[trigger] config[i]).0@),
        outcome_fits(config, existing, default_length, r),
    ensures
        r == Ok::<Step, ReconcileError>(Step::Done(Action::Requeue(RESCHEDULE_SECS))),
{
    lemma_none_missing(config, existing);
}

proof fn lemma_missing_covers(config: Seq<(String, Settings)>, existing: Seq<String>)
    ensures
        forall|i: int|
            0 <= i < config.len() && !has_name(existing, (#[trigger] config[i]).0@) ==> exists|j: int|
                0 <= j < missing(config, existing).len() && missing(config, existing)[j].0
                    == config[i].0,
    decreases config.len(),
{
    if config.len() > 0 {
        let rest = config.drop_last();
        lemma_missing_covers(rest, existing);
        let m = missing(config, existing);
        let mr = missing(rest, existing);
        assert forall|i: int|
            0 <= i < config.len() && !has_name(existing, (#[trigger] config[i]).0@) implies exists|j: int|
            0 <= j < m.len() && m[j].0 == config[i].0 by {
            if i < rest.len() {
                assert(rest[i] == config[i]);
                let j = choose|j: int| 0 <= j < mr.len() && mr[j].0 == rest[i].0;
                assert(m[j] == mr[j]);
            } else {
                assert(m[mr.len() as int] == config.last());
            }
        }
    }
}

/// Reconciling a second time, after the fields that the first pass wrote
/// were stored, writes nothing: every configured field is then present.
pub proof fn law_second_pass_writes_nothing(
    config: Seq<(String, Settings)>,
    existing: Seq<String>,
    default_length: usize,
    patch: Seq<(String, String)>,
    stored: Seq<String>,
    r: Result<Step, ReconcileError>,
)
    requires
        patch_fills(patch, missing(config, existing), default_length),
        forall|n: Seq<char>| has_name(existing, n) ==> has_name(stored, n),
        forall|j: int| 0 <= j < patch.len() ==> has_name(stored, (#[trigger] patch[j]).0@),
        outcome_fits(config, stored, default_length, r),
    ensures
        r == Ok::<Step, ReconcileError>(Step::Done(Action::Requeue(RESCHEDULE_SECS))),
{
    lemma_missing_covers(config, existing);
    let m = missing(config, existing);
    assert forall|i: int| 0 <= i < config.len() implies has_name(stored, (#[trigger] config[i]).0@) by {
        if !has_name(existing, config[i].0@) {
            let j = choose|j: int| 0 <= j < m.len() && m[j].0 == config[i].0;
            assert(patch[j].0 == m[j].0);
        }
    }
    law_present_fields_are_kept(config, stored, default_length, r);
}

/// The `digit` preset can always be met and demands no subset, so that
/// synthesis succeeds; a value it accepts has the default length and holds
/// digits only.
pub proof fn law_digit_preset(default_length: usize, v: Seq<char>)
    ensures
        constraints_of(Settings::Preset(Preset::Digit), default_length).problem() is None,
        constraints_of(Settings::Preset(Preset::Digit), default_length).mandatory_count() == 0,
        constraints_of(Settings::Preset(Preset::Digit), default_length).accepts(v) ==> v.len()
            == default_length && forall|i: int| 0 <= i < v.len() ==> is_digit(#[trigger] v[i]),
{
    let cs = constraints_of(Settings::Preset(Preset::Digit), default_length);
    assert(cs.allowed.selects(crate::charset::Class::Digit));
}

/// An annotation whose options object has a key that is not one of the
/// known keys fails to decode as a whole, so that nothing of it is written.
pub proof fn law_unknown_key_rejected(raw: Seq<char>, i: int, j: int)
    requires
        yaml_document(raw) is Some,
        yaml_document(raw)->Some_0 is Entries,
        0 <= i < yaml_document(raw)->Some_0->Entries_0@.len(),
        yaml_document(raw)->Some_0->Entries_0@[i].1 is Object,
        0 <= j < yaml_document(raw)->Some_0->Entries_0@[i].1->Object_0@.len(),
        yaml_document(raw)->Some_0->Entries_0@[i].1->Object_0@[j].0 is Str,
        key_named(yaml_document(raw)->Some_0->Entries_0@[i].1->Object_0@[j].0->Str_0@) is None,
    ensures
        decoded(raw) == Err::<Seq<(String, Settings)>, ConfigError>(ConfigError::InvalidEntry),
{
    let doc = yaml_document(raw)->Some_0->Entries_0@;
    let es = doc[i].1->Object_0@;
    let upto = es.subrange(0, j + 1);
    assert(upto.drop_last() =~= es.subrange(0, j));
    assert(upto.last() == es[j]);
    assert(options_upto(upto) is None);
    lemma_options_fail_extends(es, j + 1);
    assert(settings_of(doc[i].1) is None);
    assert(!document_valid(doc));
}

} // verus!
