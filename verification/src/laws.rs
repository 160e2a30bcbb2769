//! Properties that tie the store's operations together: allocation hands out
//! pairwise distinct, strictly increasing identifiers; repeated registration
//! never dedups; a registered record is found intact; attachments append in
//! order.

use vstd::prelude::*;

use crate::models::{DiagnosisReport, EntityKind, PatientPayload};
use crate::normalize::lower_of;
use crate::registry::register_patient_ok;
use crate::store::{alloc_ok, attach_ok, report_appended, RecordStore};

verus! {

/// Along a chain of successful allocations the kind's counter climbs by
/// exactly one per step.
proof fn lemma_counter_climbs(
    states: Seq<RecordStore>,
    ids: Seq<u64>,
    kind: EntityKind,
    i: int,
    j: int,
)
    requires
        states.len() == ids.len() + 1,
        forall|k: int| 0 <= k < ids.len() ==> alloc_ok(states[k], states[k + 1], kind, ids[k]),
        0 <= i <= j < states.len(),
    ensures
        states[j].counter_of(kind) == states[i].counter_of(kind) + (j - i),
    decreases j - i,
{
    if i < j {
        lemma_counter_climbs(states, ids, kind, i, j - 1);
        assert(alloc_ok(states[j - 1], states[j], kind, ids[j - 1]));
    }
}

/// Law: any serialization of successful `allocate_next` calls for one kind
/// returns strictly increasing — hence pairwise distinct — identifiers.
/// `states` is the chain of store states the calls pass through and `ids`
/// the values they return.
pub proof fn lemma_allocations_distinct(states: Seq<RecordStore>, ids: Seq<u64>, kind: EntityKind)
    requires
        states.len() == ids.len() + 1,
        forall|k: int| 0 <= k < ids.len() ==> alloc_ok(states[k], states[k + 1], kind, ids[k]),
    ensures
        forall|i: int, j: int| 0 <= i < j < ids.len() ==> ids[i] < ids[j],
        forall|i: int, j: int| 0 <= i < j < ids.len() ==> ids[i] != ids[j],
{
    assert forall|i: int, j: int| 0 <= i < j < ids.len() implies ids[i] < ids[j] by {
        assert(alloc_ok(states[i], states[i + 1], kind, ids[i]));
        assert(alloc_ok(states[j], states[j + 1], kind, ids[j]));
        lemma_counter_climbs(states, ids, kind, i + 1, j);
    }
}

/// Law: registering twice, even with byte-identical payloads, yields two
/// distinct identifiers and two distinct stored records — there is no
/// dedup by content.
pub proof fn lemma_register_twice_distinct(
    s0: RecordStore,
    s1: RecordStore,
    s2: RecordStore,
    first: PatientPayload,
    second: PatientPayload,
    id1: u64,
    id2: u64,
)
    requires
        register_patient_ok(s0, s1, first, id1),
        register_patient_ok(s1, s2, second, id2),
    ensures
        id1 != id2,
        id2 == id1 + 1,
        s2.has_patient(id1),
        s2.has_patient(id2),
        s2.patients@.len() == s0.patients@.len() + 2,
{
    let n0 = s0.patients@.len() as int;
    assert(s1.patients@[n0].patient_id == id1);
    assert(s2.patients@[n0] == s1.patients@[n0]);
    assert(s2.patients@[n0 + 1].patient_id == id2);
}

/// Law: after a successful registration, every patient record carrying the
/// returned identifier — and by `find_patient_by_id` there is one — holds
/// exactly the normalized payload: the lowercased name, the given age, and
/// an empty report sequence.
pub proof fn lemma_register_then_find(
    s0: RecordStore,
    s1: RecordStore,
    payload: PatientPayload,
    id: u64,
)
    requires
        register_patient_ok(s0, s1, payload, id),
    ensures
        s1.has_patient(id),
        forall|i: int|
            0 <= i < s1.patients@.len() && s1.patients@[i].patient_id == id ==> {
                &&& s1.patients@[i].patient_name@ == lower_of(payload.patient_name@)
                &&& s1.patients@[i].age == payload.patient_age
                &&& s1.patients@[i].diagnosis_reports@ == Seq::<DiagnosisReport>::empty()
            },
{
    let n0 = s0.patients@.len() as int;
    assert(s1.patients@[n0].patient_id == id);
    assert forall|i: int|
        0 <= i < s1.patients@.len() && s1.patients@[i].patient_id == id implies {
        &&& s1.patients@[i].patient_name@ == lower_of(payload.patient_name@)
        &&& s1.patients@[i].age == payload.patient_age
        &&& s1.patients@[i].diagnosis_reports@ == Seq::<DiagnosisReport>::empty()
    } by {
        if i < n0 {
            assert(s1.patients@[i] == s0.patients@[i]);
            assert(s0.has_patient(id));
        }
    }
}

/// Law: attaching two reports to the same patient, one call after the
/// other, leaves that patient's sequence grown by exactly the two reports,
/// first one first; every other record is untouched.
pub proof fn lemma_attach_two_in_order(
    s0: RecordStore,
    s1: RecordStore,
    s2: RecordStore,
    patient_id: u64,
    first: DiagnosisReport,
    second: DiagnosisReport,
)
    requires
        s0.well_formed(),
        attach_ok(s0, s1, patient_id, first),
        attach_ok(s1, s2, patient_id, second),
    ensures
        s2.patients@.len() == s0.patients@.len(),
        forall|i: int|
            0 <= i < s0.patients@.len() && s0.patients@[i].patient_id == patient_id
                ==> s2.patients@[i].diagnosis_reports@ == s0.patients@[
                i
            ].diagnosis_reports@.push(first).push(second),
{
    let n = s0.patients@.len() as int;
    let w1 = choose|w: int|
        #![auto]
        {
            &&& 0 <= w < s0.patients@.len()
            &&& s0.patients@[w].patient_id == patient_id
            &&& report_appended(s0.patients@[w], s1.patients@[w], first)
            &&& forall|j: int|
                0 <= j < s0.patients@.len() && j != w ==> s1.patients@[j] == s0.patients@[j]
        };
    let w2 = choose|w: int|
        #![auto]
        {
            &&& 0 <= w < s1.patients@.len()
            &&& s1.patients@[w].patient_id == patient_id
            &&& report_appended(s1.patients@[w], s2.patients@[w], second)
            &&& forall|j: int|
                0 <= j < s1.patients@.len() && j != w ==> s2.patients@[j] == s1.patients@[j]
        };
    assert forall|j: int|
        0 <= j < n implies s1.patients@[j].patient_id == s0.patients@[j].patient_id by {
        if j != w1 {
            assert(s1.patients@[j] == s0.patients@[j]);
        }
    }
    assert forall|i: int|
        0 <= i < n && s0.patients@[i].patient_id == patient_id
            implies s2.patients@[i].diagnosis_reports@ == s0.patients@[
        i
    ].diagnosis_reports@.push(first).push(second) by {
        assert(w1 == i);
        assert(w2 == i);
    }
}

} // verus!
