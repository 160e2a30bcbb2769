//! The record store and the per-kind sequence allocator.
//!
//! `RecordStore` owns one monotonic counter per entity kind and the two
//! record collections. The counter is only ever mutated by the atomic
//! increment-and-return operation, never read then written back; identifier
//! uniqueness is enforced by the store itself on every insert, so a
//! duplicate-identifier document is rejected even if the allocator is
//! bypassed.

use vstd::prelude::*;

use crate::errors::{InsertFault, RecordError};
use crate::models::{DiagnosisReport, DoctorRecord, EntityKind, PatientRecord};

verus! {

/// The durable state of the service: per-kind counters and record
/// collections.
#[derive(Debug)]
pub struct RecordStore {
    pub patient_counter: u64,
    pub doctor_counter: u64,
    pub patients: Vec<PatientRecord>,
    pub doctors: Vec<DoctorRecord>,
}

/// What a successful allocation does: the kind's counter moves up by exactly
/// one, the freshly incremented value is handed out, and nothing else of the
/// store changes.
pub open spec fn alloc_ok(
    pre: RecordStore,
    post: RecordStore,
    kind: EntityKind,
    id: u64,
) -> bool {
    &&& pre.counter_of(kind) < u64::MAX
    &&& id == pre.counter_of(kind) + 1
    &&& post.counter_of(kind) == id
    &&& match kind {
        EntityKind::Patient => post.doctor_counter == pre.doctor_counter,
        EntityKind::Doctor => post.patient_counter == pre.patient_counter,
    }
    &&& post.patients@ == pre.patients@
    &&& post.doctors@ == pre.doctors@
}

/// `p1` is `p0` with exactly one report appended: identifier, name and age
/// are untouched and the report sequence grows at the end.
pub open spec fn report_appended(
    p0: PatientRecord,
    p1: PatientRecord,
    report: DiagnosisReport,
) -> bool {
    &&& p1.patient_id == p0.patient_id
    &&& p1.patient_name == p0.patient_name
    &&& p1.age == p0.age
    &&& p1.diagnosis_reports@ == p0.diagnosis_reports@.push(report)
}

/// What a successful report attachment does: exactly the one patient record
/// carrying `patient_id` gains the report at the end of its sequence, every
/// other record and both counters stay as they were.
pub open spec fn attach_ok(
    pre: RecordStore,
    post: RecordStore,
    patient_id: u64,
    report: DiagnosisReport,
) -> bool {
    &&& post.patient_counter == pre.patient_counter
    &&& post.doctor_counter == pre.doctor_counter
    &&& post.doctors@ == pre.doctors@
    &&& post.patients@.len() == pre.patients@.len()
    &&& pre.has_patient(patient_id)
    &&& exists|i: int|
        #![auto]
        {
            &&& 0 <= i < pre.patients@.len()
            &&& pre.patients@[i].patient_id == patient_id
            &&& report_appended(pre.patients@[i], post.patients@[i], report)
            &&& forall|j: int|
                0 <= j < pre.patients@.len() && j != i ==> post.patients@[j] == pre.patients@[j]
        }
}

impl RecordStore {
    /// The counter that serves the given entity kind.
    pub open spec fn counter_of(self, kind: EntityKind) -> u64 {
        match kind {
            EntityKind::Patient => self.patient_counter,
            EntityKind::Doctor => self.doctor_counter,
        }
    }

    /// Some stored patient record carries this identifier.
    pub open spec fn has_patient(self, id: u64) -> bool {
        exists|i: int| 0 <= i < self.patients@.len() && self.patients@[i].patient_id == id
    }

    /// Some stored doctor record carries this identifier.
    pub open spec fn has_doctor(self, id: u64) -> bool {
        exists|i: int| 0 <= i < self.doctors@.len() && self.doctors@[i].doctor_id == id
    }

    /// The store's own invariant: no two records of a kind share an
    /// identifier.
    pub open spec fn well_formed(self) -> bool {
        &&& forall|i: int, j: int|
            0 <= i < j < self.patients@.len() ==> self.patients@[i].patient_id
                != self.patients@[j].patient_id
        &&& forall|i: int, j: int|
            0 <= i < j < self.doctors@.len() ==> self.doctors@[i].doctor_id
                != self.doctors@[j].doctor_id
    }

    /// Every stored identifier was handed out by the allocator: none exceeds
    /// its kind's counter. Holds of every store whose records all came
    /// through registration, and guarantees that the next allocated
    /// identifier is unused.
    pub open spec fn counters_dominate(self) -> bool {
        &&& forall|i: int|
            0 <= i < self.patients@.len() ==> self.patients@[i].patient_id
                <= self.patient_counter
        &&& forall|i: int|
            0 <= i < self.doctors@.len() ==> self.doctors@[i].doctor_id <= self.doctor_counter
    }

    /// An empty store: both counters at zero, no records.
    pub fn new() -> (s: RecordStore)
        ensures
            s.patient_counter == 0,
            s.doctor_counter == 0,
            s.patients@ == Seq::<PatientRecord>::empty(),
            s.doctors@ == Seq::<DoctorRecord>::empty(),
    {
        RecordStore {
            patient_counter: 0,
            doctor_counter: 0,
            patients: Vec::new(),
            doctors: Vec::new(),
        }
    }

    /// Atomically increments the kind's counter and returns the
    /// post-increment value. The first allocation for a kind yields 1, as
    /// with an upsert that creates the counter on first use. Fails, changing
    /// nothing, exactly when the counter cannot move further.
    pub fn allocate_next(&mut self, kind: EntityKind) -> (r: Result<u64, RecordError>)
        ensures
            r is Ok <==> old(self).counter_of(kind) < u64::MAX,
            match r {
                Ok(id) => alloc_ok(*old(self), *final(self), kind, id),
                Err(e) => {
                    &&& e == RecordError::AllocationFailed
                    &&& *final(self) == *old(self)
                },
            },
    {
        match kind {
            EntityKind::Patient => {
                if self.patient_counter < u64::MAX {
                    self.patient_counter = self.patient_counter + 1;
                    Ok(self.patient_counter)
                } else {
                    Err(RecordError::AllocationFailed)
                }
            },
            EntityKind::Doctor => {
                if self.doctor_counter < u64::MAX {
                    self.doctor_counter = self.doctor_counter + 1;
                    Ok(self.doctor_counter)
                } else {
                    Err(RecordError::AllocationFailed)
                }
            },
        }
    }

    /// The position of the patient record carrying `id`, if any.
    fn patient_index(&self, id: u64) -> (r: Option<usize>)
        ensures
            match r {
                Some(i) => i < self.patients@.len() && self.patients@[i as int].patient_id == id,
                None => !self.has_patient(id),
            },
    {
        let mut i: usize = 0;
        while i < self.patients.len()
            invariant
                i <= self.patients@.len(),
                forall|j: int| 0 <= j < i ==> self.patients@[j].patient_id != id,
            decreases self.patients@.len() - i,
        {
            if self.patients[i].patient_id == id {
                return Some(i);
            }
            i = i + 1;
        }
        None
    }

    /// The position of the doctor record carrying `id`, if any.
    fn doctor_index(&self, id: u64) -> (r: Option<usize>)
        ensures
            match r {
                Some(i) => i < self.doctors@.len() && self.doctors@[i as int].doctor_id == id,
                None => !self.has_doctor(id),
            },
    {
        let mut i: usize = 0;
        while i < self.doctors.len()
            invariant
                i <= self.doctors@.len(),
                forall|j: int| 0 <= j < i ==> self.doctors@[j].doctor_id != id,
            decreases self.doctors@.len() - i,
        {
            if self.doctors[i].doctor_id == id {
                return Some(i);
            }
            i = i + 1;
        }
        None
    }

    /// Appends the record unless its identifier is already taken: the unique
    /// constraint is enforced here, in the storage layer itself. A rejected
    /// insert changes nothing.
    pub fn insert_patient(&mut self, record: PatientRecord) -> (r: Result<(), RecordError>)
        requires
            old(self).well_formed(),
        ensures
            final(self).well_formed(),
            final(self).patient_counter == old(self).patient_counter,
            final(self).doctor_counter == old(self).doctor_counter,
            final(self).doctors@ == old(self).doctors@,
            r is Ok <==> !old(self).has_patient(record.patient_id),
            old(self).counters_dominate() && record.patient_id <= old(self).patient_counter
                ==> final(self).counters_dominate(),
            match r {
                Ok(u) => final(self).patients@ == old(self).patients@.push(record),
                Err(e) => {
                    &&& e == RecordError::InsertFailed(InsertFault::DuplicateIdentifier)
                    &&& *final(self) == *old(self)
                },
            },
    {
        match self.patient_index(record.patient_id) {
            Some(_) => Err(RecordError::InsertFailed(InsertFault::DuplicateIdentifier)),
            None => {
                self.patients.push(record);
                Ok(())
            },
        }
    }

    /// Appends the record unless its identifier is already taken; the
    /// doctor-side counterpart of `insert_patient`.
    pub fn insert_doctor(&mut self, record: DoctorRecord) -> (r: Result<(), RecordError>)
        requires
            old(self).well_formed(),
        ensures
            final(self).well_formed(),
            final(self).patient_counter == old(self).patient_counter,
            final(self).doctor_counter == old(self).doctor_counter,
            final(self).patients@ == old(self).patients@,
            r is Ok <==> !old(self).has_doctor(record.doctor_id),
            old(self).counters_dominate() && record.doctor_id <= old(self).doctor_counter
                ==> final(self).counters_dominate(),
            match r {
                Ok(u) => final(self).doctors@ == old(self).doctors@.push(record),
                Err(e) => {
                    &&& e == RecordError::InsertFailed(InsertFault::DuplicateIdentifier)
                    &&& *final(self) == *old(self)
                },
            },
    {
        match self.doctor_index(record.doctor_id) {
            Some(_) => Err(RecordError::InsertFailed(InsertFault::DuplicateIdentifier)),
            None => {
                self.doctors.push(record);
                Ok(())
            },
        }
    }

    /// Point lookup: the patient record carrying `id`, or `RecordNotFound`.
    /// An absent record is an expected outcome, not a storage fault.
    pub fn find_patient_by_id(&self, id: u64) -> (r: Result<&PatientRecord, RecordError>)
        ensures
            r is Ok <==> self.has_patient(id),
            match r {
                Ok(p) => {
                    &&& exists|i: int|
                        0 <= i < self.patients@.len() && *p == self.patients@[i]
                    &&& p.patient_id == id
                },
                Err(e) => e == RecordError::RecordNotFound(id),
            },
    {
        match self.patient_index(id) {
            Some(i) => Ok(&self.patients[i]),
            None => Err(RecordError::RecordNotFound(id)),
        }
    }

    /// Point lookup: the doctor record carrying `id`, or `RecordNotFound`.
    pub fn find_doctor_by_id(&self, id: u64) -> (r: Result<&DoctorRecord, RecordError>)
        ensures
            r is Ok <==> self.has_doctor(id),
            match r {
                Ok(d) => {
                    &&& exists|i: int| 0 <= i < self.doctors@.len() && *d == self.doctors@[i]
                    &&& d.doctor_id == id
                },
                Err(e) => e == RecordError::RecordNotFound(id),
            },
    {
        match self.doctor_index(id) {
            Some(i) => Ok(&self.doctors[i]),
            None => Err(RecordError::RecordNotFound(id)),
        }
    }

    /// Predicate lookup: every patient record whose stored name equals the
    /// query, in storage order. An empty result is a valid outcome, not an
    /// error. Stored names are lowercased at registration, so a lowercase
    /// query finds every casing of the registered name.
    pub fn find_patients_by_name(&self, name: &str) -> (r: Vec<&PatientRecord>)
        ensures
            r@.map_values(|p: &PatientRecord| *p) == self.patients@.filter(
                |q: PatientRecord| q.patient_name@ == name@,
            ),
    {
        let query: String = name.to_owned();
        let mut found: Vec<&PatientRecord> = Vec::new();
        let ghost pred = |q: PatientRecord| q.patient_name@ == name@;
        proof {
            reveal(Seq::filter);
            assert(self.patients@.take(0).filter(pred) =~= Seq::<PatientRecord>::empty());
        }
        let mut i: usize = 0;
        while i < self.patients.len()
            invariant
                i <= self.patients@.len(),
                query@ == name@,
                found@.map_values(|p: &PatientRecord| *p) == self.patients@.take(i as int).filter(
                    pred,
                ),
                pred == (|q: PatientRecord| q.patient_name@ == name@),
            decreases self.patients@.len() - i,
        {
            let ghost prefix = self.patients@.take(i as int);
            let ghost prev = found@;
            if self.patients[i].patient_name == query {
                found.push(&self.patients[i]);
            }
            proof {
                reveal(Seq::filter);
                assert(self.patients@.take(i + 1).drop_last() =~= prefix);
                assert(self.patients@.take(i + 1).last() == self.patients@[i as int]);
                if pred(self.patients@[i as int]) {
                    assert(found@.map_values(|p: &PatientRecord| *p) =~= prev.map_values(
                        |p: &PatientRecord| *p,
                    ).push(self.patients@[i as int]));
                } else {
                    assert(found@ == prev);
                }
                assert(self.patients@.take(i + 1).filter(pred) == found@.map_values(
                    |p: &PatientRecord| *p,
                ));
            }
            i = i + 1;
        }
        proof {
            assert(self.patients@.take(i as int) =~= self.patients@);
        }
        found
    }

    /// Predicate lookup: every doctor record whose stored name equals the
    /// query, in storage order; the doctor-side counterpart of
    /// `find_patients_by_name`.
    pub fn find_doctors_by_name(&self, name: &str) -> (r: Vec<&DoctorRecord>)
        ensures
            r@.map_values(|d: &DoctorRecord| *d) == self.doctors@.filter(
                |q: DoctorRecord| q.doctor_name@ == name@,
            ),
    {
        let query: String = name.to_owned();
        let mut found: Vec<&DoctorRecord> = Vec::new();
        let ghost pred = |q: DoctorRecord| q.doctor_name@ == name@;
        proof {
            reveal(Seq::filter);
            assert(self.doctors@.take(0).filter(pred) =~= Seq::<DoctorRecord>::empty());
        }
        let mut i: usize = 0;
        while i < self.doctors.len()
            invariant
                i <= self.doctors@.len(),
                query@ == name@,
                found@.map_values(|d: &DoctorRecord| *d) == self.doctors@.take(i as int).filter(
                    pred,
                ),
                pred == (|q: DoctorRecord| q.doctor_name@ == name@),
            decreases self.doctors@.len() - i,
        {
            let ghost prefix = self.doctors@.take(i as int);
            let ghost prev = found@;
            if self.doctors[i].doctor_name == query {
                found.push(&self.doctors[i]);
            }
            proof {
                reveal(Seq::filter);
                assert(self.doctors@.take(i + 1).drop_last() =~= prefix);
                assert(self.doctors@.take(i + 1).last() == self.doctors@[i as int]);
                if pred(self.doctors@[i as int]) {
                    assert(found@.map_values(|d: &DoctorRecord| *d) =~= prev.map_values(
                        |d: &DoctorRecord| *d,
                    ).push(self.doctors@[i as int]));
                } else {
                    assert(found@ == prev);
                }
                assert(self.doctors@.take(i + 1).filter(pred) == found@.map_values(
                    |d: &DoctorRecord| *d,
                ));
            }
            i = i + 1;
        }
        proof {
            assert(self.doctors@.take(i as int) =~= self.doctors@);
        }
        found
    }

    /// Appends one diagnosis report to the patient record carrying
    /// `patient_id`. Zero matches is the distinguishable `RecordNotFound`
    /// outcome and leaves the store untouched; it is never conflated with
    /// success.
    pub fn append_patient_report(
        &mut self,
        patient_id: u64,
        report: DiagnosisReport,
    ) -> (r: Result<(), RecordError>)
        requires
            old(self).well_formed(),
        ensures
            final(self).well_formed(),
            old(self).counters_dominate() ==> final(self).counters_dominate(),
            r is Ok <==> old(self).has_patient(patient_id),
            match r {
                Ok(u) => attach_ok(*old(self), *final(self), patient_id, report),
                Err(e) => {
                    &&& e == RecordError::RecordNotFound(patient_id)
                    &&& *final(self) == *old(self)
                },
            },
    {
        match self.patient_index(patient_id) {
            None => Err(RecordError::RecordNotFound(patient_id)),
            Some(i) => {
                self.patients[i].diagnosis_reports.push(report);
                proof {
                    assert(attach_ok(*old(self), *self, patient_id, report));
                }
                Ok(())
            },
        }
    }
}

} // verus!
