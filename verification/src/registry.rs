//! The registration coordinator and report attachment.
//!
//! Registration runs allocate-then-insert: normalize the payload, take the
//! next identifier from the allocator, build the document, insert it. A
//! failed insert never returns the identifier to the pool — gaps are
//! tolerated, reuse is not — and a failed allocation aborts before any
//! document is built.

use vstd::prelude::*;

use crate::errors::{InsertFault, RecordError};
use crate::models::{
    DiagnosisReport, DoctorPayload, DoctorRecord, EntityKind, PatientPayload, PatientRecord,
};
use crate::normalize::{lower_of, lowercase};
use crate::store::{attach_ok, RecordStore};

verus! {

/// What a successful patient registration does: the patient counter moves to
/// the returned identifier, and exactly one record is appended, carrying that
/// identifier, the lowercased name, the given age and no reports yet.
pub open spec fn register_patient_ok(
    pre: RecordStore,
    post: RecordStore,
    payload: PatientPayload,
    id: u64,
) -> bool {
    &&& pre.patient_counter < u64::MAX
    &&& id == pre.patient_counter + 1
    &&& post.patient_counter == id
    &&& post.doctor_counter == pre.doctor_counter
    &&& post.doctors@ == pre.doctors@
    &&& !pre.has_patient(id)
    &&& post.patients@.len() == pre.patients@.len() + 1
    &&& post.patients@ == pre.patients@.push(post.patients@.last())
    &&& post.patients@.last().patient_id == id
    &&& post.patients@.last().patient_name@ == lower_of(payload.patient_name@)
    &&& post.patients@.last().age == payload.patient_age
    &&& post.patients@.last().diagnosis_reports@ == Seq::<DiagnosisReport>::empty()
}

/// What a successful doctor registration does: the doctor counter moves to
/// the returned identifier, and exactly one record is appended, carrying that
/// identifier, the lowercased name and the hospital fields as given.
pub open spec fn register_doctor_ok(
    pre: RecordStore,
    post: RecordStore,
    payload: DoctorPayload,
    id: u64,
) -> bool {
    &&& pre.doctor_counter < u64::MAX
    &&& id == pre.doctor_counter + 1
    &&& post.doctor_counter == id
    &&& post.patient_counter == pre.patient_counter
    &&& post.patients@ == pre.patients@
    &&& !pre.has_doctor(id)
    &&& post.doctors@.len() == pre.doctors@.len() + 1
    &&& post.doctors@ == pre.doctors@.push(post.doctors@.last())
    &&& post.doctors@.last().doctor_id == id
    &&& post.doctors@.last().doctor_name@ == lower_of(payload.doctor_name@)
    &&& post.doctors@.last().hospital_name == payload.hospital_name
    &&& post.doctors@.last().hospital_address == payload.hospital_address
}

impl RecordStore {
    /// Registers a patient: lowercases the name, allocates the next patient
    /// identifier, inserts the record with an empty report sequence, and
    /// returns the identifier as the durable handle. On an allocation
    /// failure nothing is inserted; on an insert failure the identifier
    /// stays consumed. Succeeds exactly when the counter can move and its
    /// successor is unused — so always, as long as every stored identifier
    /// came from the allocator.
    pub fn register_patient(&mut self, payload: PatientPayload) -> (r: Result<u64, RecordError>)
        requires
            old(self).well_formed(),
        ensures
            final(self).well_formed(),
            old(self).counters_dominate() ==> final(self).counters_dominate(),
            r is Ok <==> (old(self).patient_counter < u64::MAX && !old(self).has_patient(
                (old(self).patient_counter + 1) as u64,
            )),
            old(self).counters_dominate() && old(self).patient_counter < u64::MAX ==> r is Ok,
            match r {
                Ok(id) => register_patient_ok(*old(self), *final(self), payload, id),
                Err(e) => {
                    ||| {
                        &&& e == RecordError::AllocationFailed
                        &&& old(self).patient_counter == u64::MAX
                        &&& *final(self) == *old(self)
                    }
                    ||| {
                        &&& e == RecordError::InsertFailed(InsertFault::DuplicateIdentifier)
                        &&& old(self).patient_counter < u64::MAX
                        &&& old(self).has_patient((old(self).patient_counter + 1) as u64)
                        &&& final(self).patient_counter == old(self).patient_counter + 1
                        &&& final(self).doctor_counter == old(self).doctor_counter
                        &&& final(self).patients@ == old(self).patients@
                        &&& final(self).doctors@ == old(self).doctors@
                    }
                },
            },
    {
        let patient_name = lowercase(payload.patient_name.as_str());
        match self.allocate_next(EntityKind::Patient) {
            Err(e) => Err(e),
            Ok(id) => {
                let record = PatientRecord {
                    patient_id: id,
                    patient_name,
                    age: payload.patient_age,
                    diagnosis_reports: Vec::new(),
                };
                match self.insert_patient(record) {
                    Err(e) => Err(e),
                    Ok(u) => Ok(id),
                }
            },
        }
    }

    /// Registers a doctor: lowercases the name, allocates the next doctor
    /// identifier, inserts the record, and returns the identifier. Failure
    /// behaviour mirrors `register_patient`.
    pub fn register_doctor(&mut self, payload: DoctorPayload) -> (r: Result<u64, RecordError>)
        requires
            old(self).well_formed(),
        ensures
            final(self).well_formed(),
            old(self).counters_dominate() ==> final(self).counters_dominate(),
            r is Ok <==> (old(self).doctor_counter < u64::MAX && !old(self).has_doctor(
                (old(self).doctor_counter + 1) as u64,
            )),
            old(self).counters_dominate() && old(self).doctor_counter < u64::MAX ==> r is Ok,
            match r {
                Ok(id) => register_doctor_ok(*old(self), *final(self), payload, id),
                Err(e) => {
                    ||| {
                        &&& e == RecordError::AllocationFailed
                        &&& old(self).doctor_counter == u64::MAX
                        &&& *final(self) == *old(self)
                    }
                    ||| {
                        &&& e == RecordError::InsertFailed(InsertFault::DuplicateIdentifier)
                        &&& old(self).doctor_counter < u64::MAX
                        &&& old(self).has_doctor((old(self).doctor_counter + 1) as u64)
                        &&& final(self).doctor_counter == old(self).doctor_counter + 1
                        &&& final(self).patient_counter == old(self).patient_counter
                        &&& final(self).patients@ == old(self).patients@
                        &&& final(self).doctors@ == old(self).doctors@
                    }
                },
            },
    {
        let doctor_name = lowercase(payload.doctor_name.as_str());
        match self.allocate_next(EntityKind::Doctor) {
            Err(e) => Err(e),
            Ok(id) => {
                let record = DoctorRecord {
                    doctor_id: id,
                    doctor_name,
                    hospital_name: payload.hospital_name,
                    hospital_address: payload.hospital_address,
                };
                match self.insert_doctor(record) {
                    Err(e) => Err(e),
                    Ok(u) => Ok(id),
                }
            },
        }
    }

    /// Attaches a diagnosis report to the patient carrying `patient_id`.
    /// No identifier is allocated; the report's identity is purely its
    /// position in the patient's sequence. An unknown identifier yields
    /// `RecordNotFound` and leaves the store untouched.
    pub fn attach_report(&mut self, patient_id: u64, report: DiagnosisReport) -> (r: Result<
        (),
        RecordError,
    >)
        requires
            old(self).well_formed(),
        ensures
            final(self).well_formed(),
            old(self).counters_dominate() ==> final(self).counters_dominate(),
            r is Ok <==> old(self).has_patient(patient_id),
            match r {
                Ok(u) => attach_ok(*old(self), *final(self), patient_id, report),
                Err(e) => {
                    &&& e == RecordError::RecordNotFound(patient_id)
                    &&& *final(self) == *old(self)
                },
            },
    {
        self.append_patient_report(patient_id, report)
    }
}

} // verus!
