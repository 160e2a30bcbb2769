//! Entity documents and decoded request payloads.
//!
//! Records carry an identifier handed out by the sequence allocator; names
//! are normalized to lowercase before persistence, so name-based lookups are
//! case-insensitive by construction. A diagnosis report is embedded in the
//! patient record that owns it and holds only a weak, display-only reference
//! to a doctor.

use vstd::prelude::*;

verus! {

/// The two entity kinds that receive allocated identifiers; each kind owns
/// one monotonic counter.
#[derive(Clone, Copy, Debug, PartialEq, Eq, Structural)]
pub enum EntityKind {
    Patient,
    Doctor,
}

/// A diagnosis report embedded in a patient record. Immutable once appended;
/// `doctor_id` is a weak reference kept for display only, so a dangling value
/// is tolerated.
#[derive(Debug)]
pub struct DiagnosisReport {
    pub doctor_id: u64,
    pub doctor_name: String,
    pub details: String,
}

/// A stored patient document. `patient_id` is assigned exactly once, at
/// creation, and never mutated; reports only ever get appended, in order.
#[derive(Debug)]
pub struct PatientRecord {
    pub patient_id: u64,
    pub patient_name: String,
    pub age: u64,
    pub diagnosis_reports: Vec<DiagnosisReport>,
}

/// A stored doctor document. `doctor_id` is assigned exactly once, at
/// creation, and never mutated.
#[derive(Debug)]
pub struct DoctorRecord {
    pub doctor_id: u64,
    pub doctor_name: String,
    pub hospital_name: String,
    pub hospital_address: String,
}

/// Decoded payload of a patient registration request.
#[derive(Debug)]
pub struct PatientPayload {
    pub patient_name: String,
    pub patient_age: u64,
}

/// Decoded payload of a doctor registration request.
#[derive(Debug)]
pub struct DoctorPayload {
    pub doctor_name: String,
    pub hospital_name: String,
    pub hospital_address: String,
}

/// Decoded payload of a login request.
#[derive(Debug)]
pub struct LoginPayload {
    pub email: String,
    pub password: String,
}

/// A doctor account as the login path reads it: the registration document
/// together with the stored credential hash.
#[derive(Debug)]
pub struct Doctor {
    pub name: String,
    pub email: String,
    pub password: String,
    pub hospital_name: String,
    pub hospital_address: String,
}

} // verus!
