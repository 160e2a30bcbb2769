use record_service::errors::{InsertFault, RecordError};
use record_service::login::{login_outcome, login_response, token_expiry, TOKEN_VALIDITY_SECS};
use record_service::models::{
    DiagnosisReport, Doctor, DoctorPayload, DoctorRecord, EntityKind, PatientPayload,
    PatientRecord,
};
use record_service::response::RecordResponse;
use record_service::store::RecordStore;

fn patient_payload(name: &str, age: u64) -> PatientPayload {
    PatientPayload {
        patient_name: name.to_string(),
        patient_age: age,
    }
}

fn report(doctor_id: u64, doctor_name: &str, details: &str) -> DiagnosisReport {
    DiagnosisReport {
        doctor_id,
        doctor_name: doctor_name.to_string(),
        details: details.to_string(),
    }
}

#[test]
fn allocations_are_distinct_and_increasing() {
    let mut store = RecordStore::new();
    let mut seen = Vec::new();
    for _ in 0..5 {
        let id = store.allocate_next(EntityKind::Patient).unwrap();
        assert!(!seen.contains(&id));
        if let Some(last) = seen.last() {
            assert!(id > *last);
        }
        seen.push(id);
    }
    assert_eq!(seen, vec![1, 2, 3, 4, 5]);
}

#[test]
fn counters_are_independent_per_kind() {
    let mut store = RecordStore::new();
    assert_eq!(store.allocate_next(EntityKind::Patient).unwrap(), 1);
    assert_eq!(store.allocate_next(EntityKind::Doctor).unwrap(), 1);
    assert_eq!(store.allocate_next(EntityKind::Patient).unwrap(), 2);
    assert_eq!(store.allocate_next(EntityKind::Doctor).unwrap(), 2);
}

#[test]
fn allocation_fails_only_at_the_counter_limit() {
    let mut store = RecordStore::new();
    store.patient_counter = u64::MAX;
    assert_eq!(
        store.allocate_next(EntityKind::Patient),
        Err(RecordError::AllocationFailed)
    );
    assert_eq!(store.patient_counter, u64::MAX);
    assert_eq!(store.allocate_next(EntityKind::Doctor), Ok(1));
}

#[test]
fn registering_same_payload_twice_gives_two_records() {
    let mut store = RecordStore::new();
    let first = store.register_patient(patient_payload("Madaya", 24)).unwrap();
    let second = store.register_patient(patient_payload("Madaya", 24)).unwrap();
    assert_ne!(first, second);
    assert_eq!(store.patients.len(), 2);
    assert_eq!(store.patients[0].patient_id, first);
    assert_eq!(store.patients[1].patient_id, second);
}

#[test]
fn find_by_id_returns_the_normalized_record() {
    let mut store = RecordStore::new();
    let id = store.register_patient(patient_payload("MaDaYa", 24)).unwrap();
    let found = store.find_patient_by_id(id).unwrap();
    assert_eq!(found.patient_id, id);
    assert_eq!(found.patient_name, "madaya");
    assert_eq!(found.age, 24);
    assert!(found.diagnosis_reports.is_empty());
}

#[test]
fn find_by_id_on_unknown_identifier_is_not_found() {
    let store = RecordStore::new();
    assert!(matches!(
        store.find_patient_by_id(1),
        Err(RecordError::RecordNotFound(1))
    ));
}

#[test]
fn attach_to_unknown_patient_is_not_found_and_changes_nothing() {
    let mut store = RecordStore::new();
    store.register_patient(patient_payload("Madaya", 24)).unwrap();
    let r = store.attach_report(99, report(7, "smith", "stable"));
    assert!(matches!(r, Err(RecordError::RecordNotFound(99))));
    assert_eq!(store.patients.len(), 1);
    assert!(store.patients[0].diagnosis_reports.is_empty());
}

#[test]
fn two_attachments_append_in_order() {
    let mut store = RecordStore::new();
    let id = store.register_patient(patient_payload("Madaya", 24)).unwrap();
    store.attach_report(id, report(7, "smith", "report a")).unwrap();
    store.attach_report(id, report(8, "jones", "report b")).unwrap();
    let found = store.find_patient_by_id(id).unwrap();
    assert_eq!(found.diagnosis_reports.len(), 2);
    assert_eq!(found.diagnosis_reports[0].details, "report a");
    assert_eq!(found.diagnosis_reports[1].details, "report b");
}

#[test]
fn end_to_end_scenario() {
    let mut store = RecordStore::new();

    let first = store.register_patient(patient_payload("Madaya", 24)).unwrap();
    assert_eq!(first, 1);
    {
        let found = store.find_patient_by_id(1).unwrap();
        assert_eq!(found.patient_name, "madaya");
        assert_eq!(found.age, 24);
        assert!(found.diagnosis_reports.is_empty());
    }

    let second = store.register_patient(patient_payload("Madaya", 24)).unwrap();
    assert_eq!(second, 2);
    assert_eq!(store.patients.len(), 2);
    assert_eq!(store.patients[0].patient_name, "madaya");
    assert_eq!(store.patients[1].patient_name, "madaya");

    store
        .attach_report(1, report(7, "smith", "stable"))
        .unwrap();
    let found = store.find_patient_by_id(1).unwrap();
    assert_eq!(found.diagnosis_reports.len(), 1);
    assert_eq!(found.diagnosis_reports[0].doctor_id, 7);
    assert_eq!(found.diagnosis_reports[0].doctor_name, "smith");
    assert_eq!(found.diagnosis_reports[0].details, "stable");
}

#[test]
fn find_by_name_matches_stored_lowercase_names() {
    let mut store = RecordStore::new();
    store.register_patient(patient_payload("Madaya", 24)).unwrap();
    store.register_patient(patient_payload("madaya", 30)).unwrap();
    store.register_patient(patient_payload("Other", 50)).unwrap();

    let hits = store.find_patients_by_name("madaya");
    assert_eq!(hits.len(), 2);
    assert_eq!(hits[0].patient_id, 1);
    assert_eq!(hits[1].patient_id, 2);

    assert!(store.find_patients_by_name("Madaya").is_empty());
    assert!(store.find_patients_by_name("nobody").is_empty());
}

#[test]
fn insert_rejects_duplicate_identifiers() {
    let mut store = RecordStore::new();
    let id = store.register_patient(patient_payload("Madaya", 24)).unwrap();
    let clash = PatientRecord {
        patient_id: id,
        patient_name: "other".to_string(),
        age: 40,
        diagnosis_reports: Vec::new(),
    };
    let r = store.insert_patient(clash);
    assert_eq!(
        r,
        Err(RecordError::InsertFailed(InsertFault::DuplicateIdentifier))
    );
    assert_eq!(store.patients.len(), 1);
    assert_eq!(store.patients[0].patient_name, "madaya");
}

#[test]
fn register_consumes_the_identifier_when_insert_is_refused() {
    let mut store = RecordStore::new();
    let planted = PatientRecord {
        patient_id: 1,
        patient_name: "squatter".to_string(),
        age: 1,
        diagnosis_reports: Vec::new(),
    };
    store.insert_patient(planted).unwrap();
    let r = store.register_patient(patient_payload("Madaya", 24));
    assert_eq!(
        r,
        Err(RecordError::InsertFailed(InsertFault::DuplicateIdentifier))
    );
    // The failed attempt consumed identifier 1; the next registration gets 2.
    assert_eq!(store.patient_counter, 1);
    let next = store.register_patient(patient_payload("Madaya", 24)).unwrap();
    assert_eq!(next, 2);
    assert_eq!(store.patients.len(), 2);
}

#[test]
fn doctor_registration_normalizes_name_and_keeps_hospital_fields() {
    let mut store = RecordStore::new();
    let payload = DoctorPayload {
        doctor_name: "Smith".to_string(),
        hospital_name: "General Hospital".to_string(),
        hospital_address: "1 Main St".to_string(),
    };
    let id = store.register_doctor(payload).unwrap();
    assert_eq!(id, 1);
    let found = store.find_doctor_by_id(id).unwrap();
    assert_eq!(found.doctor_name, "smith");
    assert_eq!(found.hospital_name, "General Hospital");
    assert_eq!(found.hospital_address, "1 Main St");
}

#[test]
fn find_doctors_by_name_matches_stored_lowercase_names() {
    let mut store = RecordStore::new();
    let payload = |name: &str| DoctorPayload {
        doctor_name: name.to_string(),
        hospital_name: "General".to_string(),
        hospital_address: "1 Main St".to_string(),
    };
    store.register_doctor(payload("Smith")).unwrap();
    store.register_doctor(payload("smith")).unwrap();
    store.register_doctor(payload("Jones")).unwrap();

    let hits = store.find_doctors_by_name("smith");
    assert_eq!(hits.len(), 2);
    assert_eq!(hits[0].doctor_id, 1);
    assert_eq!(hits[1].doctor_id, 2);
    assert!(store.find_doctors_by_name("Smith").is_empty());
}

#[test]
fn find_doctor_by_id_on_unknown_identifier_is_not_found() {
    let store = RecordStore::new();
    assert!(matches!(
        store.find_doctor_by_id(4),
        Err(RecordError::RecordNotFound(4))
    ));
}

#[test]
fn insert_doctor_rejects_duplicate_identifiers() {
    let mut store = RecordStore::new();
    let record = DoctorRecord {
        doctor_id: 5,
        doctor_name: "smith".to_string(),
        hospital_name: "General".to_string(),
        hospital_address: "1 Main St".to_string(),
    };
    store.insert_doctor(record).unwrap();
    let clash = DoctorRecord {
        doctor_id: 5,
        doctor_name: "jones".to_string(),
        hospital_name: "Other".to_string(),
        hospital_address: "2 Side St".to_string(),
    };
    assert_eq!(
        store.insert_doctor(clash),
        Err(RecordError::InsertFailed(InsertFault::DuplicateIdentifier))
    );
    assert_eq!(store.doctors.len(), 1);
}

fn doctor_account(name: &str) -> Doctor {
    Doctor {
        name: name.to_string(),
        email: "doc@example.com".to_string(),
        password: "stored-hash".to_string(),
        hospital_name: "General".to_string(),
        hospital_address: "1 Main St".to_string(),
    }
}

#[test]
fn login_outcome_covers_all_cases() {
    assert_eq!(
        login_outcome(None, true),
        Err(RecordError::UserNotFound)
    );
    assert_eq!(
        login_outcome(Some(doctor_account("smith")), false),
        Err(RecordError::BadCredentials)
    );
    assert_eq!(
        login_outcome(Some(doctor_account("smith")), true),
        Ok("smith".to_string())
    );
}

#[test]
fn login_response_reports_name_or_failure() {
    match login_response(Ok("smith".to_string())) {
        RecordResponse::LoginSuccess(name) => assert_eq!(name, "smith"),
        RecordResponse::LoginFailed(_) => panic!("expected success"),
    }
    match login_response(Err(RecordError::BadCredentials)) {
        RecordResponse::LoginFailed(msg) => assert_eq!(msg, "bad credentials"),
        RecordResponse::LoginSuccess(_) => panic!("expected failure"),
    }
}

#[test]
fn error_messages_name_each_failure_kind() {
    assert_eq!(
        RecordError::AllocationFailed.message(),
        "identifier allocation failed"
    );
    assert_eq!(
        RecordError::InsertFailed(InsertFault::DuplicateIdentifier).message(),
        "insert rejected: duplicate identifier"
    );
    assert_eq!(
        RecordError::InsertFailed(InsertFault::StorageFault).message(),
        "insert failed in the storage layer"
    );
    assert_eq!(RecordError::RecordNotFound(3).message(), "record not found");
    assert_eq!(
        RecordError::StorageUnavailable.message(),
        "storage unavailable"
    );
    assert_eq!(RecordError::UserNotFound.message(), "user not found");
    assert_eq!(RecordError::BadCredentials.message(), "bad credentials");
}

#[test]
fn token_expiry_adds_the_validity_window() {
    assert_eq!(token_expiry(0), Some(TOKEN_VALIDITY_SECS));
    assert_eq!(token_expiry(1_000_000), Some(1_000_000 + TOKEN_VALIDITY_SECS));
    assert_eq!(token_expiry(i64::MAX), None);
    assert_eq!(
        token_expiry(i64::MAX - TOKEN_VALIDITY_SECS),
        Some(i64::MAX)
    );
}
