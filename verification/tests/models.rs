use mock_relayer::mock_proofs::deterministic_proof_from;
use mock_relayer::models::{
    clone_optional_text, clone_texts, BookingData, CancellationData, CommandType, EmailCommand,
    EmailProof, ExtractedData, ProcessingStatus, ReservationData, Status, Timestamp,
};
use mock_relayer::state::AppState;

#[test]
fn completed_and_failed_are_the_terminal_statuses() {
    assert!(!Status::Pending.terminal());
    assert!(!Status::Processing.terminal());
    assert!(Status::Completed.terminal());
    assert!(Status::Failed.terminal());
}

#[test]
fn clone_of_texts_keeps_every_text() {
    let texts = vec!["a".to_string(), String::new(), "caf\u{e9}".to_string()];
    assert_eq!(clone_texts(&texts), texts);
    assert_eq!(clone_texts(&Vec::new()), Vec::<String>::new());
    assert_eq!(clone_optional_text(&Some("x".to_string())), Some("x".to_string()));
    assert_eq!(clone_optional_text(&None), None);
}

#[test]
fn clone_of_a_record_is_equal_to_it() {
    let record = ProcessingStatus {
        id: 7,
        status: Status::Failed,
        created_at: Timestamp { secs: 1, nanos: 2 },
        updated_at: Timestamp { secs: 3, nanos: 4 },
        email_hash: Some("0xabc".to_string()),
        error: Some("gave up".to_string()),
    };
    assert_eq!(record.clone(), record);
}

#[test]
fn clone_of_a_command_is_equal_to_it() {
    let command = EmailCommand {
        command: CommandType::Cancel,
        params: vec!["RES-1".to_string(), "x".to_string()],
    };
    assert_eq!(command.clone(), command);
}

#[test]
fn clone_of_a_proof_is_equal_to_it() {
    let data = [
        ExtractedData::Reservation(ReservationData {
            platform: "resy".to_string(),
            reservation_id: "RES-1".to_string(),
            restaurant_name: "Noma".to_string(),
            reservation_time: 5,
            party_size: 2,
        }),
        ExtractedData::Cancellation(CancellationData {
            original_reservation_id: "RES-2".to_string(),
            cancellation_time: 6,
            restaurant_name: "Lilia".to_string(),
        }),
        ExtractedData::Booking(BookingData {
            new_reservation_id: "RES-3".to_string(),
            booking_time: 7,
            restaurant_name: "Atomix".to_string(),
        }),
    ];
    for extracted_data in data {
        let proof = EmailProof {
            email_hash: "0xabc".to_string(),
            proof: deterministic_proof_from(42),
            extracted_data,
            created_at: Timestamp { secs: 8, nanos: 9 },
        };
        assert_eq!(proof.clone(), proof);
    }
}

#[test]
fn new_state_has_two_empty_stores() {
    let state = AppState::new();
    assert_eq!(state.proofs.len(), 0);
    assert_eq!(state.processing_status.len(), 0);
}
