use mock_relayer::extraction::{
    build_extracted_data, build_test_data, extract_platform, extract_restaurant_name,
    restaurant_name_or_placeholder,
};
use mock_relayer::models::{
    BookingData, CancellationData, CommandType, EmailCommand, ExtractedData,
    GenerateTestProofRequest, ReservationData, ReservationType,
};

fn command_with(kind: CommandType, params: &[&str]) -> EmailCommand {
    EmailCommand { command: kind, params: params.iter().map(|p| p.to_string()).collect() }
}

fn build(kind: CommandType, params: &[&str], now: u64) -> ExtractedData {
    build_extracted_data(
        &command_with(kind, params),
        "resy".to_string(),
        "Chez Pat".to_string(),
        "RES-0A1B2C3D".to_string(),
        now,
    )
}

#[test]
fn platform_is_read_from_the_sender_domain() {
    assert_eq!(extract_platform("noreply@opentable.com").unwrap(), "opentable");
    assert_eq!(extract_platform("Resy <hello@resy.com>").unwrap(), "resy");
}

#[test]
fn unknown_sender_gives_the_unknown_platform() {
    assert_eq!(extract_platform("someone@example.org").unwrap(), "unknown");
    assert_eq!(extract_platform("").unwrap(), "unknown");
    assert_eq!(extract_platform("a@OpenTable.com").unwrap(), "unknown");
}

#[test]
fn opentable_wins_over_resy() {
    assert_eq!(extract_platform("resy.com via opentable.com").unwrap(), "opentable");
}

#[test]
fn restaurant_name_follows_the_marker() {
    assert_eq!(
        extract_restaurant_name("Your table at Chez Pat"),
        Some("Chez Pat".to_string())
    );
}

#[test]
fn restaurant_name_ends_with_the_line() {
    assert_eq!(
        extract_restaurant_name("Your table at Chez Pat\nSee you soon at eight"),
        Some("Chez Pat".to_string())
    );
}

#[test]
fn restaurant_name_is_trimmed() {
    assert_eq!(
        extract_restaurant_name("Dinner at   Luigi's Trattoria \t\r\nBye"),
        Some("Luigi's Trattoria".to_string())
    );
}

#[test]
fn restaurant_name_may_be_empty() {
    assert_eq!(extract_restaurant_name("Dinner at \nsomewhere"), Some(String::new()));
    assert_eq!(extract_restaurant_name("meet at "), Some(String::new()));
}

#[test]
fn restaurant_name_runs_to_the_end_of_the_line() {
    assert_eq!(
        extract_restaurant_name("Dinner at Chez Pat at 8pm\nBye"),
        Some("Chez Pat at 8pm".to_string())
    );
}

#[test]
fn marker_is_found_inside_words() {
    assert_eq!(extract_restaurant_name("What a great evening"), Some("a great evening".to_string()));
}

#[test]
fn body_without_marker_names_no_restaurant() {
    assert_eq!(extract_restaurant_name("No marker here"), None);
    assert_eq!(extract_restaurant_name(""), None);
    assert_eq!(extract_restaurant_name("at"), None);
    assert_eq!(extract_restaurant_name("AT Luigi"), None);
}

#[test]
fn missing_restaurant_name_falls_back_to_the_placeholder() {
    assert_eq!(restaurant_name_or_placeholder("No marker here"), "Test Restaurant");
    assert_eq!(restaurant_name_or_placeholder("Lunch at Noma"), "Noma");
}

#[test]
fn list_gives_a_reservation_seven_days_ahead_for_two() {
    assert_eq!(
        build(CommandType::List, &["ignored"], 1_700_000_000),
        ExtractedData::Reservation(ReservationData {
            platform: "resy".to_string(),
            reservation_id: "RES-0A1B2C3D".to_string(),
            restaurant_name: "Chez Pat".to_string(),
            reservation_time: 1_700_604_800,
            party_size: 2,
        })
    );
}

#[test]
fn cancel_takes_the_first_parameter_as_reservation_id() {
    assert_eq!(
        build(CommandType::Cancel, &["RES-1234", "more"], 1_700_000_000),
        ExtractedData::Cancellation(CancellationData {
            original_reservation_id: "RES-1234".to_string(),
            cancellation_time: 1_700_000_000,
            restaurant_name: "Chez Pat".to_string(),
        })
    );
}

#[test]
fn cancel_without_parameter_takes_the_made_up_id() {
    assert_eq!(
        build(CommandType::Cancel, &[], 5),
        ExtractedData::Cancellation(CancellationData {
            original_reservation_id: "RES-0A1B2C3D".to_string(),
            cancellation_time: 5,
            restaurant_name: "Chez Pat".to_string(),
        })
    );
}

#[test]
fn claim_gives_a_booking_at_once() {
    assert_eq!(
        build(CommandType::Claim, &["RES-1234"], 1_700_000_000),
        ExtractedData::Booking(BookingData {
            new_reservation_id: "RES-0A1B2C3D".to_string(),
            booking_time: 1_700_000_000,
            restaurant_name: "Chez Pat".to_string(),
        })
    );
}

#[test]
fn reservation_time_may_reach_the_largest_time() {
    let data = build(CommandType::List, &[], u64::MAX - 604_800);
    match data {
        ExtractedData::Reservation(r) => assert_eq!(r.reservation_time, u64::MAX),
        other => panic!("not a reservation: {:?}", other),
    }
}

fn request(kind: ReservationType, party_size: Option<u8>) -> GenerateTestProofRequest {
    GenerateTestProofRequest {
        platform: "opentable".to_string(),
        restaurant_name: "Noma".to_string(),
        party_size,
        reservation_type: kind,
    }
}

#[test]
fn test_confirmation_gives_a_reservation_from_the_request() {
    let nonce = 0x0a1b2c3d_0000_4000_8000_000000000000;
    assert_eq!(
        build_test_data(&request(ReservationType::Confirmation, Some(6)), nonce, 100),
        ExtractedData::Reservation(ReservationData {
            platform: "opentable".to_string(),
            reservation_id: "TEST-0A1B2C3D".to_string(),
            restaurant_name: "Noma".to_string(),
            reservation_time: 604_900,
            party_size: 6,
        })
    );
}

#[test]
fn test_confirmation_without_party_size_is_for_two() {
    match build_test_data(&request(ReservationType::Confirmation, None), 0, 0) {
        ExtractedData::Reservation(r) => {
            assert_eq!(r.party_size, 2);
            assert_eq!(r.reservation_id, "TEST-00000000");
        }
        other => panic!("not a reservation: {:?}", other),
    }
}

#[test]
fn test_cancellation_and_booking_take_the_made_up_id() {
    let nonce = 0xffffffff_0000_4000_8000_000000000000;
    assert_eq!(
        build_test_data(&request(ReservationType::Cancellation, Some(6)), nonce, 100),
        ExtractedData::Cancellation(CancellationData {
            original_reservation_id: "TEST-FFFFFFFF".to_string(),
            cancellation_time: 100,
            restaurant_name: "Noma".to_string(),
        })
    );
    assert_eq!(
        build_test_data(&request(ReservationType::NewBooking, None), nonce, 100),
        ExtractedData::Booking(BookingData {
            new_reservation_id: "TEST-FFFFFFFF".to_string(),
            booking_time: 100,
            restaurant_name: "Noma".to_string(),
        })
    );
}
