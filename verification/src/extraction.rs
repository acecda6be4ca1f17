//! What the relayer reads out of an email: the platform of the sender, the
//! name of the restaurant, and the data that go with each command.

use crate::clock::SEVEN_DAYS;
use crate::ids::{synthesize_id, synthetic_id};
use crate::models::{
    BookingData, BookingDataView, CancellationData, CancellationDataView, CommandType,
    EmailCommand, EmailCommandView, ExtractedData, ExtractedDataView, GenerateTestProofRequest,
    GenerateTestProofRequestView, ProcessingFailure, ReservationData, ReservationDataView,
    ReservationType,
};
use crate::text::{
    chars_of, contains_text, find, find_from, first_line, first_occurrence, has_occurrence,
    lemma_first_occurrence_is, lemma_occurs_at_skip, occurs_at, trim_bounds, trimmed,
};
use vstd::prelude::*;
use vstd::string::*;

verus! {

/// The party size of a reservation that names none.
pub const DEFAULT_PARTY_SIZE: u8 = 2;

/// The platform behind a sender address: `opentable` where the address holds
/// `opentable.com`, else `resy` where it holds `resy.com`, else `unknown`.
pub open spec fn platform_of(from: Seq<char>) -> Seq<char> {
    if has_occurrence(from, "opentable.com"@) {
        "opentable"@
    } else if has_occurrence(from, "resy.com"@) {
        "resy"@
    } else {
        "unknown"@
    }
}

/// The restaurant that a body names: what stands behind the first `at ` up to
/// the end of that line, without the whitespace around it. A body without
/// `at ` names none.
pub open spec fn restaurant_name_of(body: Seq<char>) -> Option<Seq<char>> {
    match first_occurrence(body, seq!['a', 't', ' ']) {
        Some(at) => Some(trimmed(first_line(body.skip(at + 3)))),
        None => None,
    }
}

/// The restaurant that a body names, or the placeholder where it names none.
pub open spec fn restaurant_or_placeholder(body: Seq<char>) -> Seq<char> {
    match restaurant_name_of(body) {
        Some(name) => name,
        None => "Test Restaurant"@,
    }
}

/// The data that go with a command.
/// - `List`: a reservation on the given platform, under the made-up id,
///   seven days after `now`, for a party of two.
/// - `Cancel`: a cancellation at `now` of the reservation that the first
///   parameter names, or of the made-up id where there is no parameter.
/// - `Claim`: a booking at `now` under the made-up id.
pub open spec fn extracted_data_of(
    command: EmailCommandView,
    platform: Seq<char>,
    restaurant: Seq<char>,
    made_up_id: Seq<char>,
    now: u64,
) -> ExtractedDataView {
    match command.command {
        CommandType::List => ExtractedDataView::Reservation(
            ReservationDataView {
                platform,
                reservation_id: made_up_id,
                restaurant_name: restaurant,
                reservation_time: (now + SEVEN_DAYS) as u64,
                party_size: DEFAULT_PARTY_SIZE,
            },
        ),
        CommandType::Cancel => ExtractedDataView::Cancellation(
            CancellationDataView {
                original_reservation_id: if command.params.len() > 0 {
                    command.params[0]
                } else {
                    made_up_id
                },
                cancellation_time: now,
                restaurant_name: restaurant,
            },
        ),
        CommandType::Claim => ExtractedDataView::Booking(
            BookingDataView {
                new_reservation_id: made_up_id,
                booking_time: now,
                restaurant_name: restaurant,
            },
        ),
    }
}

/// The data of an email: those of its command, with the platform of the
/// sender, the restaurant of the body and an id made up from `nonce`.
pub open spec fn email_data_of(
    command: EmailCommandView,
    from: Seq<char>,
    body: Seq<char>,
    nonce: u128,
    now: u64,
) -> ExtractedDataView {
    extracted_data_of(
        command,
        platform_of(from),
        restaurant_or_placeholder(body),
        synthetic_id("RES-"@, nonce),
        now,
    )
}

/// The data of a proof that a test asks for, taken from the request as it
/// stands, with an id made up from `nonce`.
pub open spec fn test_data_of(
    request: GenerateTestProofRequestView,
    nonce: u128,
    now: u64,
) -> ExtractedDataView {
    let made_up_id = synthetic_id("TEST-"@, nonce);
    match request.reservation_type {
        ReservationType::Confirmation => ExtractedDataView::Reservation(
            ReservationDataView {
                platform: request.platform,
                reservation_id: made_up_id,
                restaurant_name: request.restaurant_name,
                reservation_time: (now + SEVEN_DAYS) as u64,
                party_size: match request.party_size {
                    Some(size) => size,
                    None => DEFAULT_PARTY_SIZE,
                },
            },
        ),
        ReservationType::Cancellation => ExtractedDataView::Cancellation(
            CancellationDataView {
                original_reservation_id: made_up_id,
                cancellation_time: now,
                restaurant_name: request.restaurant_name,
            },
        ),
        ReservationType::NewBooking => ExtractedDataView::Booking(
            BookingDataView {
                new_reservation_id: made_up_id,
                booking_time: now,
                restaurant_name: request.restaurant_name,
            },
        ),
    }
}

/// Whether data are of the kind that goes with a command: a reservation with
/// `List`, a cancellation with `Cancel`, a booking with `Claim`.
pub open spec fn kind_matches(command: CommandType, data: ExtractedDataView) -> bool {
    match command {
        CommandType::List => data is Reservation,
        CommandType::Cancel => data is Cancellation,
        CommandType::Claim => data is Booking,
    }
}

/// The data of an email are of the kind that goes with its command.
pub proof fn lemma_email_data_kind(
    command: EmailCommandView,
    from: Seq<char>,
    body: Seq<char>,
    nonce: u128,
    now: u64,
)
    ensures
        kind_matches(command.command, email_data_of(command, from, body, nonce, now)),
{
}

/// The platform behind a sender address. An address that names no known
/// platform gives `unknown`; no address is refused.
pub fn extract_platform(from: &str) -> (platform: Result<String, ProcessingFailure>)
    ensures
        platform is Ok,
        platform->Ok_0@ == platform_of(from@),
{
    if contains_text(from, "opentable.com") {
        Ok("opentable".to_owned())
    } else if contains_text(from, "resy.com") {
        Ok("resy".to_owned())
    } else {
        Ok("unknown".to_owned())
    }
}

/// The restaurant that a body names.
pub fn extract_restaurant_name(body: &str) -> (name: Option<String>)
    ensures
        name.deep_view() == restaurant_name_of(body@),
{
    let chars = chars_of(body);
    let marker = chars_of("at ");
    proof {
        reveal_strlit("at ");
        assert(marker@ =~= seq!['a', 't', ' ']);
    }
    match find(&chars, &marker) {
        None => None,
        Some(at) => {
            let total: usize = chars.len();
            assert(at + marker.len() <= total);
            let start: usize = at + marker.len();
            let mut line_feed: Vec<char> = Vec::new();
            line_feed.push('\n');
            assert(line_feed@ =~= seq!['\n']);
            let ghost rest = body@.skip(start as int);
            let end: usize = match find_from(&chars, &line_feed, start) {
                Some(p) => {
                    proof {
                        assert forall|k: int| 0 <= k < p - start implies !occurs_at(
                            rest,
                            line_feed@,
                            k,
                        ) by {
                            lemma_occurs_at_skip(body@, line_feed@, start as int, k);
                        }
                        lemma_occurs_at_skip(body@, line_feed@, start as int, p - start);
                        lemma_first_occurrence_is(rest, line_feed@, p - start);
                        assert(rest.take(p - start) =~= chars@.subrange(start as int, p as int));
                    }
                    p
                },
                None => {
                    proof {
                        assert forall|k: int| !occurs_at(rest, line_feed@, k) by {
                            if 0 <= k {
                                lemma_occurs_at_skip(body@, line_feed@, start as int, k);
                            }
                        }
                        assert(rest =~= chars@.subrange(start as int, total as int));
                    }
                    total
                },
            };
            assert(first_line(rest) == chars@.subrange(start as int, end as int));
            let (a, b) = trim_bounds(&chars, start, end);
            Some(body.substring_char(a, b).to_owned())
        },
    }
}

/// The restaurant that a body names, or the placeholder where it names none.
pub fn restaurant_name_or_placeholder(body: &str) -> (name: String)
    ensures
        name@ == restaurant_or_placeholder(body@),
{
    match extract_restaurant_name(body) {
        Some(name) => name,
        None => "Test Restaurant".to_owned(),
    }
}

/// Builds the data that go with a command.
pub fn build_extracted_data(
    command: &EmailCommand,
    platform: String,
    restaurant: String,
    made_up_id: String,
    now: u64,
) -> (data: ExtractedData)
    requires
        now + SEVEN_DAYS <= u64::MAX,
    ensures
        data@ == extracted_data_of(command@, platform@, restaurant@, made_up_id@, now),
{
    match command.command {
        CommandType::List => ExtractedData::Reservation(
            ReservationData {
                platform,
                reservation_id: made_up_id,
                restaurant_name: restaurant,
                reservation_time: now + SEVEN_DAYS,
                party_size: DEFAULT_PARTY_SIZE,
            },
        ),
        CommandType::Cancel => {
            let original_reservation_id = if command.params.len() > 0 {
                assert(command@.params[0] == command.params[0]@);
                command.params[0].clone()
            } else {
                made_up_id
            };
            ExtractedData::Cancellation(
                CancellationData {
                    original_reservation_id,
                    cancellation_time: now,
                    restaurant_name: restaurant,
                },
            )
        },
        CommandType::Claim => ExtractedData::Booking(
            BookingData {
                new_reservation_id: made_up_id,
                booking_time: now,
                restaurant_name: restaurant,
            },
        ),
    }
}

/// Builds the data of a proof that a test asks for.
pub fn build_test_data(request: &GenerateTestProofRequest, nonce: u128, now: u64) -> (data:
    ExtractedData)
    requires
        now + SEVEN_DAYS <= u64::MAX,
    ensures
        data@ == test_data_of(request@, nonce, now),
{
    let made_up_id = synthesize_id("TEST-", nonce);
    match request.reservation_type {
        ReservationType::Confirmation => ExtractedData::Reservation(
            ReservationData {
                platform: request.platform.clone(),
                reservation_id: made_up_id,
                restaurant_name: request.restaurant_name.clone(),
                reservation_time: now + SEVEN_DAYS,
                party_size: match request.party_size {
                    Some(size) => size,
                    None => DEFAULT_PARTY_SIZE,
                },
            },
        ),
        ReservationType::Cancellation => ExtractedData::Cancellation(
            CancellationData {
                original_reservation_id: made_up_id,
                cancellation_time: now,
                restaurant_name: request.restaurant_name.clone(),
            },
        ),
        ReservationType::NewBooking => ExtractedData::Booking(
            BookingData {
                new_reservation_id: made_up_id,
                booking_time: now,
                restaurant_name: request.restaurant_name.clone(),
            },
        ),
    }
}

} // verus!
