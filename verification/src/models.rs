//! The data of the relayer: submissions, commands, job records, proofs and
//! the bodies of its replies.
//!
//! Each type that owns text has a view in which every `String` is the
//! sequence of its characters. Contracts speak of those views.

use vstd::prelude::*;

verus! {

/// `serde_json::Value`, the free-form headers of a submission. The library
/// carries such a value along and never looks inside.
#[verifier::external_type_specification]
#[verifier::external_body]
pub struct ExJsonValue(serde_json::Value);

/// A point in time: whole seconds since the Unix epoch and the nanoseconds
/// into that second.
#[derive(Debug, Clone, Copy, PartialEq, Eq, Structural)]
pub struct Timestamp {
    pub secs: u64,
    pub nanos: u32,
}

/// A simulated inbound email.
#[derive(Debug)]
pub struct EmailSubmission {
    pub from: String,
    pub to: String,
    pub subject: String,
    pub body: String,
    pub headers: Option<serde_json::Value>,
}

/// The view of `EmailSubmission`: every text as the sequence of its characters.
pub struct EmailSubmissionView {
    pub from: Seq<char>,
    pub to: Seq<char>,
    pub subject: Seq<char>,
    pub body: Seq<char>,
    pub headers: Option<serde_json::Value>,
}

impl View for EmailSubmission {
    type V = EmailSubmissionView;

    open spec fn view(&self) -> EmailSubmissionView {
        EmailSubmissionView {
            from: self.from@,
            to: self.to@,
            subject: self.subject@,
            body: self.body@,
            headers: self.headers,
        }
    }
}

/// What a subject line asks for.
#[derive(Debug, Clone, Copy, PartialEq, Eq, Structural)]
pub enum CommandType {
    List,
    Cancel,
    Claim,
}

/// A command with the words that follow it in the subject line.
#[derive(Debug, PartialEq, Eq)]
pub struct EmailCommand {
    pub command: CommandType,
    pub params: Vec<String>,
}

/// The view of `EmailCommand`: every text as the sequence of its characters.
pub struct EmailCommandView {
    pub command: CommandType,
    pub params: Seq<Seq<char>>,
}

impl View for EmailCommand {
    type V = EmailCommandView;

    open spec fn view(&self) -> EmailCommandView {
        EmailCommandView { command: self.command, params: self.params.deep_view() }
    }
}

impl Clone for EmailCommand {
    fn clone(&self) -> (out: Self)
        ensures
            out@ == self@,
    {
        EmailCommand { command: self.command, params: clone_texts(&self.params) }
    }
}

/// Where a submission stands in its life.
#[derive(Debug, Clone, Copy, PartialEq, Eq, Structural)]
pub enum Status {
    Pending,
    Processing,
    Completed,
    Failed,
}

impl Status {
    /// A job that is completed or has failed changes no more.
    pub open spec fn is_terminal(self) -> bool {
        self == Status::Completed || self == Status::Failed
    }

    /// Whether a job with this status changes no more.
    pub fn terminal(&self) -> (t: bool)
        ensures
            t == self.is_terminal(),
    {
        match self {
            Status::Completed => true,
            Status::Failed => true,
            _ => false,
        }
    }
}

/// The record of one submission.
#[derive(Debug, PartialEq, Eq)]
pub struct ProcessingStatus {
    pub id: u128,
    pub status: Status,
    pub created_at: Timestamp,
    pub updated_at: Timestamp,
    pub email_hash: Option<String>,
    pub error: Option<String>,
}

/// The view of `ProcessingStatus`: every text as the sequence of its characters.
pub struct ProcessingStatusView {
    pub id: u128,
    pub status: Status,
    pub created_at: Timestamp,
    pub updated_at: Timestamp,
    pub email_hash: Option<Seq<char>>,
    pub error: Option<Seq<char>>,
}

impl View for ProcessingStatus {
    type V = ProcessingStatusView;

    open spec fn view(&self) -> ProcessingStatusView {
        ProcessingStatusView {
            id: self.id,
            status: self.status,
            created_at: self.created_at,
            updated_at: self.updated_at,
            email_hash: self.email_hash.deep_view(),
            error: self.error.deep_view(),
        }
    }
}

impl Clone for ProcessingStatus {
    fn clone(&self) -> (out: Self)
        ensures
            out@ == self@,
    {
        ProcessingStatus {
            id: self.id,
            status: self.status,
            created_at: self.created_at,
            updated_at: self.updated_at,
            email_hash: clone_optional_text(&self.email_hash),
            error: clone_optional_text(&self.error),
        }
    }
}

/// A stand-in for a proof: eight words and three rendered signals, with no
/// cryptographic meaning.
#[derive(Debug, PartialEq, Eq)]
pub struct MockProof {
    pub proof_data: [u64; 8],
    pub public_signals: Vec<String>,
}

/// The view of `MockProof`: every text as the sequence of its characters.
pub struct MockProofView {
    pub proof_data: Seq<u64>,
    pub public_signals: Seq<Seq<char>>,
}

impl View for MockProof {
    type V = MockProofView;

    open spec fn view(&self) -> MockProofView {
        MockProofView {
            proof_data: self.proof_data@,
            public_signals: self.public_signals.deep_view(),
        }
    }
}

impl Clone for MockProof {
    fn clone(&self) -> (out: Self)
        ensures
            out@ == self@,
    {
        MockProof {
            proof_data: self.proof_data,
            public_signals: clone_texts(&self.public_signals),
        }
    }
}

/// A reservation read from a confirmation.
#[derive(Debug, PartialEq, Eq)]
pub struct ReservationData {
    pub platform: String,
    pub reservation_id: String,
    pub restaurant_name: String,
    pub reservation_time: u64,
    pub party_size: u8,
}

/// The view of `ReservationData`: every text as the sequence of its characters.
pub struct ReservationDataView {
    pub platform: Seq<char>,
    pub reservation_id: Seq<char>,
    pub restaurant_name: Seq<char>,
    pub reservation_time: u64,
    pub party_size: u8,
}

impl View for ReservationData {
    type V = ReservationDataView;

    open spec fn view(&self) -> ReservationDataView {
        ReservationDataView {
            platform: self.platform@,
            reservation_id: self.reservation_id@,
            restaurant_name: self.restaurant_name@,
            reservation_time: self.reservation_time,
            party_size: self.party_size,
        }
    }
}

impl Clone for ReservationData {
    fn clone(&self) -> (out: Self)
        ensures
            out@ == self@,
    {
        ReservationData {
            platform: self.platform.clone(),
            reservation_id: self.reservation_id.clone(),
            restaurant_name: self.restaurant_name.clone(),
            reservation_time: self.reservation_time,
            party_size: self.party_size,
        }
    }
}

/// The cancellation of a reservation.
#[derive(Debug, PartialEq, Eq)]
pub struct CancellationData {
    pub original_reservation_id: String,
    pub cancellation_time: u64,
    pub restaurant_name: String,
}

/// The view of `CancellationData`: every text as the sequence of its characters.
pub struct CancellationDataView {
    pub original_reservation_id: Seq<char>,
    pub cancellation_time: u64,
    pub restaurant_name: Seq<char>,
}

impl View for CancellationData {
    type V = CancellationDataView;

    open spec fn view(&self) -> CancellationDataView {
        CancellationDataView {
            original_reservation_id: self.original_reservation_id@,
            cancellation_time: self.cancellation_time,
            restaurant_name: self.restaurant_name@,
        }
    }
}

impl Clone for CancellationData {
    fn clone(&self) -> (out: Self)
        ensures
            out@ == self@,
    {
        CancellationData {
            original_reservation_id: self.original_reservation_id.clone(),
            cancellation_time: self.cancellation_time,
            restaurant_name: self.restaurant_name.clone(),
        }
    }
}

/// A reservation taken over by a new holder.
#[derive(Debug, PartialEq, Eq)]
pub struct BookingData {
    pub new_reservation_id: String,
    pub booking_time: u64,
    pub restaurant_name: String,
}

/// The view of `BookingData`: every text as the sequence of its characters.
pub struct BookingDataView {
    pub new_reservation_id: Seq<char>,
    pub booking_time: u64,
    pub restaurant_name: Seq<char>,
}

impl View for BookingData {
    type V = BookingDataView;

    open spec fn view(&self) -> BookingDataView {
        BookingDataView {
            new_reservation_id: self.new_reservation_id@,
            booking_time: self.booking_time,
            restaurant_name: self.restaurant_name@,
        }
    }
}

impl Clone for BookingData {
    fn clone(&self) -> (out: Self)
        ensures
            out@ == self@,
    {
        BookingData {
            new_reservation_id: self.new_reservation_id.clone(),
            booking_time: self.booking_time,
            restaurant_name: self.restaurant_name.clone(),
        }
    }
}

/// What was read out of an email, by kind.
#[derive(Debug, PartialEq, Eq)]
pub enum ExtractedData {
    Reservation(ReservationData),
    Cancellation(CancellationData),
    Booking(BookingData),
}

/// The view of `ExtractedData`: every text as the sequence of its characters.
pub enum ExtractedDataView {
    Reservation(ReservationDataView),
    Cancellation(CancellationDataView),
    Booking(BookingDataView),
}

impl View for ExtractedData {
    type V = ExtractedDataView;

    open spec fn view(&self) -> ExtractedDataView {
        match self {
            ExtractedData::Reservation(data) => ExtractedDataView::Reservation(data@),
            ExtractedData::Cancellation(data) => ExtractedDataView::Cancellation(data@),
            ExtractedData::Booking(data) => ExtractedDataView::Booking(data@),
        }
    }
}

impl Clone for ExtractedData {
    fn clone(&self) -> (out: Self)
        ensures
            out@ == self@,
    {
        match self {
            ExtractedData::Reservation(data) => ExtractedData::Reservation(data.clone()),
            ExtractedData::Cancellation(data) => ExtractedData::Cancellation(data.clone()),
            ExtractedData::Booking(data) => ExtractedData::Booking(data.clone()),
        }
    }
}

/// A proof together with what it is a proof of, as the proof store keeps it.
#[derive(Debug, PartialEq, Eq)]
pub struct EmailProof {
    pub email_hash: String,
    pub proof: MockProof,
    pub extracted_data: ExtractedData,
    pub created_at: Timestamp,
}

/// The view of `EmailProof`: every text as the sequence of its characters.
pub struct EmailProofView {
    pub email_hash: Seq<char>,
    pub proof: MockProofView,
    pub extracted_data: ExtractedDataView,
    pub created_at: Timestamp,
}

impl View for EmailProof {
    type V = EmailProofView;

    open spec fn view(&self) -> EmailProofView {
        EmailProofView {
            email_hash: self.email_hash@,
            proof: self.proof@,
            extracted_data: self.extracted_data@,
            created_at: self.created_at,
        }
    }
}

impl Clone for EmailProof {
    fn clone(&self) -> (out: Self)
        ensures
            out@ == self@,
    {
        EmailProof {
            email_hash: self.email_hash.clone(),
            proof: self.proof.clone(),
            extracted_data: self.extracted_data.clone(),
            created_at: self.created_at,
        }
    }
}

/// The body of the reply to an accepted submission.
#[derive(Debug, PartialEq, Eq)]
pub struct SubmitEmailResponse {
    pub id: u128,
    pub status: Status,
    pub message: String,
}

/// The view of `SubmitEmailResponse`: every text as the sequence of its characters.
pub struct SubmitEmailResponseView {
    pub id: u128,
    pub status: Status,
    pub message: Seq<char>,
}

impl View for SubmitEmailResponse {
    type V = SubmitEmailResponseView;

    open spec fn view(&self) -> SubmitEmailResponseView {
        SubmitEmailResponseView { id: self.id, status: self.status, message: self.message@ }
    }
}

/// The body of the reply that hands out a proof.
#[derive(Debug, PartialEq, Eq)]
pub struct ProofResponse {
    pub email_hash: String,
    pub proof: MockProof,
    pub extracted_data: ExtractedData,
    pub ready_for_submission: bool,
}

/// The view of `ProofResponse`: every text as the sequence of its characters.
pub struct ProofResponseView {
    pub email_hash: Seq<char>,
    pub proof: MockProofView,
    pub extracted_data: ExtractedDataView,
    pub ready_for_submission: bool,
}

impl View for ProofResponse {
    type V = ProofResponseView;

    open spec fn view(&self) -> ProofResponseView {
        ProofResponseView {
            email_hash: self.email_hash@,
            proof: self.proof@,
            extracted_data: self.extracted_data@,
            ready_for_submission: self.ready_for_submission,
        }
    }
}

/// The body of every reply that reports an error.
#[derive(Debug, PartialEq, Eq)]
pub struct ErrorResponse {
    pub error: String,
    pub details: Option<String>,
}

/// The view of `ErrorResponse`: every text as the sequence of its characters.
pub struct ErrorResponseView {
    pub error: Seq<char>,
    pub details: Option<Seq<char>>,
}

impl View for ErrorResponse {
    type V = ErrorResponseView;

    open spec fn view(&self) -> ErrorResponseView {
        ErrorResponseView { error: self.error@, details: self.details.deep_view() }
    }
}

/// Why a job was given up.
#[derive(Debug, PartialEq, Eq)]
pub struct ProcessingFailure {
    pub message: String,
}

impl View for ProcessingFailure {
    type V = Seq<char>;

    open spec fn view(&self) -> Seq<char> {
        self.message@
    }
}

/// The kind of proof that a test asks for.
#[derive(Debug, Clone, Copy, PartialEq, Eq, Structural)]
pub enum ReservationType {
    Confirmation,
    Cancellation,
    NewBooking,
}

/// A request for a proof made up directly, without an email.
#[derive(Debug, PartialEq, Eq)]
pub struct GenerateTestProofRequest {
    pub platform: String,
    pub restaurant_name: String,
    pub party_size: Option<u8>,
    pub reservation_type: ReservationType,
}

/// The view of `GenerateTestProofRequest`: every text as the sequence of its characters.
pub struct GenerateTestProofRequestView {
    pub platform: Seq<char>,
    pub restaurant_name: Seq<char>,
    pub party_size: Option<u8>,
    pub reservation_type: ReservationType,
}

impl View for GenerateTestProofRequest {
    type V = GenerateTestProofRequestView;

    open spec fn view(&self) -> GenerateTestProofRequestView {
        GenerateTestProofRequestView {
            platform: self.platform@,
            restaurant_name: self.restaurant_name@,
            party_size: self.party_size,
            reservation_type: self.reservation_type,
        }
    }
}

/// A copy of a list of texts.
pub fn clone_texts(texts: &Vec<String>) -> (out: Vec<String>)
    ensures
        out.deep_view() == texts.deep_view(),
{
    let mut out: Vec<String> = Vec::new();
    let mut i: usize = 0;
    while i < texts.len()
        invariant
            i <= texts.len(),
            out.len() == i,
            forall|j: int| 0 <= j < i ==> out[j]@ == texts[j]@,
        decreases texts.len() - i,
    {
        out.push(texts[i].clone());
        i += 1;
    }
    assert(out.deep_view() =~= texts.deep_view());
    out
}

/// A copy of a text that may be absent.
pub fn clone_optional_text(text: &Option<String>) -> (out: Option<String>)
    ensures
        out.deep_view() == text.deep_view(),
{
    match text {
        Some(t) => Some(t.clone()),
        None => None,
    }
}

} // verus!
