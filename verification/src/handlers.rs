//! The operations of the relayer: taking in a submission, working it off,
//! and handing out records and proofs.
//!
//! Each operation that needs an id, the time or a mock proof comes twice:
//! under the plain name it draws them itself, and with `_with` at the end it
//! takes them from the caller and says exactly what it does with them.

use crate::clock::{utc_now, SEVEN_DAYS};
use crate::commands::{parse_command, parse_email_command};
use crate::encoding::hyphenated;
use crate::extraction::{
    build_extracted_data, build_test_data, email_data_of, extract_platform, kind_matches,
    restaurant_name_or_placeholder, test_data_of,
};
use crate::hashing::{compute_email_hash, content_hash, email_hash, hash_content};
use crate::ids::{id_text, is_random_uuid, new_random_uuid, synthesize_id};
use crate::mock_proofs::{generate_mock_proof, is_mock_proof};
use crate::models::{
    clone_optional_text, EmailCommand, EmailCommandView, EmailProof, EmailProofView,
    EmailSubmission, EmailSubmissionView, ErrorResponse, ErrorResponseView,
    GenerateTestProofRequest, GenerateTestProofRequestView, MockProof, MockProofView,
    ProcessingFailure, ProcessingStatus, ProofResponse, ProofResponseView, Status,
    SubmitEmailResponse, SubmitEmailResponseView, Timestamp,
};
use crate::state::{
    lemma_proofs_view_insert, lemma_statuses_view_insert, step, AppState, AppStateView, Event,
};
use vstd::prelude::*;
use vstd::string::*;

verus! {

/// The status code of a reply that hands out what was asked for.
pub const OK: u16 = 200;

/// The status code of the reply to a request that made a proof.
pub const CREATED: u16 = 201;

/// The status code of the reply to a submission that was taken in.
pub const ACCEPTED: u16 = 202;

/// The status code of the reply to a submission without a command.
pub const BAD_REQUEST: u16 = 400;

/// The status code of the reply to a look-up that found nothing.
pub const NOT_FOUND: u16 = 404;

/// A submission that was taken in and waits to be worked off.
#[derive(Debug)]
pub struct ProcessingJob {
    pub id: u128,
    pub submission: EmailSubmission,
    pub command: EmailCommand,
}

/// The view of `ProcessingJob`: every text as the sequence of its characters.
pub struct ProcessingJobView {
    pub id: u128,
    pub submission: EmailSubmissionView,
    pub command: EmailCommandView,
}

impl View for ProcessingJob {
    type V = ProcessingJobView;

    open spec fn view(&self) -> ProcessingJobView {
        ProcessingJobView { id: self.id, submission: self.submission@, command: self.command@ }
    }
}

/// What became of a submission: it was taken in, and then the job is still
/// to be worked off, or it was turned down.
#[derive(Debug)]
pub enum SubmitOutcome {
    Accepted { response: SubmitEmailResponse, job: ProcessingJob },
    Rejected { error: ErrorResponse },
}

/// The view of `SubmitOutcome`: every text as the sequence of its characters.
pub enum SubmitOutcomeView {
    Accepted { response: SubmitEmailResponseView, job: ProcessingJobView },
    Rejected { error: ErrorResponseView },
}

impl View for SubmitOutcome {
    type V = SubmitOutcomeView;

    open spec fn view(&self) -> SubmitOutcomeView {
        match self {
            SubmitOutcome::Accepted { response, job } => SubmitOutcomeView::Accepted {
                response: response@,
                job: job@,
            },
            SubmitOutcome::Rejected { error } => SubmitOutcomeView::Rejected { error: error@ },
        }
    }
}

/// All stored proofs with their number.
#[derive(Debug, PartialEq, Eq)]
pub struct ProofListing {
    pub count: usize,
    pub proofs: Vec<EmailProof>,
}

/// The error for a subject line without a command.
pub open spec fn invalid_command_error() -> ErrorResponseView {
    ErrorResponseView {
        error: "Invalid command in subject"@,
        details: Some("Subject must start with LIST, CANCEL, or CLAIM"@),
    }
}

/// The error for an id without a record.
pub open spec fn status_not_found_error() -> ErrorResponseView {
    ErrorResponseView { error: "Status not found"@, details: None }
}

/// The error for a hash without a proof.
pub open spec fn proof_not_found_error() -> ErrorResponseView {
    ErrorResponseView { error: "Proof not found"@, details: None }
}

/// The body of the reply to a submission that was taken in under `id`.
pub open spec fn accepted_response(id: u128) -> SubmitEmailResponseView {
    SubmitEmailResponseView {
        id,
        status: Status::Processing,
        message: "Email submitted for processing"@,
    }
}

/// The proof of an email: under the hash of its sender, subject and body, the
/// mock proof together with the data of the command, made at `now`.
pub open spec fn email_proof_of(
    submission: EmailSubmissionView,
    command: EmailCommandView,
    nonce: u128,
    now: Timestamp,
    mock: MockProofView,
) -> EmailProofView {
    EmailProofView {
        email_hash: email_hash(submission.from, submission.subject, submission.body),
        proof: mock,
        extracted_data: email_data_of(command, submission.from, submission.body, nonce, now.secs),
        created_at: now,
    }
}

/// The proof that a test asks for: under the hash of platform, restaurant
/// name and `-test`, the mock proof together with the data of the request,
/// made at `now`.
pub open spec fn test_proof_of(
    request: GenerateTestProofRequestView,
    nonce: u128,
    now: Timestamp,
    mock: MockProofView,
) -> EmailProofView {
    EmailProofView {
        email_hash: content_hash(request.platform + request.restaurant_name + "-test"@),
        proof: mock,
        extracted_data: test_data_of(request, nonce, now.secs),
        created_at: now,
    }
}

/// The body of the reply that hands out a stored proof.
pub open spec fn proof_response_of(proof: EmailProofView) -> ProofResponseView {
    ProofResponseView {
        email_hash: proof.email_hash,
        proof: proof.proof,
        extracted_data: proof.extracted_data,
        ready_for_submission: true,
    }
}

/// What taking in a submission under `id` at `now` comes to. Where the
/// subject has a command, the reply is `ACCEPTED` with the id and the job,
/// and the state holds a fresh record for the id. Where it has none, the
/// reply is `BAD_REQUEST` and the state is as it was.
pub open spec fn submitted(
    before: AppStateView,
    submission: EmailSubmissionView,
    id: u128,
    now: Timestamp,
    code: u16,
    outcome: SubmitOutcomeView,
    after: AppStateView,
) -> bool {
    match parse_command(submission.subject) {
        Some(command) => {
            &&& code == ACCEPTED
            &&& outcome == SubmitOutcomeView::Accepted {
                response: accepted_response(id),
                job: ProcessingJobView { id, submission, command },
            }
            &&& after == step(before, Event::Accepted { id, now })
        },
        None => {
            &&& code == BAD_REQUEST
            &&& outcome == SubmitOutcomeView::Rejected { error: invalid_command_error() }
            &&& after == before
        },
    }
}

/// What working off the job `id` comes to, with an id made up from `nonce`,
/// at `now`, with the mock proof `mock`: the job completes with the proof of
/// the email, and the result is the hash under which that proof is stored.
pub open spec fn processed(
    before: AppStateView,
    id: u128,
    submission: EmailSubmissionView,
    command: EmailCommandView,
    nonce: u128,
    now: Timestamp,
    mock: MockProofView,
    result: Result<String, ProcessingFailure>,
    after: AppStateView,
) -> bool {
    let proof = email_proof_of(submission, command, nonce, now, mock);
    &&& result matches Ok(hash) && hash@ == proof.email_hash
    &&& after == step(before, Event::Completed { id, now, proof })
}

/// What making a proof for a test comes to: the reply is `CREATED` with the
/// proof, and the proof is in the store.
pub open spec fn test_proof_generated(
    before: AppStateView,
    request: GenerateTestProofRequestView,
    nonce: u128,
    now: Timestamp,
    mock: MockProofView,
    code: u16,
    response: ProofResponseView,
    after: AppStateView,
) -> bool {
    let proof = test_proof_of(request, nonce, now, mock);
    &&& code == CREATED
    &&& response == proof_response_of(proof)
    &&& after == step(before, Event::Seeded { proof })
}

/// The hash of an email goes by its content alone: two emails with the same
/// sender, subject and body get the same hash, whatever else differs, and
/// whenever and with whatever command they are worked off.
pub proof fn lemma_same_content_same_hash(
    first: EmailSubmissionView,
    second: EmailSubmissionView,
    first_command: EmailCommandView,
    second_command: EmailCommandView,
    first_nonce: u128,
    second_nonce: u128,
    first_now: Timestamp,
    second_now: Timestamp,
    first_mock: MockProofView,
    second_mock: MockProofView,
)
    requires
        first.from == second.from,
        first.subject == second.subject,
        first.body == second.body,
    ensures
        email_proof_of(first, first_command, first_nonce, first_now, first_mock).email_hash
            == email_proof_of(
            second,
            second_command,
            second_nonce,
            second_now,
            second_mock,
        ).email_hash,
{
}

/// Once an email is worked off, the proof store holds a proof under its hash,
/// and the data of that proof are of the kind that goes with the command: a
/// reservation for `List`, a cancellation for `Cancel`, a booking for `Claim`.
pub proof fn lemma_processed_proof_kind(
    before: AppStateView,
    id: u128,
    submission: EmailSubmissionView,
    command: EmailCommandView,
    nonce: u128,
    now: Timestamp,
    mock: MockProofView,
    result: Result<String, ProcessingFailure>,
    after: AppStateView,
)
    requires
        processed(before, id, submission, command, nonce, now, mock, result, after),
    ensures
        result matches Ok(hash) && after.proofs.contains_key(hash@) && kind_matches(
            command.command,
            after.proofs[hash@].extracted_data,
        ),
{
}

/// Takes in a submission under the given id at the given time.
pub fn submit_email_with(
    state: &mut AppState,
    submission: EmailSubmission,
    id: u128,
    now: Timestamp,
) -> (reply: (u16, SubmitOutcome))
    ensures
        submitted(old(state)@, submission@, id, now, reply.0, reply.1@, final(state)@),
        reply.1 is Accepted ==> final(state)@.statuses.contains_key(hyphenated(id)),
{
    match parse_email_command(submission.subject.as_str()) {
        None => {
            let error = ErrorResponse {
                error: "Invalid command in subject".to_owned(),
                details: Some("Subject must start with LIST, CANCEL, or CLAIM".to_owned()),
            };
            (BAD_REQUEST, SubmitOutcome::Rejected { error })
        },
        Some(command) => {
            let record = ProcessingStatus {
                id,
                status: Status::Processing,
                created_at: now,
                updated_at: now,
                email_hash: None,
                error: None,
            };
            let key = id_text(id);
            proof {
                lemma_statuses_view_insert(state.processing_status@, key@, record);
            }
            state.processing_status.insert(key, record);
            let response = SubmitEmailResponse {
                id,
                status: Status::Processing,
                message: "Email submitted for processing".to_owned(),
            };
            let job = ProcessingJob { id, submission, command };
            (ACCEPTED, SubmitOutcome::Accepted { response, job })
        },
    }
}

/// Takes in a submission: draws a random id, reads the clock, and goes on as
/// `submit_email_with`. The job of an accepted submission is handed back; it
/// is for the caller to work it off later with `process_email_command`.
pub fn submit_email(state: &mut AppState, submission: EmailSubmission) -> (reply: (
    u16,
    SubmitOutcome,
))
    ensures
        exists|id: u128, now: Timestamp|
            is_random_uuid(id) && #[trigger] submitted(
                old(state)@,
                submission@,
                id,
                now,
                reply.0,
                reply.1@,
                final(state)@,
            ),
{
    let id = new_random_uuid();
    let now = utc_now();
    submit_email_with(state, submission, id, now)
}

/// Makes the proof of an email: hashes its content, reads platform and
/// restaurant, and puts the data of the command beside the mock proof. No
/// email is refused: the result is a proof for every input.
pub fn build_email_proof(
    submission: &EmailSubmission,
    command: &EmailCommand,
    nonce: u128,
    now: Timestamp,
    mock: MockProof,
) -> (outcome: Result<EmailProof, ProcessingFailure>)
    requires
        now.secs + SEVEN_DAYS <= u64::MAX,
    ensures
        outcome matches Ok(proof) && proof@ == email_proof_of(
            submission@,
            command@,
            nonce,
            now,
            mock@,
        ),
{
    let email_hash = compute_email_hash(
        submission.from.as_str(),
        submission.subject.as_str(),
        submission.body.as_str(),
    );
    let platform = match extract_platform(submission.from.as_str()) {
        Ok(platform) => platform,
        Err(failure) => {
            return Err(failure);
        },
    };
    let restaurant = restaurant_name_or_placeholder(submission.body.as_str());
    let made_up_id = synthesize_id("RES-", nonce);
    let extracted_data = build_extracted_data(command, platform, restaurant, made_up_id, now.secs);
    Ok(EmailProof { email_hash, proof: mock, extracted_data, created_at: now })
}

/// Ends the job `id` at `now`. With a proof, the proof goes into the proof
/// store under its hash and the job completes; the result is that hash. With
/// a failure, no proof is stored and the job fails with the failure's
/// message; the result is the failure. Either way the record changes only
/// if it is there and still open.
pub fn record_outcome(
    state: &mut AppState,
    id: u128,
    now: Timestamp,
    outcome: Result<EmailProof, ProcessingFailure>,
) -> (result: Result<String, ProcessingFailure>)
    ensures
        match outcome {
            Ok(proof) => {
                &&& result matches Ok(hash) && hash@ == proof@.email_hash
                &&& final(state)@ == step(old(state)@, Event::Completed { id, now, proof: proof@ })
            },
            Err(failure) => {
                &&& result matches Err(reported) && reported@ == failure@
                &&& final(state)@ == step(
                    old(state)@,
                    Event::Failed { id, now, message: failure@ },
                )
            },
        },
{
    let key = id_text(id);
    match outcome {
        Ok(proof) => {
            let hash = proof.email_hash.clone();
            proof {
                lemma_proofs_view_insert(state.proofs@, hash@, proof);
            }
            state.proofs.insert(hash.clone(), proof);
            let settled = match state.processing_status.get(key.as_str()) {
                Some(record) => {
                    if record.status.terminal() {
                        None
                    } else {
                        Some(
                            ProcessingStatus {
                                id: record.id,
                                status: Status::Completed,
                                created_at: record.created_at,
                                updated_at: now,
                                email_hash: Some(hash.clone()),
                                error: clone_optional_text(&record.error),
                            },
                        )
                    }
                },
                None => None,
            };
            match settled {
                Some(record) => {
                    proof {
                        lemma_statuses_view_insert(state.processing_status@, key@, record);
                    }
                    state.processing_status.insert(key, record);
                },
                None => {},
            }
            Ok(hash)
        },
        Err(failure) => {
            let settled = match state.processing_status.get(key.as_str()) {
                Some(record) => {
                    if record.status.terminal() {
                        None
                    } else {
                        Some(
                            ProcessingStatus {
                                id: record.id,
                                status: Status::Failed,
                                created_at: record.created_at,
                                updated_at: now,
                                email_hash: clone_optional_text(&record.email_hash),
                                error: Some(failure.message.clone()),
                            },
                        )
                    }
                },
                None => None,
            };
            match settled {
                Some(record) => {
                    proof {
                        lemma_statuses_view_insert(state.processing_status@, key@, record);
                    }
                    state.processing_status.insert(key, record);
                },
                None => {},
            }
            Err(failure)
        },
    }
}

/// Works off the job `id` with the given nonce, time and mock proof.
pub fn process_email_command_with(
    state: &mut AppState,
    id: u128,
    submission: &EmailSubmission,
    command: &EmailCommand,
    nonce: u128,
    now: Timestamp,
    mock: MockProof,
) -> (result: Result<String, ProcessingFailure>)
    requires
        now.secs + SEVEN_DAYS <= u64::MAX,
    ensures
        processed(
            old(state)@,
            id,
            submission@,
            command@,
            nonce,
            now,
            mock@,
            result,
            final(state)@,
        ),
{
    let outcome = build_email_proof(submission, command, nonce, now, mock);
    record_outcome(state, id, now, outcome)
}

/// Works off the job `id`: draws a nonce and a mock proof, reads the clock,
/// and goes on as `process_email_command_with`.
pub fn process_email_command(
    state: &mut AppState,
    id: u128,
    submission: &EmailSubmission,
    command: &EmailCommand,
) -> (result: Result<String, ProcessingFailure>)
    ensures
        exists|nonce: u128, now: Timestamp, mock: MockProofView|
            is_mock_proof(mock) && #[trigger] processed(
                old(state)@,
                id,
                submission@,
                command@,
                nonce,
                now,
                mock,
                result,
                final(state)@,
            ),
{
    let nonce = new_random_uuid();
    let now = utc_now();
    let mock = generate_mock_proof();
    process_email_command_with(state, id, submission, command, nonce, now, mock)
}

/// Looks up the record of a submission by the text of its id.
pub fn get_email_status(state: &AppState, id: &str) -> (reply: (
    u16,
    Result<ProcessingStatus, ErrorResponse>,
))
    ensures
        match reply.1 {
            Ok(record) => {
                &&& reply.0 == OK
                &&& state@.statuses.contains_key(id@)
                &&& record@ == state@.statuses[id@]
            },
            Err(error) => {
                &&& reply.0 == NOT_FOUND
                &&& !state@.statuses.contains_key(id@)
                &&& error@ == status_not_found_error()
            },
        },
{
    match state.processing_status.get(id) {
        Some(record) => (OK, Ok(record.clone())),
        None => (
            NOT_FOUND,
            Err(ErrorResponse { error: "Status not found".to_owned(), details: None }),
        ),
    }
}

/// Looks up a proof by its content hash.
pub fn get_proof(state: &AppState, email_hash: &str) -> (reply: (
    u16,
    Result<ProofResponse, ErrorResponse>,
))
    ensures
        match reply.1 {
            Ok(response) => {
                &&& reply.0 == OK
                &&& state@.proofs.contains_key(email_hash@)
                &&& response@ == proof_response_of(state@.proofs[email_hash@])
            },
            Err(error) => {
                &&& reply.0 == NOT_FOUND
                &&& !state@.proofs.contains_key(email_hash@)
                &&& error@ == proof_not_found_error()
            },
        },
{
    match state.proofs.get(email_hash) {
        Some(proof) => {
            let response = ProofResponse {
                email_hash: proof.email_hash.clone(),
                proof: proof.proof.clone(),
                extracted_data: proof.extracted_data.clone(),
                ready_for_submission: true,
            };
            (OK, Ok(response))
        },
        None => (
            NOT_FOUND,
            Err(ErrorResponse { error: "Proof not found".to_owned(), details: None }),
        ),
    }
}

/// Makes a proof from a request as it stands, with the given nonce, time and
/// mock proof, and stores it.
pub fn generate_test_proof_with(
    state: &mut AppState,
    request: &GenerateTestProofRequest,
    nonce: u128,
    now: Timestamp,
    mock: MockProof,
) -> (reply: (u16, ProofResponse))
    requires
        now.secs + SEVEN_DAYS <= u64::MAX,
    ensures
        test_proof_generated(
            old(state)@,
            request@,
            nonce,
            now,
            mock@,
            reply.0,
            reply.1@,
            final(state)@,
        ),
{
    let content = String::from_str(request.platform.as_str()).concat(
        request.restaurant_name.as_str(),
    ).concat("-test");
    let email_hash = hash_content(content.as_str());
    let extracted_data = build_test_data(request, nonce, now.secs);
    let response = ProofResponse {
        email_hash: email_hash.clone(),
        proof: mock.clone(),
        extracted_data: extracted_data.clone(),
        ready_for_submission: true,
    };
    let proof = EmailProof {
        email_hash: email_hash.clone(),
        proof: mock,
        extracted_data,
        created_at: now,
    };
    proof {
        lemma_proofs_view_insert(state.proofs@, email_hash@, proof);
    }
    state.proofs.insert(email_hash, proof);
    (CREATED, response)
}

/// Makes a proof from a request as it stands and stores it: draws a nonce
/// and a mock proof, reads the clock, and goes on as
/// `generate_test_proof_with`.
pub fn generate_test_proof(state: &mut AppState, request: &GenerateTestProofRequest) -> (reply: (
    u16,
    ProofResponse,
))
    ensures
        exists|nonce: u128, now: Timestamp, mock: MockProofView|
            is_mock_proof(mock) && #[trigger] test_proof_generated(
                old(state)@,
                request@,
                nonce,
                now,
                mock,
                reply.0,
                reply.1@,
                final(state)@,
            ),
{
    let nonce = new_random_uuid();
    let now = utc_now();
    let mock = generate_mock_proof();
    generate_test_proof_with(state, request, nonce, now, mock)
}

/// Lists every stored proof, each once, in the order in which their hashes
/// first came in.
pub fn list_all_proofs(state: &AppState) -> (listing: ProofListing)
    ensures
        listing.count == listing.proofs.len(),
        state@.proofs.dom().finite(),
        listing.count == state@.proofs.dom().len(),
        state.proofs.order().no_duplicates(),
        state.proofs.order().to_set() == state@.proofs.dom(),
        listing.proofs.len() == state.proofs.order().len(),
        forall|i: int|
            0 <= i < listing.proofs.len() ==> state@.proofs.contains_key(
                #[trigger] state.proofs.order()[i],
            ) && listing.proofs[i]@ == state@.proofs[state.proofs.order()[i]],
{
    let count = state.proofs.len();
    let stored = state.proofs.values();
    assert(state@.proofs.dom() =~= state.proofs@.dom());
    let mut proofs: Vec<EmailProof> = Vec::new();
    let mut i: usize = 0;
    while i < stored.len()
        invariant
            i <= stored.len(),
            proofs.len() == i,
            stored.len() == state.proofs.order().len(),
            forall|j: int|
                0 <= j < stored.len() ==> state.proofs@.contains_key(
                    #[trigger] state.proofs.order()[j],
                ) && *stored[j] == state.proofs@[state.proofs.order()[j]],
            forall|j: int|
                0 <= j < i ==> proofs[j]@ == state@.proofs[#[trigger] state.proofs.order()[j]],
        decreases stored.len() - i,
    {
        proofs.push(stored[i].clone());
        i += 1;
    }
    ProofListing { count, proofs }
}

} // verus!
