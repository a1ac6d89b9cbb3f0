//! The functions of the secure element interface: transactions, exports and
//! the figures of a unit.
//!
//! Each function that reaches a unit is made of three steps: the arguments
//! of the caller become a request; the request is sent; the answer becomes a
//! return code and, on success, the outputs of the function. The first and
//! the last step are here.

use vstd::prelude::*;
use vstd::std_specs::convert::FromSpec;
use vstd::utf8::encode_utf8;
use crate::atrustapi::return_codes::ReturnCode;
use crate::client::Error;
use crate::helpers::ffi::denoted;
use crate::helpers::ffi::from_cba;
use crate::helpers::ffi::from_cstr;
use crate::helpers::ffi::lossy_text;
use crate::helpers::ffi::reported_length;
use crate::helpers::ffi::set_byte_buf;
use crate::helpers::ffi::set_cstr;
use crate::helpers::ffi::set_i64_ptr;
use crate::helpers::ffi::set_u32_ptr;
use crate::idesscd::Base64;
use crate::idesscd::EndExportSessionRequest;
use crate::idesscd::EndExportSessionResponse;
use crate::idesscd::ExportDataRequest;
use crate::idesscd::ExportDataResponse;
use crate::idesscd::FinishTransactionRequest;
use crate::idesscd::FinishTransactionResponse;
use crate::idesscd::StartExportSessionRequest;
use crate::idesscd::StartExportSessionResponse;
use crate::idesscd::StartTransactionRequest;
use crate::idesscd::StartTransactionResponse;
use crate::idesscd::TseInfo;
use crate::idesscd::TseSignatureData;
use crate::idesscd::TseState;
use crate::idesscd::TseStates;
use crate::idesscd::UpdateTransactionRequest;
use crate::idesscd::UpdateTransactionResponse;
use crate::idesscd::base64_decoded;
use crate::idesscd::base64_encoded;

verus! {

/// The largest number of bytes that one chunk of an export is asked to hold.
pub const MAX_CHUNK_SIZE: i32 = 1000;

/// The kinds of unit that the caller can name.
#[derive(Debug, Clone, Copy, PartialEq, Eq, Structural)]
pub enum TssType {
    AsignTseOnline,
    CryptoVision,
}

/// The ways in which a unit can record the update of a transaction.
#[derive(Debug, Clone, Copy, PartialEq, Eq, Structural)]
pub enum UpdateVariants {
    Signed,
    Unsigned,
    SignedAndUnsigned,
}

/// What came of a user's attempt to authenticate.
#[derive(Debug, Clone, Copy, PartialEq, Eq, Structural)]
pub enum AuthenticationResult {
    Okay,
    Failed,
    PinIsBlocked,
    UnknownUserId,
}

/// What came of an attempt to unblock a user.
#[derive(Debug, Clone, Copy, PartialEq, Eq, Structural)]
pub enum UnblockResult {
    Okay,
    Failed,
    UnknownUserId,
    Error,
}

impl TssType {
    /// The number under which the caller knows this kind.
    pub open spec fn number(self) -> u32 {
        match self {
            TssType::AsignTseOnline => 0,
            TssType::CryptoVision => 1,
        }
    }

    /// The number under which the caller knows this kind.
    pub fn value(self) -> (number: u32)
        ensures
            number == self.number(),
    {
        match self {
            TssType::AsignTseOnline => 0,
            TssType::CryptoVision => 1,
        }
    }
}

impl From<UpdateVariants> for u32 {
    fn from(variants: UpdateVariants) -> (number: u32) {
        match variants {
            UpdateVariants::Signed => 0,
            UpdateVariants::Unsigned => 1,
            UpdateVariants::SignedAndUnsigned => 2,
        }
    }
}

impl vstd::std_specs::convert::FromSpecImpl<UpdateVariants> for u32 {
    open spec fn obeys_from_spec() -> bool {
        true
    }

    open spec fn from_spec(variants: UpdateVariants) -> u32 {
        match variants {
            UpdateVariants::Signed => 0,
            UpdateVariants::Unsigned => 1,
            UpdateVariants::SignedAndUnsigned => 2,
        }
    }
}

impl From<AuthenticationResult> for i32 {
    fn from(result: AuthenticationResult) -> (number: i32) {
        match result {
            AuthenticationResult::Okay => 0,
            AuthenticationResult::Failed => 1,
            AuthenticationResult::PinIsBlocked => 2,
            AuthenticationResult::UnknownUserId => 3,
        }
    }
}

impl vstd::std_specs::convert::FromSpecImpl<AuthenticationResult> for i32 {
    open spec fn obeys_from_spec() -> bool {
        true
    }

    open spec fn from_spec(result: AuthenticationResult) -> i32 {
        match result {
            AuthenticationResult::Okay => 0,
            AuthenticationResult::Failed => 1,
            AuthenticationResult::PinIsBlocked => 2,
            AuthenticationResult::UnknownUserId => 3,
        }
    }
}

impl From<UnblockResult> for u32 {
    fn from(result: UnblockResult) -> (number: u32) {
        match result {
            UnblockResult::Okay => 0,
            UnblockResult::Failed => 1,
            UnblockResult::UnknownUserId => 2,
            UnblockResult::Error => 3,
        }
    }
}

impl vstd::std_specs::convert::FromSpecImpl<UnblockResult> for u32 {
    open spec fn obeys_from_spec() -> bool {
        true
    }

    open spec fn from_spec(result: UnblockResult) -> u32 {
        match result {
            UnblockResult::Okay => 0,
            UnblockResult::Failed => 1,
            UnblockResult::UnknownUserId => 2,
            UnblockResult::Error => 3,
        }
    }
}

/// The return code of a function that failed with `err`. A function whose
/// work the unit refused answers with a code of its own, `unsuccessful`; every
/// other failure has the same code in all functions.
pub open spec fn failure_code(err: Error, unsuccessful: ReturnCode) -> ReturnCode {
    match err {
        Error::Unsuccessful(_) => unsuccessful,
        _ => err.code(),
    }
}

/// A function that is asked for a unit under a name that is not configured
/// answers with the return code of an invalid configuration, whichever
/// function it is.
pub proof fn lemma_unknown_unit_is_invalid_config(tse_id: String, unsuccessful: ReturnCode)
    ensures
        failure_code(Error::NoScuUrl(tse_id), unsuccessful) == ReturnCode::InvalidConfig,
        ReturnCode::from_spec(Error::NoScuUrl(tse_id)) == ReturnCode::InvalidConfig,
{
}

/// A function whose request did not get through answers that the
/// communication failed, whichever function it is.
pub proof fn lemma_failed_request_is_communication_failure(source: String, unsuccessful: ReturnCode)
    ensures
        failure_code(Error::RequestFailed { source }, unsuccessful) == ReturnCode::SeCommunicationFailed,
{
}

/// No failure is reported as success.
pub proof fn lemma_failure_is_no_success(err: Error, unsuccessful: ReturnCode)
    requires
        !unsuccessful.is_success(),
    ensures
        !failure_code(err, unsuccessful).is_success(),
        !err.code().is_success(),
{
}

/// The return code of a function that failed with `err`.
pub fn code_of_failure(err: Error, unsuccessful: ReturnCode) -> (code: ReturnCode)
    ensures
        code == failure_code(err, unsuccessful),
{
    match err {
        Error::Unsuccessful(_) => unsuccessful,
        err => ReturnCode::from(err),
    }
}

/// The return code of a function without a code of its own that failed with
/// `err`.
pub fn code_of(err: Error) -> (code: ReturnCode)
    ensures
        code == err.code(),
{
    ReturnCode::from(err)
}

/// The name-based UUID of version 5 that the `uuid` crate derives for a name
/// in the namespace of URLs, as a 128-bit number.
pub uninterp spec fn uuid_v5_of_url(name: Seq<u8>) -> u128;

/// `uuid::Uuid::new_v5` in the namespace `Uuid::NAMESPACE_URL`, its result
/// turned into a number by `Uuid::as_u128`.
#[verifier::external_body]
fn new_v5_of_url(name: &[u8]) -> (id: u128)
    ensures
        id == uuid_v5_of_url(name@),
{
    uuid::Uuid::new_v5(&uuid::Uuid::NAMESPACE_URL, name).as_u128()
}

/// The identifier that every request of a transaction carries for its queue
/// item.
pub open spec fn queue_item() -> u128 {
    uuid_v5_of_url(encode_utf8("fiskaltrust.eu"@))
}

/// The identifier that every request of a transaction carries for its queue
/// item.
pub fn queue_item_id() -> (id: u128)
    ensures
        id == queue_item(),
{
    new_v5_of_url("fiskaltrust.eu".as_bytes())
}

/// What one step of a transaction hands back to the caller.
#[derive(Debug)]
pub struct TransactionOutput {
    pub log_time: i64,
    pub signature_counter: u32,
    pub signature_value: Vec<u8>,
}

/// What the start of a transaction hands back to the caller.
#[derive(Debug)]
pub struct StartTransactionOutput {
    pub transaction_number: u32,
    pub serial_number: String,
    pub step: TransactionOutput,
}

/// Whether `output` is what a signed step at `time_stamp` hands back: the
/// time, the counter of the signature cut to 32 bits and the bytes of the
/// signature; or, where the signature is no base64 text, the failure to
/// retrieve the log message.
pub open spec fn is_step_output(
    output: Result<TransactionOutput, ReturnCode>,
    time_stamp: i64,
    signature: TseSignatureData,
) -> bool {
    match base64_decoded(signature.signature_base64@) {
        Some(bytes) => {
            &&& output matches Ok(o)
            &&& o.log_time == time_stamp
            &&& o.signature_counter == signature.signature_counter as u32
            &&& o.signature_value@ == bytes
        },
        None => output matches Err(code) && code == ReturnCode::RetrieveLogMessageFailed,
    }
}

/// What a signed step at `time_stamp` hands back, given the counter of its
/// signature and what reading the signature as base64 came to: the time, the
/// counter cut to 32 bits and the bytes of the signature; or, where the
/// signature could not be read, the failure to retrieve the log message.
pub fn signed_step(
    time_stamp: i64,
    signature_counter: u64,
    signature_value: Result<Vec<u8>, base64::DecodeError>,
) -> (output: Result<TransactionOutput, ReturnCode>)
    ensures
        match signature_value {
            Ok(bytes) => {
                &&& output matches Ok(o)
                &&& o.log_time == time_stamp
                &&& o.signature_counter == signature_counter as u32
                &&& o.signature_value == bytes
            },
            Err(_) => output matches Err(code) && code == ReturnCode::RetrieveLogMessageFailed,
        },
{
    match signature_value {
        Ok(signature_value) => Ok(
            TransactionOutput {
                log_time: time_stamp,
                signature_counter: signature_counter as u32,
                signature_value,
            },
        ),
        Err(_) => Err(ReturnCode::RetrieveLogMessageFailed),
    }
}

fn step_output(time_stamp: i64, signature: &TseSignatureData) -> (output: Result<
    TransactionOutput,
    ReturnCode,
>)
    ensures
        is_step_output(output, time_stamp, *signature),
{
    signed_step(time_stamp, signature.signature_counter, signature.signature_base64.decode())
}

impl TransactionOutput {
    /// Writes the outputs to the places that the caller named. The length of
    /// the signature is reported whether or not there is a place for the
    /// signature itself.
    pub fn write(
        self,
        log_time: Option<&mut i64>,
        signature_value: Option<&mut Option<Vec<u8>>>,
        signature_value_length: Option<&mut u32>,
        signature_counter: Option<&mut u32>,
    )
        ensures
            log_time is Some ==> *final(log_time->0) == self.log_time,
            signature_counter is Some ==> *final(signature_counter->0) == self.signature_counter,
            signature_value is Some ==> (*final(signature_value->0)) is Some
                && (*final(signature_value->0))->0@ == self.signature_value@,
            signature_value_length is Some ==> *final(signature_value_length->0) == reported_length(
                self.signature_value@.len(),
            ),
    {
        set_i64_ptr(log_time, self.log_time);
        set_u32_ptr(signature_counter, self.signature_counter);
        set_byte_buf(signature_value, self.signature_value.as_slice());
        set_u32_ptr(signature_value_length, self.signature_value.len() as u32);
    }
}

impl StartTransactionOutput {
    /// Writes the outputs to the places that the caller named. The length of
    /// the serial number is reported only where there is a place for the
    /// serial number; the length of the signature is reported in any case.
    pub fn write(
        self,
        transaction_number: Option<&mut u32>,
        log_time: Option<&mut i64>,
        serial_number: Option<&mut Option<Vec<u8>>>,
        serial_number_length: Option<&mut u32>,
        signature_counter: Option<&mut u32>,
        signature_value: Option<&mut Option<Vec<u8>>>,
        signature_value_length: Option<&mut u32>,
    )
        ensures
            transaction_number is Some ==> *final(transaction_number->0) == self.transaction_number,
            log_time is Some ==> *final(log_time->0) == self.step.log_time,
            signature_counter is Some ==> *final(signature_counter->0) == self.step.signature_counter,
            serial_number is Some ==> (*final(serial_number->0)) is Some
                && (*final(serial_number->0))->0@ == encode_utf8(self.serial_number@),
            serial_number is Some && serial_number_length is Some ==> *final(serial_number_length->0)
                == reported_length(encode_utf8(self.serial_number@).len()),
            serial_number is None && serial_number_length is Some ==> *final(serial_number_length->0)
                == *(serial_number_length->0),
            signature_value is Some ==> (*final(signature_value->0)) is Some
                && (*final(signature_value->0))->0@ == self.step.signature_value@,
            signature_value_length is Some ==> *final(signature_value_length->0) == reported_length(
                self.step.signature_value@.len(),
            ),
    {
        set_u32_ptr(transaction_number, self.transaction_number);
        set_cstr(serial_number, serial_number_length, self.serial_number);
        self.step.write(log_time, signature_value, signature_value_length, signature_counter);
    }
}

/// The request that opens a transaction for the client, the type of process
/// and the data that the caller named.
pub fn start_transaction_request(
    client_id: &[u8],
    client_id_length: u32,
    process_data: &[u8],
    process_data_length: u32,
    process_type: &[u8],
    process_type_length: u32,
) -> (request: StartTransactionRequest)
    requires
        client_id_length <= client_id@.len(),
        process_data_length <= process_data@.len(),
        process_type_length <= process_type@.len(),
    ensures
        request.client_id@ == lossy_text(denoted(client_id@, client_id_length)),
        request.process_type@ == lossy_text(denoted(process_type@, process_type_length)),
        request.process_data_base64@ == base64_encoded(denoted(process_data@, process_data_length)),
        request.queue_item_id == queue_item(),
        !request.is_retry,
{
    StartTransactionRequest {
        client_id: from_cstr(client_id, client_id_length),
        process_type: from_cstr(process_type, process_type_length),
        process_data_base64: Base64::from(from_cba(process_data, process_data_length)),
        queue_item_id: queue_item_id(),
        is_retry: false,
    }
}

/// What the start of a transaction comes to: on an answer, the number of the
/// transaction cut to 32 bits, the serial number of the unit and the outputs
/// of a signed step; on a failure, its return code, which is that of a failed
/// start where the unit refused.
pub fn start_transaction_output(outcome: Result<StartTransactionResponse, Error>) -> (output: Result<
    StartTransactionOutput,
    ReturnCode,
>)
    ensures
        match outcome {
            Ok(response) => match base64_decoded(response.signature_data.signature_base64@) {
                Some(_) => {
                    &&& output matches Ok(o)
                    &&& o.transaction_number == response.transaction_number as u32
                    &&& o.serial_number@ == response.tse_serial_number_octet@
                    &&& is_step_output(Ok(o.step), response.time_stamp, response.signature_data)
                },
                None => output matches Err(code) && code == ReturnCode::RetrieveLogMessageFailed,
            },
            Err(err) => output matches Err(code) && code == failure_code(
                err,
                ReturnCode::StartTransactionFailed,
            ),
        },
{
    match outcome {
        Ok(response) => {
            match step_output(response.time_stamp, &response.signature_data) {
                Ok(step) => Ok(
                    StartTransactionOutput {
                        transaction_number: response.transaction_number as u32,
                        serial_number: response.tse_serial_number_octet,
                        step,
                    },
                ),
                Err(code) => Err(code),
            }
        },
        Err(err) => Err(code_of_failure(err, ReturnCode::StartTransactionFailed)),
    }
}

/// The request that records new data for the open transaction
/// `transaction_number`.
pub fn update_transaction_request(
    client_id: &[u8],
    client_id_length: u32,
    transaction_number: u32,
    process_data: &[u8],
    process_data_length: u32,
    process_type: &[u8],
    process_type_length: u32,
) -> (request: UpdateTransactionRequest)
    requires
        client_id_length <= client_id@.len(),
        process_data_length <= process_data@.len(),
        process_type_length <= process_type@.len(),
    ensures
        request.client_id@ == lossy_text(denoted(client_id@, client_id_length)),
        request.process_type@ == lossy_text(denoted(process_type@, process_type_length)),
        request.process_data_base64@ == base64_encoded(denoted(process_data@, process_data_length)),
        request.queue_item_id == queue_item(),
        !request.is_retry,
        request.transaction_number == transaction_number,
{
    UpdateTransactionRequest {
        client_id: from_cstr(client_id, client_id_length),
        process_type: from_cstr(process_type, process_type_length),
        process_data_base64: Base64::from(from_cba(process_data, process_data_length)),
        queue_item_id: queue_item_id(),
        is_retry: false,
        transaction_number: transaction_number as u64,
    }
}

/// What the update of a transaction comes to: on an answer, the outputs of a
/// signed step; on a failure, its return code, which is that of a failed
/// update where the unit refused.
pub fn update_transaction_output(outcome: Result<UpdateTransactionResponse, Error>) -> (output: Result<
    TransactionOutput,
    ReturnCode,
>)
    ensures
        match outcome {
            Ok(response) => is_step_output(output, response.time_stamp, response.signature_data),
            Err(err) => output matches Err(code) && code == failure_code(
                err,
                ReturnCode::UpdateTransactionFailed,
            ),
        },
{
    match outcome {
        Ok(response) => step_output(response.time_stamp, &response.signature_data),
        Err(err) => Err(code_of_failure(err, ReturnCode::UpdateTransactionFailed)),
    }
}

/// The request that closes the transaction `transaction_number`.
pub fn finish_transaction_request(
    client_id: &[u8],
    client_id_length: u32,
    transaction_number: u32,
    process_data: &[u8],
    process_data_length: u32,
    process_type: &[u8],
    process_type_length: u32,
) -> (request: FinishTransactionRequest)
    requires
        client_id_length <= client_id@.len(),
        process_data_length <= process_data@.len(),
        process_type_length <= process_type@.len(),
    ensures
        request.client_id@ == lossy_text(denoted(client_id@, client_id_length)),
        request.process_type@ == lossy_text(denoted(process_type@, process_type_length)),
        request.process_data_base64@ == base64_encoded(denoted(process_data@, process_data_length)),
        request.queue_item_id == queue_item(),
        !request.is_retry,
        request.transaction_number == transaction_number,
{
    FinishTransactionRequest {
        client_id: from_cstr(client_id, client_id_length),
        process_type: from_cstr(process_type, process_type_length),
        process_data_base64: Base64::from(from_cba(process_data, process_data_length)),
        queue_item_id: queue_item_id(),
        is_retry: false,
        transaction_number: transaction_number as u64,
    }
}

/// What the end of a transaction comes to: on an answer, the outputs of a
/// signed step; on a failure, its return code, which is that of a failed
/// finish where the unit refused.
pub fn finish_transaction_output(outcome: Result<FinishTransactionResponse, Error>) -> (output: Result<
    TransactionOutput,
    ReturnCode,
>)
    ensures
        match outcome {
            Ok(response) => is_step_output(output, response.time_stamp, response.signature_data),
            Err(err) => output matches Err(code) && code == failure_code(
                err,
                ReturnCode::FinishTransactionFailed,
            ),
        },
{
    match outcome {
        Ok(response) => step_output(response.time_stamp, &response.signature_data),
        Err(err) => Err(code_of_failure(err, ReturnCode::FinishTransactionFailed)),
    }
}

/// The SHA-256 digest of bytes in the lower-case hexadecimal text that the
/// `sha256` crate writes.
pub uninterp spec fn sha256_hex(data: Seq<u8>) -> Seq<char>;

/// `sha256::digest_bytes`.
#[verifier::external_body]
#[allow(deprecated)]
fn digest(data: &[u8]) -> (text: String)
    ensures
        text@ == sha256_hex(data@),
{
    sha256::digest_bytes(data)
}

/// Where an export stands.
#[derive(Debug)]
pub enum ExportState {
    /// The unit was asked to open the export.
    Starting,
    /// The unit was asked for the next chunk; `data` is what came so far.
    Fetching { token_id: String, data: Vec<u8> },
    /// The unit was asked to close the export of `data`.
    Ending { data: Vec<u8> },
    /// The export is over.
    Done,
}

/// What the unit answered to the last request of an export.
#[derive(Debug)]
pub enum ExportEvent {
    Started(Result<StartExportSessionResponse, Error>),
    Fetched(Result<ExportDataResponse, Error>),
    Ended(Result<EndExportSessionResponse, Error>),
}

/// What is to be done next in an export.
#[derive(Debug)]
pub enum ExportAction {
    /// Ask the unit to open the export.
    Start(StartExportSessionRequest),
    /// Ask the unit for the next chunk.
    Fetch(ExportDataRequest),
    /// Ask the unit to close the export.
    End(EndExportSessionRequest),
    /// Stop: with the exported data, or with the return code of the failure.
    Finish(Result<Vec<u8>, ReturnCode>),
}

/// Whether `action` asks for the next chunk under `token_id`.
pub open spec fn is_fetch(action: ExportAction, token_id: Seq<char>) -> bool {
    &&& action matches ExportAction::Fetch(request)
    &&& request.token_id@ == token_id
    &&& request.max_chunk_size == MAX_CHUNK_SIZE
}

/// Whether `action` stops the export with the failure `code`.
pub open spec fn is_failure(action: ExportAction, code: ReturnCode) -> bool {
    action matches ExportAction::Finish(Err(c)) && c == code
}

/// Whether `next` is the step that follows on `event` in `state`.
///
/// An opened export goes on to fetch chunks under its token. Each chunk is
/// appended, as the bytes of its text, to what came before; after the chunk
/// that is marked as the last, the export is closed with the SHA-256 digest of
/// all that came. A closed export hands out the data where the unit found the
/// digest valid and fails as unknown where it did not. Every failure of a
/// request ends the export with the code of that failure, and so does, as
/// unknown, an answer that does not belong to the state.
pub open spec fn is_next(state: ExportState, event: ExportEvent, next: (ExportState, ExportAction)) -> bool {
    match (state, event) {
        (ExportState::Starting, ExportEvent::Started(Ok(response))) => {
            &&& next.0 matches ExportState::Fetching { token_id, data }
            &&& token_id@ == response.token_id@
            &&& data@ == Seq::<u8>::empty()
            &&& is_fetch(next.1, response.token_id@)
        },
        (ExportState::Starting, ExportEvent::Started(Err(err))) => {
            next.0 is Done && is_failure(next.1, err.code())
        },
        (ExportState::Fetching { token_id, data }, ExportEvent::Fetched(Ok(chunk))) => {
            let all = data@ + encode_utf8(chunk.tar_file_byte_chunk_base64@);
            if chunk.tar_file_end_of_file {
                &&& next.0 matches ExportState::Ending { data: d }
                &&& d@ == all
                &&& next.1 matches ExportAction::End(request)
                &&& request.token_id@ == token_id@
                &&& request.sha256_checksum_base64@ == sha256_hex(all)
                &&& !request.erase
            } else {
                &&& next.0 matches ExportState::Fetching { token_id: t, data: d }
                &&& t@ == token_id@
                &&& d@ == all
                &&& is_fetch(next.1, token_id@)
            }
        },
        (ExportState::Fetching { .. }, ExportEvent::Fetched(Err(err))) => {
            next.0 is Done && is_failure(next.1, err.code())
        },
        (ExportState::Ending { data }, ExportEvent::Ended(Ok(response))) => {
            &&& next.0 is Done
            &&& if response.is_valid {
                next.1 matches ExportAction::Finish(Ok(d)) && d@ == data@
            } else {
                is_failure(next.1, ReturnCode::Unknown)
            }
        },
        (ExportState::Ending { .. }, ExportEvent::Ended(Err(err))) => {
            next.0 is Done && is_failure(next.1, err.code())
        },
        _ => next.0 is Done && is_failure(next.1, ReturnCode::Unknown),
    }
}

/// Begins the export of all data of the client that the caller named: the
/// unit is to be asked to open it, and nothing is to be erased.
pub fn export_begin(client_id: &[u8], client_id_length: u32) -> (first: (ExportState, ExportAction))
    requires
        client_id_length <= client_id@.len(),
    ensures
        first.0 is Starting,
        first.1 matches ExportAction::Start(request) && request.client_id@ == lossy_text(
            denoted(client_id@, client_id_length),
        ) && !request.erase,
{
    let request = StartExportSessionRequest {
        client_id: from_cstr(client_id, client_id_length),
        erase: false,
    };
    (ExportState::Starting, ExportAction::Start(request))
}

fn fetch(token_id: &String) -> (action: ExportAction)
    ensures
        is_fetch(action, token_id@),
{
    ExportAction::Fetch(ExportDataRequest { token_id: token_id.clone(), max_chunk_size: MAX_CHUNK_SIZE })
}

/// Takes an export one step on: from where it stands and what the unit
/// answered to where it stands then and what is to be done next.
pub fn export_step(state: ExportState, event: ExportEvent) -> (next: (ExportState, ExportAction))
    ensures
        is_next(state, event, next),
{
    match (state, event) {
        (ExportState::Starting, ExportEvent::Started(Ok(response))) => {
            let action = fetch(&response.token_id);
            (ExportState::Fetching { token_id: response.token_id, data: Vec::new() }, action)
        },
        (ExportState::Starting, ExportEvent::Started(Err(err))) => {
            (ExportState::Done, ExportAction::Finish(Err(code_of(err))))
        },
        (ExportState::Fetching { token_id, data }, ExportEvent::Fetched(Ok(chunk))) => {
            let ghost before = data@;
            let mut data = data;
            data.extend_from_slice(chunk.tar_file_byte_chunk_base64.as_str().as_bytes());
            assert(data@ == before + encode_utf8(chunk.tar_file_byte_chunk_base64@));
            if chunk.tar_file_end_of_file {
                let request = EndExportSessionRequest {
                    token_id,
                    sha256_checksum_base64: digest(data.as_slice()),
                    erase: false,
                };
                (ExportState::Ending { data }, ExportAction::End(request))
            } else {
                let action = fetch(&token_id);
                (ExportState::Fetching { token_id, data }, action)
            }
        },
        (ExportState::Fetching { .. }, ExportEvent::Fetched(Err(err))) => {
            (ExportState::Done, ExportAction::Finish(Err(code_of(err))))
        },
        (ExportState::Ending { data }, ExportEvent::Ended(Ok(response))) => {
            if response.is_valid {
                (ExportState::Done, ExportAction::Finish(Ok(data)))
            } else {
                (ExportState::Done, ExportAction::Finish(Err(ReturnCode::Unknown)))
            }
        },
        (ExportState::Ending { .. }, ExportEvent::Ended(Err(err))) => {
            (ExportState::Done, ExportAction::Finish(Err(code_of(err))))
        },
        _ => (ExportState::Done, ExportAction::Finish(Err(ReturnCode::Unknown))),
    }
}

/// An export hands out data only after the unit found the digest of that
/// data valid.
pub proof fn lemma_data_only_after_valid_digest(
    state: ExportState,
    event: ExportEvent,
    next: (ExportState, ExportAction),
)
    requires
        is_next(state, event, next),
        next.1 matches ExportAction::Finish(Ok(_)),
    ensures
        state is Ending,
        event matches ExportEvent::Ended(Ok(response)) && response.is_valid,
        next.1 matches ExportAction::Finish(Ok(d)) && d@ == state->Ending_data@,
{
}

/// An export whose unit found the digest invalid fails as unknown, whatever
/// came before.
pub proof fn lemma_invalid_digest_is_unknown(
    data: Vec<u8>,
    response: EndExportSessionResponse,
    next: (ExportState, ExportAction),
)
    requires
        !response.is_valid,
        is_next(ExportState::Ending { data }, ExportEvent::Ended(Ok(response)), next),
    ensures
        next.0 is Done,
        is_failure(next.1, ReturnCode::Unknown),
{
}

/// The state that a unit is asked to take when its description is set: it is
/// initialized.
pub fn initialize_description_set_request() -> (request: TseState)
    ensures
        request.current_state == TseStates::Initialized,
{
    TseState { current_state: TseStates::Initialized }
}

/// The state that a unit is asked to take when it is disabled: it is
/// terminated.
pub fn disable_secure_element_request() -> (request: TseState)
    ensures
        request.current_state == TseStates::Terminated,
{
    TseState { current_state: TseStates::Terminated }
}

/// The largest number of cash registers that the device accepts, cut to 32
/// bits.
pub fn max_number_of_clients(outcome: Result<TseInfo, Error>) -> (number: Result<u32, ReturnCode>)
    ensures
        number == match outcome {
            Ok(info) => Ok::<u32, ReturnCode>(info.max_number_of_clients as u32),
            Err(err) => Err::<u32, ReturnCode>(err.code()),
        },
{
    match outcome {
        Ok(info) => Ok(info.max_number_of_clients as u32),
        Err(err) => Err(code_of(err)),
    }
}

/// The number of cash registers that the device knows, cut to 32 bits.
pub fn current_number_of_clients(outcome: Result<TseInfo, Error>) -> (number: Result<u32, ReturnCode>)
    ensures
        number == match outcome {
            Ok(info) => Ok::<u32, ReturnCode>(info.current_number_of_clients as u32),
            Err(err) => Err::<u32, ReturnCode>(err.code()),
        },
{
    match outcome {
        Ok(info) => Ok(info.current_number_of_clients as u32),
        Err(err) => Err(code_of(err)),
    }
}

/// The largest number of transactions that can be open on the device at one
/// time, cut to 32 bits.
pub fn max_number_of_transactions(outcome: Result<TseInfo, Error>) -> (number: Result<u32, ReturnCode>)
    ensures
        number == match outcome {
            Ok(info) => Ok::<u32, ReturnCode>(info.max_number_of_started_transactions as u32),
            Err(err) => Err::<u32, ReturnCode>(err.code()),
        },
{
    match outcome {
        Ok(info) => Ok(info.max_number_of_started_transactions as u32),
        Err(err) => Err(code_of(err)),
    }
}

/// The number of transactions that are open on the device, cut to 32 bits.
pub fn current_number_of_transactions(outcome: Result<TseInfo, Error>) -> (number: Result<
    u32,
    ReturnCode,
>)
    ensures
        number == match outcome {
            Ok(info) => Ok::<u32, ReturnCode>(info.current_number_of_started_transactions as u32),
            Err(err) => Err::<u32, ReturnCode>(err.code()),
        },
{
    match outcome {
        Ok(info) => Ok(info.current_number_of_started_transactions as u32),
        Err(err) => Err(code_of(err)),
    }
}

/// The ways in which the device records the update of a transaction: both.
pub fn supported_transaction_update_variants() -> (variants: UpdateVariants)
    ensures
        variants == UpdateVariants::SignedAndUnsigned,
{
    UpdateVariants::SignedAndUnsigned
}

} // verus!
