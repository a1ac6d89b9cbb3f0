//! The records that travel between this adapter and the signature creation
//! unit, and the operations that carry them.
//!
//! Binary payloads travel as base64 text. Points in time are held as seconds
//! since the start of 1970 in UTC, identifiers of queue items as 128-bit
//! numbers.

use vstd::prelude::*;
use vstd::utf8::encode_utf8;

verus! {

/// The base64 text that the `base64` crate writes for bytes, in its standard
/// alphabet with padding.
pub uninterp spec fn base64_encoded(data: Seq<u8>) -> Seq<char>;

/// The bytes that the `base64` crate reads out of a text in its standard
/// alphabet with padding, or nothing where it refuses the text.
pub uninterp spec fn base64_decoded(text: Seq<char>) -> Option<Seq<u8>>;

#[verifier::external_type_specification]
#[verifier::external_body]
pub struct ExDecodeError(base64::DecodeError);

/// `<[u8]>::len`, with the bound that holds of every slice: it never spans
/// more than `isize::MAX` bytes.
#[verifier::external_body]
fn bounded_len(data: &[u8]) -> (len: usize)
    ensures
        len == data@.len(),
        len <= isize::MAX,
{
    data.len()
}

/// `str::len`, with the bound that holds of every string slice: it never
/// spans more than `isize::MAX` bytes.
#[verifier::external_body]
fn bounded_str_len(text: &str) -> (len: usize)
    ensures
        len == encode_utf8(text@).len(),
        len <= isize::MAX,
{
    text.len()
}

/// `base64::encode`. It panics where the length of the text would not fit
/// in `usize`, which the bound on `data` rules out.
#[verifier::external_body]
fn encode(data: &[u8]) -> (text: String)
    requires
        data@.len() <= isize::MAX,
    ensures
        text@ == base64_encoded(data@),
{
    base64::encode(data)
}

/// `base64::decode`. It panics where the length of its input plus seven
/// would not fit in `usize`, which the bound on `text` rules out.
#[verifier::external_body]
fn decode(text: &str) -> (bytes: Result<Vec<u8>, base64::DecodeError>)
    requires
        encode_utf8(text@).len() <= isize::MAX,
    ensures
        match bytes {
            Ok(b) => base64_decoded(text@) == Some(b@),
            Err(_) => base64_decoded(text@) is None,
        },
{
    base64::decode(text)
}

/// A binary payload as base64 text.
#[derive(Debug)]
pub struct Base64(pub String);

impl View for Base64 {
    type V = Seq<char>;

    open spec fn view(&self) -> Seq<char> {
        self.0@
    }
}

impl Base64 {
    /// The base64 text of `from`.
    pub fn from(from: &[u8]) -> (text: Base64)
        ensures
            text@ == base64_encoded(from@),
    {
        let len = bounded_len(from);
        assert(len <= isize::MAX);
        Base64(encode(from))
    }

    /// The bytes that the text stands for, or the reason why it stands for
    /// none.
    pub fn decode(&self) -> (bytes: Result<Vec<u8>, base64::DecodeError>)
        ensures
            match bytes {
                Ok(b) => base64_decoded(self@) == Some(b@),
                Err(_) => base64_decoded(self@) is None,
            },
    {
        let text = self.0.as_str();
        let len = bounded_str_len(text);
        assert(len <= isize::MAX);
        decode(text)
    }

    /// The text itself.
    pub fn as_str(&self) -> (text: &str)
        ensures
            text@ == self@,
    {
        self.0.as_str()
    }
}

/// Asks the unit to open a transaction.
#[derive(Debug)]
pub struct StartTransactionRequest {
    pub client_id: String,
    pub process_type: String,
    pub process_data_base64: Base64,
    pub queue_item_id: u128,
    pub is_retry: bool,
}

/// The signature that the unit made for one step of a transaction.
#[derive(Debug)]
pub struct TseSignatureData {
    pub signature_counter: u64,
    pub signature_algorithm: String,
    pub signature_base64: Base64,
    pub public_key_base64: Base64,
}

/// The unit's answer to `StartTransactionRequest`.
#[derive(Debug)]
pub struct StartTransactionResponse {
    pub transaction_number: u64,
    pub time_stamp: i64,
    pub tse_serial_number_octet: String,
    pub client_id: String,
    pub signature_data: TseSignatureData,
}

/// Asks the unit to record new data for an open transaction.
#[derive(Debug)]
pub struct UpdateTransactionRequest {
    pub client_id: String,
    pub transaction_number: u64,
    pub process_type: String,
    pub process_data_base64: Base64,
    pub queue_item_id: u128,
    pub is_retry: bool,
}

/// The unit's answer to `UpdateTransactionRequest`.
#[derive(Debug)]
pub struct UpdateTransactionResponse {
    pub transaction_number: u64,
    pub time_stamp: i64,
    pub tse_serial_number_octet: String,
    pub client_id: String,
    pub process_type: String,
    pub process_data_base64: Base64,
    pub signature_data: TseSignatureData,
}

/// Asks the unit to close a transaction.
#[derive(Debug)]
pub struct FinishTransactionRequest {
    pub client_id: String,
    pub transaction_number: u64,
    pub process_type: String,
    pub process_data_base64: Base64,
    pub queue_item_id: u128,
    pub is_retry: bool,
}

/// The unit's answer to `FinishTransactionRequest`.
#[derive(Debug)]
pub struct FinishTransactionResponse {
    pub transaction_number: u64,
    pub start_transaction_time_stamp: i64,
    pub time_stamp: i64,
    pub tse_time_stamp_format: String,
    pub tse_serial_number_octet: String,
    pub client_id: String,
    pub process_type: String,
    pub process_data_base64: Base64,
    pub signature_data: TseSignatureData,
}

/// The state of a unit in its life.
#[derive(Debug, Clone, Copy, PartialEq, Eq, Structural)]
pub enum TseStates {
    Uninitialized,
    Initialized,
    Terminated,
}

impl TseStates {
    /// The number that stands for the state on the wire.
    pub open spec fn number(self) -> u8 {
        match self {
            TseStates::Uninitialized => 0,
            TseStates::Initialized => 1,
            TseStates::Terminated => 2,
        }
    }

    /// The state that a number on the wire stands for.
    pub open spec fn of_number(number: u8) -> Option<TseStates> {
        if number == 0 {
            Some(TseStates::Uninitialized)
        } else if number == 1 {
            Some(TseStates::Initialized)
        } else if number == 2 {
            Some(TseStates::Terminated)
        } else {
            None
        }
    }

    /// The number that stands for the state on the wire.
    pub fn value(self) -> (number: u8)
        ensures
            number == self.number(),
    {
        match self {
            TseStates::Uninitialized => 0,
            TseStates::Initialized => 1,
            TseStates::Terminated => 2,
        }
    }

    /// The state that a number on the wire stands for. The numbers from 3
    /// on stand for none.
    pub fn from_value(number: u8) -> (state: Option<TseStates>)
        ensures
            state == TseStates::of_number(number),
    {
        if number == 0 {
            Some(TseStates::Uninitialized)
        } else if number == 1 {
            Some(TseStates::Initialized)
        } else if number == 2 {
            Some(TseStates::Terminated)
        } else {
            None
        }
    }
}

/// What a unit tells of itself.
#[derive(Debug)]
pub struct TseInfo {
    pub max_number_of_clients: i64,
    pub current_number_of_clients: i64,
    pub current_client_ids: Vec<String>,
    pub max_number_of_started_transactions: i64,
    pub current_number_of_started_transactions: i64,
    pub current_started_transaction_numbers: Vec<u64>,
    pub max_number_of_signatures: i64,
    pub current_number_of_signatures: i64,
    pub max_log_memory_size: i64,
    pub current_log_memory_size: i64,
    pub current_state: TseStates,
    pub firmware_identification: String,
    pub certification_identification: String,
    pub signature_algorithm: String,
    pub log_time_format: String,
    pub serial_number_octet: String,
    pub public_key_base64: Base64,
    pub certificates_base64: Vec<Base64>,
}

/// The state that a unit is in, or is to be put in.
#[derive(Debug)]
pub struct TseState {
    pub current_state: TseStates,
}

/// Asks the unit to accept a cash register under `client_id`.
#[derive(Debug)]
pub struct RegisterClientIdRequest {
    pub client_id: String,
}

/// The cash registers that the unit knows after a registration.
#[derive(Debug)]
pub struct RegisterClientIdResponse {
    pub client_ids: Vec<String>,
}

/// Asks the unit to forget the cash register `client_id`.
#[derive(Debug)]
pub struct UnregisterClientIdRequest {
    pub client_id: String,
}

/// The cash registers that the unit knows after one was removed.
#[derive(Debug)]
pub struct UnregisterClientIdResponse {
    pub client_ids: Vec<String>,
}

/// Asks the unit to open an export of everything it holds for a client.
#[derive(Debug)]
pub struct StartExportSessionRequest {
    pub client_id: String,
    pub erase: bool,
}

/// The token under which an export goes on.
#[derive(Debug)]
pub struct StartExportSessionResponse {
    pub token_id: String,
    pub tse_serial_number_octet: String,
}

/// Asks the unit to open an export of what lies between two points in time.
#[derive(Debug)]
pub struct StartExportSessionByTimeStampRequest {
    pub client_id: String,
    pub from: i64,
    pub to: i64,
}

/// Asks the unit to open an export of what lies between two transactions.
#[derive(Debug)]
pub struct StartExportSessionByTransactionRequest {
    pub client_id: String,
    pub from: u64,
    pub to: u64,
}

/// Asks the unit for the next chunk of an export.
#[derive(Debug)]
pub struct ExportDataRequest {
    pub token_id: String,
    pub max_chunk_size: i32,
}

/// One chunk of an export.
#[derive(Debug)]
pub struct ExportDataResponse {
    pub token_id: String,
    pub tar_file_byte_chunk_base64: String,
    pub tar_file_end_of_file: bool,
    pub total_tar_file_size_available: bool,
    pub total_tar_file_size: i64,
}

/// Closes an export and tells the unit the checksum of what was received.
#[derive(Debug)]
pub struct EndExportSessionRequest {
    pub token_id: String,
    pub sha256_checksum_base64: String,
    pub erase: bool,
}

/// The unit's verdict on a closed export.
#[derive(Debug)]
pub struct EndExportSessionResponse {
    pub token_id: String,
    pub is_valid: bool,
    pub is_erased: bool,
}

/// A message to be sent back unchanged.
#[derive(Debug)]
pub struct ScuDeEchoRequest {
    pub message: String,
}

/// The message that came back.
#[derive(Debug)]
pub struct ScuDeEchoResponse {
    pub message: String,
}

/// How a request is sent.
#[derive(Debug, Clone, Copy, PartialEq, Eq, Structural)]
pub enum Method {
    Get,
    Post,
}

/// The operations of a signature creation unit.
#[derive(Debug, Clone, Copy, PartialEq, Eq, Structural)]
pub enum Operation {
    StartTransaction,
    UpdateTransaction,
    FinishTransaction,
    GetTseInfo,
    SetTseState,
    RegisterClientId,
    UnregisterClientId,
    ExecuteSetTseTime,
    ExecuteSelfTest,
    StartExportSession,
    StartExportSessionByTimeStamp,
    StartExportSessionByTransaction,
    ExportData,
    EndExportSession,
    Echo,
}

impl Operation {
    /// The last segment of the address of the operation.
    pub open spec fn path(self) -> Seq<char> {
        match self {
            Operation::StartTransaction => "starttransaction"@,
            Operation::UpdateTransaction => "updatetransaction"@,
            Operation::FinishTransaction => "finishtransaction"@,
            Operation::GetTseInfo => "tseinfo"@,
            Operation::SetTseState => "tsestate"@,
            Operation::RegisterClientId => "registerclientid"@,
            Operation::UnregisterClientId => "unregisterclientid"@,
            Operation::ExecuteSetTseTime => "executesettsetime"@,
            Operation::ExecuteSelfTest => "executeselftest"@,
            Operation::StartExportSession => "startexportsession"@,
            Operation::StartExportSessionByTimeStamp => "startexportsessionbytimestamp"@,
            Operation::StartExportSessionByTransaction => "startexportsessionbytransaction"@,
            Operation::ExportData => "exportdata"@,
            Operation::EndExportSession => "endexportsession"@,
            Operation::Echo => "echo"@,
        }
    }

    /// Whether the operation only reads. An operation that only reads is sent
    /// with GET; every other is sent with POST.
    pub open spec fn reads_only(self) -> bool {
        self == Operation::GetTseInfo
    }

    /// Whether the unit answers the operation with a record. The two
    /// operations that only set something off are answered with nothing.
    pub open spec fn answers_with_record(self) -> bool {
        self != Operation::ExecuteSetTseTime && self != Operation::ExecuteSelfTest
    }

    /// The last segment of the address of the operation.
    pub fn path_segment(self) -> (segment: &'static str)
        ensures
            segment@ == self.path(),
    {
        match self {
            Operation::StartTransaction => "starttransaction",
            Operation::UpdateTransaction => "updatetransaction",
            Operation::FinishTransaction => "finishtransaction",
            Operation::GetTseInfo => "tseinfo",
            Operation::SetTseState => "tsestate",
            Operation::RegisterClientId => "registerclientid",
            Operation::UnregisterClientId => "unregisterclientid",
            Operation::ExecuteSetTseTime => "executesettsetime",
            Operation::ExecuteSelfTest => "executeselftest",
            Operation::StartExportSession => "startexportsession",
            Operation::StartExportSessionByTimeStamp => "startexportsessionbytimestamp",
            Operation::StartExportSessionByTransaction => "startexportsessionbytransaction",
            Operation::ExportData => "exportdata",
            Operation::EndExportSession => "endexportsession",
            Operation::Echo => "echo",
        }
    }

    /// How the operation is sent.
    pub fn method(self) -> (method: Method)
        ensures
            method == if self.reads_only() {
                Method::Get
            } else {
                Method::Post
            },
    {
        match self {
            Operation::GetTseInfo => Method::Get,
            _ => Method::Post,
        }
    }

    /// Whether the unit answers the operation with a record.
    pub fn expects_record(self) -> (expected: bool)
        ensures
            expected == self.answers_with_record(),
    {
        match self {
            Operation::ExecuteSetTseTime => false,
            Operation::ExecuteSelfTest => false,
            _ => true,
        }
    }
}

/// No two operations share an address.
pub proof fn lemma_paths_are_distinct(a: Operation, b: Operation)
    requires
        a != b,
    ensures
        a.path() != b.path(),
{
    reveal_strlit("starttransaction");
    reveal_strlit("updatetransaction");
    reveal_strlit("finishtransaction");
    reveal_strlit("tseinfo");
    reveal_strlit("tsestate");
    reveal_strlit("registerclientid");
    reveal_strlit("unregisterclientid");
    reveal_strlit("executesettsetime");
    reveal_strlit("executeselftest");
    reveal_strlit("startexportsession");
    reveal_strlit("startexportsessionbytimestamp");
    reveal_strlit("startexportsessionbytransaction");
    reveal_strlit("exportdata");
    reveal_strlit("endexportsession");
    reveal_strlit("echo");
    if a.path().len() == b.path().len() {
        assert(a.path()[0] != b.path()[0]);
    }
}

} // verus!
