//! The functions of the device interface: what a unit tells of itself, the
//! registration of cash registers, and the start of the process.

use vstd::prelude::*;
use vstd::string::StringExecFns;
use crate::atrustapi::return_codes::ReturnCode;
use crate::atrustapi::seapi::code_of;
use crate::atrustapi::seapi::code_of_failure;
use crate::atrustapi::seapi::failure_code;
use crate::client::Error;
use crate::config::ConfigStore;
use crate::config::ConfigView;
use crate::config::read_config;
use crate::helpers::ffi::comma_joined;
use crate::helpers::ffi::denoted;
use crate::helpers::ffi::from_cstr;
use crate::helpers::ffi::join_with_commas;
use crate::helpers::ffi::lossy_text;
use crate::idesscd::Base64;
use crate::idesscd::RegisterClientIdRequest;
use crate::idesscd::RegisterClientIdResponse;
use crate::idesscd::TseInfo;
use crate::idesscd::TseStates;
use crate::idesscd::base64_decoded;

verus! {

/// The version of this adapter.
pub const VERSION: &'static str = "0.1.0";

/// The version of this adapter, as it is told to the caller.
pub fn version() -> (text: String)
    ensures
        text@ == VERSION@,
{
    String::from_str(VERSION)
}

/// The state of a device in its life, as the caller knows it.
#[derive(Debug, Clone, Copy, PartialEq, Eq, Structural)]
pub enum LifecycleState {
    Unknown,
    NotInitialized,
    Active,
    Suspended,
    Disabled,
}

impl LifecycleState {
    /// The number under which the caller knows this state.
    pub open spec fn number(self) -> u32 {
        match self {
            LifecycleState::Unknown => 0,
            LifecycleState::NotInitialized => 1,
            LifecycleState::Active => 2,
            LifecycleState::Suspended => 3,
            LifecycleState::Disabled => 4,
        }
    }

    /// The state of a device whose unit is in `state`.
    pub open spec fn of(state: TseStates) -> LifecycleState {
        match state {
            TseStates::Uninitialized => LifecycleState::NotInitialized,
            TseStates::Initialized => LifecycleState::Active,
            TseStates::Terminated => LifecycleState::Disabled,
        }
    }

    /// The number under which the caller knows this state.
    pub fn value(self) -> (number: u32)
        ensures
            number == self.number(),
    {
        match self {
            LifecycleState::Unknown => 0,
            LifecycleState::NotInitialized => 1,
            LifecycleState::Active => 2,
            LifecycleState::Suspended => 3,
            LifecycleState::Disabled => 4,
        }
    }
}

/// Whether `c` is a hexadecimal digit, in either case.
pub open spec fn is_hex_digit(c: char) -> bool {
    ||| '0' as int <= c as int <= '9' as int
    ||| 'a' as int <= c as int <= 'f' as int
    ||| 'A' as int <= c as int <= 'F' as int
}

/// The number that a hexadecimal digit stands for.
pub open spec fn hex_value(c: char) -> int {
    if '0' as int <= c as int <= '9' as int {
        c as int - '0' as int
    } else if 'a' as int <= c as int <= 'f' as int {
        c as int - 'a' as int + 10
    } else {
        c as int - 'A' as int + 10
    }
}

/// The bytes that a text of hexadecimal digits stands for, two digits to the
/// byte, the higher half first. A text of odd length, or one with another
/// character in it, stands for nothing.
pub open spec fn hex_decoded(text: Seq<char>) -> Option<Seq<u8>> {
    if text.len() % 2 == 0 && (forall|i: int| 0 <= i < text.len() ==> is_hex_digit(#[trigger] text[i])) {
        Some(
            Seq::new(
                text.len() / 2,
                |i: int| (hex_value(text[2 * i]) * 16 + hex_value(text[2 * i + 1])) as u8,
            ),
        )
    } else {
        None
    }
}

/// `hex::decode` turns each pair of hexadecimal digits into one byte and
/// accepts both cases; it refuses a text of odd length and any other
/// character.
#[verifier::external_body]
fn decode_hex(text: &str) -> (bytes: Option<Vec<u8>>)
    ensures
        match bytes {
            Some(b) => hex_decoded(text@) == Some(b@),
            None => hex_decoded(text@) is None,
        },
{
    hex::decode(text).ok()
}

/// The state of the device in its life, from what its unit tells.
pub fn lifecycle_state(outcome: Result<TseInfo, Error>) -> (state: Result<LifecycleState, ReturnCode>)
    ensures
        state == match outcome {
            Ok(info) => Ok::<LifecycleState, ReturnCode>(LifecycleState::of(info.current_state)),
            Err(err) => Err::<LifecycleState, ReturnCode>(err.code()),
        },
{
    match outcome {
        Ok(info) => Ok(
            match info.current_state {
                TseStates::Uninitialized => LifecycleState::NotInitialized,
                TseStates::Initialized => LifecycleState::Active,
                TseStates::Terminated => LifecycleState::Disabled,
            },
        ),
        Err(err) => Err(code_of(err)),
    }
}

/// The texts of a list of certificates.
pub open spec fn texts_of(certificates: Seq<Base64>) -> Seq<String> {
    certificates.map_values(|c: Base64| c.0)
}

/// The certificates of the device in one text, a comma between each two.
pub fn certificate(outcome: Result<TseInfo, Error>) -> (text: Result<String, ReturnCode>)
    ensures
        match outcome {
            Ok(info) => text matches Ok(t) && t@ == comma_joined(texts_of(info.certificates_base64@)),
            Err(err) => text matches Err(code) && code == err.code(),
        },
{
    match outcome {
        Ok(info) => {
            let mut texts: Vec<String> = Vec::new();
            let mut i: usize = 0;
            while i < info.certificates_base64.len()
                invariant
                    i <= info.certificates_base64@.len(),
                    texts@ == texts_of(info.certificates_base64@).take(i as int),
                decreases info.certificates_base64@.len() - i,
            {
                texts.push(info.certificates_base64[i].0.clone());
                i = i + 1;
                assert(texts@ == texts_of(info.certificates_base64@).take(i as int));
            }
            assert(texts@ == texts_of(info.certificates_base64@));
            Ok(join_with_commas(texts.as_slice()))
        },
        Err(err) => Err(code_of(err)),
    }
}

/// The public key of a device, given what reading it as base64 came to: the
/// bytes of the key or, where it could not be read, an unknown failure.
pub fn key_from(decoded: Result<Vec<u8>, base64::DecodeError>) -> (key: Result<Vec<u8>, ReturnCode>)
    ensures
        match decoded {
            Ok(bytes) => key matches Ok(k) && k == bytes,
            Err(_) => key matches Err(code) && code == ReturnCode::Unknown,
        },
{
    match decoded {
        Ok(key) => Ok(key),
        Err(_) => Err(ReturnCode::Unknown),
    }
}

/// The public key of the device. A key that is no base64 text is an unknown
/// failure.
pub fn public_key(outcome: Result<TseInfo, Error>) -> (key: Result<Vec<u8>, ReturnCode>)
    ensures
        match outcome {
            Ok(info) => match base64_decoded(info.public_key_base64@) {
                Some(bytes) => key matches Ok(k) && k@ == bytes,
                None => key matches Err(code) && code == ReturnCode::Unknown,
            },
            Err(err) => key matches Err(code) && code == err.code(),
        },
{
    match outcome {
        Ok(info) => key_from(info.public_key_base64.decode()),
        Err(err) => Err(code_of(err)),
    }
}

/// The numbers of the transactions that are open on the device, each cut to
/// 32 bits.
pub fn open_transactions(outcome: Result<TseInfo, Error>) -> (numbers: Result<Vec<u32>, ReturnCode>)
    ensures
        match outcome {
            Ok(info) => {
                &&& numbers matches Ok(n)
                &&& n@.len() == info.current_started_transaction_numbers@.len()
                &&& forall|i: int|
                    0 <= i < n@.len() ==> n@[i] == info.current_started_transaction_numbers@[i] as u32
            },
            Err(err) => numbers matches Err(code) && code == err.code(),
        },
{
    match outcome {
        Ok(info) => {
            let mut numbers: Vec<u32> = Vec::new();
            let mut i: usize = 0;
            while i < info.current_started_transaction_numbers.len()
                invariant
                    i <= info.current_started_transaction_numbers@.len(),
                    numbers@.len() == i,
                    forall|j: int|
                        0 <= j < i ==> numbers@[j] == info.current_started_transaction_numbers@[j] as u32,
                decreases info.current_started_transaction_numbers@.len() - i,
            {
                numbers.push(info.current_started_transaction_numbers[i] as u32);
                i = i + 1;
            }
            Ok(numbers)
        },
        Err(err) => Err(code_of(err)),
    }
}

/// The number of signatures that the device has made, cut to 32 bits.
pub fn signature_counter(outcome: Result<TseInfo, Error>) -> (counter: Result<u32, ReturnCode>)
    ensures
        counter == match outcome {
            Ok(info) => Ok::<u32, ReturnCode>(info.current_number_of_signatures as u32),
            Err(err) => Err::<u32, ReturnCode>(err.code()),
        },
{
    match outcome {
        Ok(info) => Ok(info.current_number_of_signatures as u32),
        Err(err) => Err(code_of(err)),
    }
}

/// The name of the algorithm with which the device signs.
pub fn signature_algorithm(outcome: Result<TseInfo, Error>) -> (name: Result<String, ReturnCode>)
    ensures
        match outcome {
            Ok(info) => name matches Ok(n) && n@ == info.signature_algorithm@,
            Err(err) => name matches Err(code) && code == err.code(),
        },
{
    match outcome {
        Ok(info) => Ok(info.signature_algorithm),
        Err(err) => Err(code_of(err)),
    }
}

/// The format in which the device writes the time into its log.
pub fn log_time_format(outcome: Result<TseInfo, Error>) -> (format: Result<String, ReturnCode>)
    ensures
        match outcome {
            Ok(info) => format matches Ok(f) && f@ == info.log_time_format@,
            Err(err) => format matches Err(code) && code == err.code(),
        },
{
    match outcome {
        Ok(info) => Ok(info.log_time_format),
        Err(err) => Err(code_of(err)),
    }
}

/// The serial number of the device. The unit tells it in hexadecimal digits;
/// a serial number that is written otherwise is an unknown failure.
pub fn serial_number(outcome: Result<TseInfo, Error>) -> (serial: Result<Vec<u8>, ReturnCode>)
    ensures
        match outcome {
            Ok(info) => match hex_decoded(info.serial_number_octet@) {
                Some(bytes) => serial matches Ok(s) && s@ == bytes,
                None => serial matches Err(code) && code == ReturnCode::Unknown,
            },
            Err(err) => serial matches Err(code) && code == err.code(),
        },
{
    match outcome {
        Ok(info) => match decode_hex(info.serial_number_octet.as_str()) {
            Some(serial) => Ok(serial),
            None => Err(ReturnCode::Unknown),
        },
        Err(err) => Err(code_of(err)),
    }
}

/// The request that registers the cash register that the caller named.
pub fn register_client_id_request(client_id: &[u8], client_id_length: u32) -> (request:
    RegisterClientIdRequest)
    requires
        client_id_length <= client_id@.len(),
    ensures
        request.client_id@ == lossy_text(denoted(client_id@, client_id_length)),
{
    RegisterClientIdRequest { client_id: from_cstr(client_id, client_id_length) }
}

/// The return code of a registration: success on an answer; on a failure its
/// code, which is that of a client that is not registered where the unit
/// refused.
pub fn register_client_id_code(outcome: Result<RegisterClientIdResponse, Error>) -> (code: ReturnCode)
    ensures
        code == match outcome {
            Ok(_) => ReturnCode::ExecutionOk,
            Err(err) => failure_code(err, ReturnCode::ClientIdNotRegistered),
        },
{
    match outcome {
        Ok(_) => ReturnCode::ExecutionOk,
        Err(err) => code_of_failure(err, ReturnCode::ClientIdNotRegistered),
    }
}

/// The cash registers that the device knows, in one text, a comma between
/// each two. Where the unit refused, the failure is that the registered
/// clients cannot be retrieved.
pub fn registered_clients(outcome: Result<TseInfo, Error>) -> (clients: Result<String, ReturnCode>)
    ensures
        match outcome {
            Ok(info) => clients matches Ok(c) && c@ == comma_joined(info.current_client_ids@),
            Err(err) => clients matches Err(code) && code == failure_code(
                err,
                ReturnCode::CannotRetrieveRegisteredClientIds,
            ),
        },
{
    match outcome {
        Ok(info) => Ok(join_with_commas(info.current_client_ids.as_slice())),
        Err(err) => Err(code_of_failure(err, ReturnCode::CannotRetrieveRegisteredClientIds)),
    }
}

/// The return code of an operation that hands nothing back: success on an
/// answer, the code of the failure else.
pub fn done_code<T>(outcome: Result<T, Error>) -> (code: ReturnCode)
    ensures
        code == match outcome {
            Ok(_) => ReturnCode::ExecutionOk,
            Err(err) => err.code(),
        },
{
    match outcome {
        Ok(_) => ReturnCode::ExecutionOk,
        Err(err) => code_of(err),
    }
}

/// What follows on an attempt to get a configuration.
#[derive(Debug, Clone, Copy, PartialEq, Eq, Structural)]
pub enum LoadStep {
    /// The attempt failed: the function answers with this code.
    Fail(ReturnCode),
    /// There is a configuration: the log is to be set up next.
    ConfigureLogging,
}

/// What follows at the start of the process: a process without a device in
/// its configuration has found no configuration file; else the log is set up.
pub fn load_step(store: &ConfigStore) -> (step: LoadStep)
    ensures
        step == if store.configs@ == Map::<Seq<char>, ConfigView>::empty() {
            LoadStep::Fail(ReturnCode::ConfigFileNotFound)
        } else {
            LoadStep::ConfigureLogging
        },
{
    if !read_config(store) {
        LoadStep::Fail(ReturnCode::ConfigFileNotFound)
    } else {
        LoadStep::ConfigureLogging
    }
}

/// The return code that the outcome of setting up the log leads to.
pub open spec fn logging_code(logging: Result<(), crate::logging::Error>) -> ReturnCode {
    match logging {
        Ok(_) => ReturnCode::ExecutionOk,
        Err(crate::logging::Error::LoggerAlreadyConfigured) => ReturnCode::ExecutionOk,
        Err(_) => ReturnCode::Unknown,
    }
}

/// The return code that the outcome of setting up the log leads to.
pub fn code_of_logging(logging: Result<(), crate::logging::Error>) -> (code: ReturnCode)
    ensures
        code == logging_code(logging),
{
    match logging {
        Ok(_) => ReturnCode::ExecutionOk,
        Err(crate::logging::Error::LoggerAlreadyConfigured) => ReturnCode::ExecutionOk,
        Err(_) => ReturnCode::Unknown,
    }
}

} // verus!
