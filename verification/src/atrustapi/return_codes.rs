//! The numeric contract of the exported functions.
//!
//! Every exported operation answers with one signed 32-bit number. Zero is the
//! only number that reports success; each other number names one failure. The
//! table is fixed: a number never changes its meaning.

use vstd::prelude::*;
use vstd::std_specs::convert::FromSpec;
use vstd::std_specs::convert::TryFromSpec;
use vstd::string::StringExecFns;
use crate::text::decimal_string;
use crate::text::decimal_text;

verus! {

/// One outcome of an exported operation.
#[derive(Debug, Eq, PartialEq, Copy, Clone, Structural)]
pub enum ReturnCode {
    ExecutionOk,
    RetrieveLogMessageFailed,
    StorageFailure,
    UpdateTimeFailed,
    ParameterMismatch,
    IdNotFound,
    TransactionNumberNotFound,
    NoDataAvailable,
    TooManyRecords,
    StartTransactionFailed,
    UpdateTransactionFailed,
    FinishTransactionFailed,
    RestoreFailed,
    StoringInitDataFailed,
    ExportCertFailed,
    NoLogMessage,
    ReadingLogMessage,
    NoTransaction,
    SeApiNotInitialized,
    TimeNotSet,
    CertificateExpired,
    SecureElementDisabled,
    UserNotAuthorized,
    UserNotAuthenticated,
    DescriptionNotSetByManufacturer,
    DescriptionSetByManufacturer,
    ExportSerialNumbersFailed,
    GetMaxNumberOfClientsFailed,
    GetCurrentNumberOfClientsFailed,
    GetMaxNumberTransactionsFailed,
    GetCurrentNumberOfTransactionsFailed,
    GetSupportedUpdateVariantsFailed,
    DeleteStoredDataFailed,
    UnexportedStoredData,
    SigningSystemOperationDataFailed,
    UserIdNotManaged,
    DisableSecureElementFailed,
    ConfigValueNotFound,
    InvalidConfig,
    SuspendSecureElementFailed,
    UnsuspendSecureElementFailed,
    GetOpenTransactionsFailed,
    GetLifecycleStateFailed,
    GetTransactionCounterFailed,
    GetSignatureCounterFailed,
    GetTotalLogMemory,
    GetLogTimeFormat,
    ExportPublicKeyFailed,
    ExportCertificateFailed,
    TpmConnect,
    InvalidClientId,
    ClientIdNotRegistered,
    ClientIdRegistrationFailed,
    CannotRetrieveRegisteredClientIds,
    CorruptedRegisteredClientIds,
    CorruptedAppData,
    SetPinsFailed,
    SeAlreadyInitialized,
    GetSignatureAlgorithmFailed,
    AuthenticationFailed,
    UnblockFailed,
    MissingParameter,
    FunctionNotSupported,
    Io,
    TseTimeout,
    AllocationFailed,
    ConfigFileNotFound,
    SeCommunicationFailed,
    TseCommandDataInvalid,
    TseResponseDataInvalid,
    ErsAlreadyMapped,
    NoErs,
    TseUnknownError,
    StreamWrite,
    BufferTooSmall,
    NoSuchKey,
    NoKey,
    SeApiDeactivated,
    SeApiNotDeactivated,
    AtLoadNotCalled,
    SeIpcProtocolError,
    AtSetPinsFailed,
    SeNotProvisionedError,
    SeAlreadyProvisioned,
    SeInSecureState,
    Unknown,
    UnsupportedPremiumFeature,
    NotImplemented,
}

impl ReturnCode {
    /// The number under which the caller knows this outcome.
    pub open spec fn code(self) -> i32 {
        match self {
            ReturnCode::ExecutionOk => 0i32,
            ReturnCode::RetrieveLogMessageFailed => -5001i32,
            ReturnCode::StorageFailure => -5002i32,
            ReturnCode::UpdateTimeFailed => -5003i32,
            ReturnCode::ParameterMismatch => -5004i32,
            ReturnCode::IdNotFound => -5005i32,
            ReturnCode::TransactionNumberNotFound => -5006i32,
            ReturnCode::NoDataAvailable => -5007i32,
            ReturnCode::TooManyRecords => -5008i32,
            ReturnCode::StartTransactionFailed => -5009i32,
            ReturnCode::UpdateTransactionFailed => -5010i32,
            ReturnCode::FinishTransactionFailed => -5011i32,
            ReturnCode::RestoreFailed => -5012i32,
            ReturnCode::StoringInitDataFailed => -5013i32,
            ReturnCode::ExportCertFailed => -5014i32,
            ReturnCode::NoLogMessage => -5015i32,
            ReturnCode::ReadingLogMessage => -5016i32,
            ReturnCode::NoTransaction => -5017i32,
            ReturnCode::SeApiNotInitialized => -5018i32,
            ReturnCode::TimeNotSet => -5019i32,
            ReturnCode::CertificateExpired => -5020i32,
            ReturnCode::SecureElementDisabled => -5021i32,
            ReturnCode::UserNotAuthorized => -5022i32,
            ReturnCode::UserNotAuthenticated => -5023i32,
            ReturnCode::DescriptionNotSetByManufacturer => -5024i32,
            ReturnCode::DescriptionSetByManufacturer => -5025i32,
            ReturnCode::ExportSerialNumbersFailed => -5026i32,
            ReturnCode::GetMaxNumberOfClientsFailed => -5027i32,
            ReturnCode::GetCurrentNumberOfClientsFailed => -5028i32,
            ReturnCode::GetMaxNumberTransactionsFailed => -5029i32,
            ReturnCode::GetCurrentNumberOfTransactionsFailed => -5030i32,
            ReturnCode::GetSupportedUpdateVariantsFailed => -5031i32,
            ReturnCode::DeleteStoredDataFailed => -5032i32,
            ReturnCode::UnexportedStoredData => -5033i32,
            ReturnCode::SigningSystemOperationDataFailed => -5034i32,
            ReturnCode::UserIdNotManaged => -5035i32,
            ReturnCode::DisableSecureElementFailed => -5037i32,
            ReturnCode::ConfigValueNotFound => -5038i32,
            ReturnCode::InvalidConfig => -5039i32,
            ReturnCode::SuspendSecureElementFailed => -5040i32,
            ReturnCode::UnsuspendSecureElementFailed => -5041i32,
            ReturnCode::GetOpenTransactionsFailed => -5042i32,
            ReturnCode::GetLifecycleStateFailed => -5043i32,
            ReturnCode::GetTransactionCounterFailed => -5044i32,
            ReturnCode::GetSignatureCounterFailed => -5045i32,
            ReturnCode::GetTotalLogMemory => -5046i32,
            ReturnCode::GetLogTimeFormat => -5047i32,
            ReturnCode::ExportPublicKeyFailed => -5048i32,
            ReturnCode::ExportCertificateFailed => -5049i32,
            ReturnCode::TpmConnect => -5050i32,
            ReturnCode::InvalidClientId => -5051i32,
            ReturnCode::ClientIdNotRegistered => -5052i32,
            ReturnCode::ClientIdRegistrationFailed => -5053i32,
            ReturnCode::CannotRetrieveRegisteredClientIds => -5054i32,
            ReturnCode::CorruptedRegisteredClientIds => -5055i32,
            ReturnCode::CorruptedAppData => -5056i32,
            ReturnCode::SetPinsFailed => -5057i32,
            ReturnCode::SeAlreadyInitialized => -5058i32,
            ReturnCode::GetSignatureAlgorithmFailed => -5059i32,
            ReturnCode::AuthenticationFailed => -4000i32,
            ReturnCode::UnblockFailed => -4001i32,
            ReturnCode::MissingParameter => -3000i32,
            ReturnCode::FunctionNotSupported => -3001i32,
            ReturnCode::Io => -3002i32,
            ReturnCode::TseTimeout => -3003i32,
            ReturnCode::AllocationFailed => -3004i32,
            ReturnCode::ConfigFileNotFound => -3005i32,
            ReturnCode::SeCommunicationFailed => -3006i32,
            ReturnCode::TseCommandDataInvalid => -3007i32,
            ReturnCode::TseResponseDataInvalid => -3008i32,
            ReturnCode::ErsAlreadyMapped => -3009i32,
            ReturnCode::NoErs => -3010i32,
            ReturnCode::TseUnknownError => -3011i32,
            ReturnCode::StreamWrite => -3012i32,
            ReturnCode::BufferTooSmall => -3013i32,
            ReturnCode::NoSuchKey => -3014i32,
            ReturnCode::NoKey => -3015i32,
            ReturnCode::SeApiDeactivated => -3016i32,
            ReturnCode::SeApiNotDeactivated => -3017i32,
            ReturnCode::AtLoadNotCalled => -3018i32,
            ReturnCode::SeIpcProtocolError => -3019i32,
            ReturnCode::AtSetPinsFailed => -3020i32,
            ReturnCode::SeNotProvisionedError => -3021i32,
            ReturnCode::SeAlreadyProvisioned => -3022i32,
            ReturnCode::SeInSecureState => -3023i32,
            ReturnCode::Unknown => -3100i32,
            ReturnCode::UnsupportedPremiumFeature => -6000i32,
            ReturnCode::NotImplemented => -6001i32,
        }
    }

    /// The symbolic name of this outcome.
    pub open spec fn name(self) -> Seq<char> {
        match self {
            ReturnCode::ExecutionOk => "EXECUTION_OK"@,
            ReturnCode::RetrieveLogMessageFailed => "ERROR_RETRIEVE_LOG_MESSAGE_FAILED"@,
            ReturnCode::StorageFailure => "ERROR_STORAGE_FAILURE"@,
            ReturnCode::UpdateTimeFailed => "ERROR_UPDATE_TIME_FAILED"@,
            ReturnCode::ParameterMismatch => "ERROR_PARAMETER_MISMATCH"@,
            ReturnCode::IdNotFound => "ERROR_ID_NOT_FOUND"@,
            ReturnCode::TransactionNumberNotFound => "ERROR_TRANSACTION_NUMBER_NOT_FOUND"@,
            ReturnCode::NoDataAvailable => "ERROR_NO_DATA_AVAILABLE"@,
            ReturnCode::TooManyRecords => "ERROR_TOO_MANY_RECORDS"@,
            ReturnCode::StartTransactionFailed => "ERROR_START_TRANSACTION_FAILED"@,
            ReturnCode::UpdateTransactionFailed => "ERROR_UPDATE_TRANSACTION_FAILED"@,
            ReturnCode::FinishTransactionFailed => "ERROR_FINISH_TRANSACTION_FAILED"@,
            ReturnCode::RestoreFailed => "ERROR_RESTORE_FAILED"@,
            ReturnCode::StoringInitDataFailed => "ERROR_STORING_INIT_DATA_FAILED"@,
            ReturnCode::ExportCertFailed => "ERROR_EXPORT_CERT_FAILED"@,
            ReturnCode::NoLogMessage => "ERROR_NO_LOG_MESSAGE"@,
            ReturnCode::ReadingLogMessage => "ERROR_READING_LOG_MESSAGE"@,
            ReturnCode::NoTransaction => "ERROR_NO_TRANSACTION"@,
            ReturnCode::SeApiNotInitialized => "ERROR_SE_API_NOT_INITIALIZED"@,
            ReturnCode::TimeNotSet => "ERROR_TIME_NOT_SET"@,
            ReturnCode::CertificateExpired => "ERROR_CERTIFICATE_EXPIRED"@,
            ReturnCode::SecureElementDisabled => "ERROR_SECURE_ELEMENT_DISABLED"@,
            ReturnCode::UserNotAuthorized => "ERROR_USER_NOT_AUTHORIZED"@,
            ReturnCode::UserNotAuthenticated => "ERROR_USER_NOT_AUTHENTICATED"@,
            ReturnCode::DescriptionNotSetByManufacturer => "ERROR_DESCRIPTION_NOT_SET_BY_MANUFACTURER"@,
            ReturnCode::DescriptionSetByManufacturer => "ERROR_DESCRIPTION_SET_BY_MANUFACTURER"@,
            ReturnCode::ExportSerialNumbersFailed => "ERROR_EXPORT_SERIAL_NUMBERS_FAILED"@,
            ReturnCode::GetMaxNumberOfClientsFailed => "ERROR_GET_MAX_NUMBER_OF_CLIENTS_FAILED"@,
            ReturnCode::GetCurrentNumberOfClientsFailed => "ERROR_GET_CURRENT_NUMBER_OF_CLIENTS_FAILED"@,
            ReturnCode::GetMaxNumberTransactionsFailed => "ERROR_GET_MAX_NUMBER_TRANSACTIONS_FAILED"@,
            ReturnCode::GetCurrentNumberOfTransactionsFailed => "ERROR_GET_CURRENT_NUMBER_OF_TRANSACTIONS_FAILED"@,
            ReturnCode::GetSupportedUpdateVariantsFailed => "ERROR_GET_SUPPORTED_UPDATE_VARIANTS_FAILED"@,
            ReturnCode::DeleteStoredDataFailed => "ERROR_DELETE_STORED_DATA_FAILED"@,
            ReturnCode::UnexportedStoredData => "ERROR_UNEXPORTED_STORED_DATA"@,
            ReturnCode::SigningSystemOperationDataFailed => "ERROR_SIGNING_SYSTEM_OPERATION_DATA_FAILED"@,
            ReturnCode::UserIdNotManaged => "ERROR_USER_ID_NOT_MANAGED"@,
            ReturnCode::DisableSecureElementFailed => "ERROR_DISABLE_SECURE_ELEMENT_FAILED"@,
            ReturnCode::ConfigValueNotFound => "ERROR_CONFIG_VALUE_NOT_FOUND"@,
            ReturnCode::InvalidConfig => "ERROR_INVALID_CONFIG"@,
            ReturnCode::SuspendSecureElementFailed => "ERROR_SUSPEND_SECURE_ELEMENT_FAILED"@,
            ReturnCode::UnsuspendSecureElementFailed => "ERROR_UNSUSPEND_SECURE_ELEMENT_FAILED"@,
            ReturnCode::GetOpenTransactionsFailed => "ERROR_GET_OPEN_TRANSACTIONS_FAILED"@,
            ReturnCode::GetLifecycleStateFailed => "ERROR_GET_LIFECYCLE_STATE_FAILED"@,
            ReturnCode::GetTransactionCounterFailed => "ERROR_GET_TRANSACTION_COUNTER_FAILED"@,
            ReturnCode::GetSignatureCounterFailed => "ERROR_GET_SIGNATURE_COUNTER_FAILED"@,
            ReturnCode::GetTotalLogMemory => "ERROR_GET_TOTAL_LOG_MEMORY"@,
            ReturnCode::GetLogTimeFormat => "ERROR_GET_LOG_TIME_FORMAT"@,
            ReturnCode::ExportPublicKeyFailed => "ERROR_EXPORT_PUBLIC_KEY_FAILED"@,
            ReturnCode::ExportCertificateFailed => "ERROR_EXPORT_CERTIFICATE_FAILED"@,
            ReturnCode::TpmConnect => "ERROR_TPM_CONNECT"@,
            ReturnCode::InvalidClientId => "ERROR_INVALID_CLIENT_ID"@,
            ReturnCode::ClientIdNotRegistered => "ERROR_CLIENT_ID_NOT_REGISTERED"@,
            ReturnCode::ClientIdRegistrationFailed => "ERROR_CLIENT_ID_REGISTRATION_FAILED"@,
            ReturnCode::CannotRetrieveRegisteredClientIds => "ERROR_CANNOT_RETRIEVE_REGISTERED_CLIENT_IDS"@,
            ReturnCode::CorruptedRegisteredClientIds => "ERROR_CORRUPTED_REGISTERED_CLIENT_IDS"@,
            ReturnCode::CorruptedAppData => "ERROR_CORRUPTED_APP_DATA"@,
            ReturnCode::SetPinsFailed => "ERROR_SET_PINS_FAILED"@,
            ReturnCode::SeAlreadyInitialized => "ERROR_SE_ALREADY_INITIALIZED"@,
            ReturnCode::GetSignatureAlgorithmFailed => "ERROR_GET_SIGNATURE_ALGORITHM_FAILED"@,
            ReturnCode::AuthenticationFailed => "ERROR_AUTHENTICATION_FAILED"@,
            ReturnCode::UnblockFailed => "ERROR_UNBLOCK_FAILED"@,
            ReturnCode::MissingParameter => "ERROR_MISSING_PARAMETER"@,
            ReturnCode::FunctionNotSupported => "ERROR_FUNCTION_NOT_SUPPORTED"@,
            ReturnCode::Io => "ERROR_IO"@,
            ReturnCode::TseTimeout => "ERROR_TSE_TIMEOUT"@,
            ReturnCode::AllocationFailed => "ERROR_ALLOCATION_FAILED"@,
            ReturnCode::ConfigFileNotFound => "ERROR_CONFIG_FILE_NOT_FOUND"@,
            ReturnCode::SeCommunicationFailed => "ERROR_SE_COMMUNICATION_FAILED"@,
            ReturnCode::TseCommandDataInvalid => "ERROR_TSE_COMMAND_DATA_INVALID"@,
            ReturnCode::TseResponseDataInvalid => "ERROR_TSE_RESPONSE_DATA_INVALID"@,
            ReturnCode::ErsAlreadyMapped => "ERROR_ERS_ALREADY_MAPPED"@,
            ReturnCode::NoErs => "ERROR_NO_ERS"@,
            ReturnCode::TseUnknownError => "ERROR_TSE_UNKNOWN_ERROR"@,
            ReturnCode::StreamWrite => "ERROR_STREAM_WRITE"@,
            ReturnCode::BufferTooSmall => "ERROR_BUFFER_TOO_SMALL"@,
            ReturnCode::NoSuchKey => "ERROR_NO_SUCH_KEY"@,
            ReturnCode::NoKey => "ERROR_NO_KEY"@,
            ReturnCode::SeApiDeactivated => "ERROR_SE_API_DEACTIVATED"@,
            ReturnCode::SeApiNotDeactivated => "ERROR_SE_API_NOT_DEACTIVATED"@,
            ReturnCode::AtLoadNotCalled => "ERROR_AT_LOAD_NOT_CALLED"@,
            ReturnCode::SeIpcProtocolError => "ERROR_SE_IPC_PROTOCOL_ERROR"@,
            ReturnCode::AtSetPinsFailed => "ERROR_AT_SET_PINS_FAILED"@,
            ReturnCode::SeNotProvisionedError => "ERROR_SE_NOT_PROVISIONED_ERROR"@,
            ReturnCode::SeAlreadyProvisioned => "ERROR_SE_ALREADY_PROVISIONED"@,
            ReturnCode::SeInSecureState => "ERROR_SE_IN_SECURE_STATE"@,
            ReturnCode::Unknown => "ERROR_UNKNOWN"@,
            ReturnCode::UnsupportedPremiumFeature => "ERROR_UNSUPPORTED_PREMIUM_FEATURE"@,
            ReturnCode::NotImplemented => "ERROR_NOT_IMPLEMENTED"@,
        }
    }

    /// The text of this outcome in a log line: the name, then the number in
    /// round brackets.
    pub open spec fn label(self) -> Seq<char> {
        self.name() + " ("@ + decimal_text(self.code() as int) + ")"@
    }

    /// Whether this outcome reports success.
    pub open spec fn is_success(self) -> bool {
        self == ReturnCode::ExecutionOk
    }

    /// The outcome that the number `code` stands for, if it stands for one.
    pub open spec fn of_code(code: i32) -> Option<ReturnCode> {
        if exists|c: ReturnCode| c.code() == code {
            Some(choose|c: ReturnCode| c.code() == code)
        } else {
            None
        }
    }

    /// The number under which the caller knows this outcome.
    pub fn value(self) -> (n: i32)
        ensures
            n == self.code(),
    {
        match self {
            ReturnCode::ExecutionOk => 0,
            ReturnCode::RetrieveLogMessageFailed => -5001,
            ReturnCode::StorageFailure => -5002,
            ReturnCode::UpdateTimeFailed => -5003,
            ReturnCode::ParameterMismatch => -5004,
            ReturnCode::IdNotFound => -5005,
            ReturnCode::TransactionNumberNotFound => -5006,
            ReturnCode::NoDataAvailable => -5007,
            ReturnCode::TooManyRecords => -5008,
            ReturnCode::StartTransactionFailed => -5009,
            ReturnCode::UpdateTransactionFailed => -5010,
            ReturnCode::FinishTransactionFailed => -5011,
            ReturnCode::RestoreFailed => -5012,
            ReturnCode::StoringInitDataFailed => -5013,
            ReturnCode::ExportCertFailed => -5014,
            ReturnCode::NoLogMessage => -5015,
            ReturnCode::ReadingLogMessage => -5016,
            ReturnCode::NoTransaction => -5017,
            ReturnCode::SeApiNotInitialized => -5018,
            ReturnCode::TimeNotSet => -5019,
            ReturnCode::CertificateExpired => -5020,
            ReturnCode::SecureElementDisabled => -5021,
            ReturnCode::UserNotAuthorized => -5022,
            ReturnCode::UserNotAuthenticated => -5023,
            ReturnCode::DescriptionNotSetByManufacturer => -5024,
            ReturnCode::DescriptionSetByManufacturer => -5025,
            ReturnCode::ExportSerialNumbersFailed => -5026,
            ReturnCode::GetMaxNumberOfClientsFailed => -5027,
            ReturnCode::GetCurrentNumberOfClientsFailed => -5028,
            ReturnCode::GetMaxNumberTransactionsFailed => -5029,
            ReturnCode::GetCurrentNumberOfTransactionsFailed => -5030,
            ReturnCode::GetSupportedUpdateVariantsFailed => -5031,
            ReturnCode::DeleteStoredDataFailed => -5032,
            ReturnCode::UnexportedStoredData => -5033,
            ReturnCode::SigningSystemOperationDataFailed => -5034,
            ReturnCode::UserIdNotManaged => -5035,
            ReturnCode::DisableSecureElementFailed => -5037,
            ReturnCode::ConfigValueNotFound => -5038,
            ReturnCode::InvalidConfig => -5039,
            ReturnCode::SuspendSecureElementFailed => -5040,
            ReturnCode::UnsuspendSecureElementFailed => -5041,
            ReturnCode::GetOpenTransactionsFailed => -5042,
            ReturnCode::GetLifecycleStateFailed => -5043,
            ReturnCode::GetTransactionCounterFailed => -5044,
            ReturnCode::GetSignatureCounterFailed => -5045,
            ReturnCode::GetTotalLogMemory => -5046,
            ReturnCode::GetLogTimeFormat => -5047,
            ReturnCode::ExportPublicKeyFailed => -5048,
            ReturnCode::ExportCertificateFailed => -5049,
            ReturnCode::TpmConnect => -5050,
            ReturnCode::InvalidClientId => -5051,
            ReturnCode::ClientIdNotRegistered => -5052,
            ReturnCode::ClientIdRegistrationFailed => -5053,
            ReturnCode::CannotRetrieveRegisteredClientIds => -5054,
            ReturnCode::CorruptedRegisteredClientIds => -5055,
            ReturnCode::CorruptedAppData => -5056,
            ReturnCode::SetPinsFailed => -5057,
            ReturnCode::SeAlreadyInitialized => -5058,
            ReturnCode::GetSignatureAlgorithmFailed => -5059,
            ReturnCode::AuthenticationFailed => -4000,
            ReturnCode::UnblockFailed => -4001,
            ReturnCode::MissingParameter => -3000,
            ReturnCode::FunctionNotSupported => -3001,
            ReturnCode::Io => -3002,
            ReturnCode::TseTimeout => -3003,
            ReturnCode::AllocationFailed => -3004,
            ReturnCode::ConfigFileNotFound => -3005,
            ReturnCode::SeCommunicationFailed => -3006,
            ReturnCode::TseCommandDataInvalid => -3007,
            ReturnCode::TseResponseDataInvalid => -3008,
            ReturnCode::ErsAlreadyMapped => -3009,
            ReturnCode::NoErs => -3010,
            ReturnCode::TseUnknownError => -3011,
            ReturnCode::StreamWrite => -3012,
            ReturnCode::BufferTooSmall => -3013,
            ReturnCode::NoSuchKey => -3014,
            ReturnCode::NoKey => -3015,
            ReturnCode::SeApiDeactivated => -3016,
            ReturnCode::SeApiNotDeactivated => -3017,
            ReturnCode::AtLoadNotCalled => -3018,
            ReturnCode::SeIpcProtocolError => -3019,
            ReturnCode::AtSetPinsFailed => -3020,
            ReturnCode::SeNotProvisionedError => -3021,
            ReturnCode::SeAlreadyProvisioned => -3022,
            ReturnCode::SeInSecureState => -3023,
            ReturnCode::Unknown => -3100,
            ReturnCode::UnsupportedPremiumFeature => -6000,
            ReturnCode::NotImplemented => -6001,
        }
    }

    /// Whether this outcome reports success.
    pub fn succeeded(self) -> (success: bool)
        ensures
            success == self.is_success(),
    {
        self.value() == 0
    }

    /// The symbolic name of this outcome.
    pub fn as_str(self) -> (s: &'static str)
        ensures
            s@ == self.name(),
    {
        match self {
            ReturnCode::ExecutionOk => "EXECUTION_OK",
            ReturnCode::RetrieveLogMessageFailed => "ERROR_RETRIEVE_LOG_MESSAGE_FAILED",
            ReturnCode::StorageFailure => "ERROR_STORAGE_FAILURE",
            ReturnCode::UpdateTimeFailed => "ERROR_UPDATE_TIME_FAILED",
            ReturnCode::ParameterMismatch => "ERROR_PARAMETER_MISMATCH",
            ReturnCode::IdNotFound => "ERROR_ID_NOT_FOUND",
            ReturnCode::TransactionNumberNotFound => "ERROR_TRANSACTION_NUMBER_NOT_FOUND",
            ReturnCode::NoDataAvailable => "ERROR_NO_DATA_AVAILABLE",
            ReturnCode::TooManyRecords => "ERROR_TOO_MANY_RECORDS",
            ReturnCode::StartTransactionFailed => "ERROR_START_TRANSACTION_FAILED",
            ReturnCode::UpdateTransactionFailed => "ERROR_UPDATE_TRANSACTION_FAILED",
            ReturnCode::FinishTransactionFailed => "ERROR_FINISH_TRANSACTION_FAILED",
            ReturnCode::RestoreFailed => "ERROR_RESTORE_FAILED",
            ReturnCode::StoringInitDataFailed => "ERROR_STORING_INIT_DATA_FAILED",
            ReturnCode::ExportCertFailed => "ERROR_EXPORT_CERT_FAILED",
            ReturnCode::NoLogMessage => "ERROR_NO_LOG_MESSAGE",
            ReturnCode::ReadingLogMessage => "ERROR_READING_LOG_MESSAGE",
            ReturnCode::NoTransaction => "ERROR_NO_TRANSACTION",
            ReturnCode::SeApiNotInitialized => "ERROR_SE_API_NOT_INITIALIZED",
            ReturnCode::TimeNotSet => "ERROR_TIME_NOT_SET",
            ReturnCode::CertificateExpired => "ERROR_CERTIFICATE_EXPIRED",
            ReturnCode::SecureElementDisabled => "ERROR_SECURE_ELEMENT_DISABLED",
            ReturnCode::UserNotAuthorized => "ERROR_USER_NOT_AUTHORIZED",
            ReturnCode::UserNotAuthenticated => "ERROR_USER_NOT_AUTHENTICATED",
            ReturnCode::DescriptionNotSetByManufacturer => "ERROR_DESCRIPTION_NOT_SET_BY_MANUFACTURER",
            ReturnCode::DescriptionSetByManufacturer => "ERROR_DESCRIPTION_SET_BY_MANUFACTURER",
            ReturnCode::ExportSerialNumbersFailed => "ERROR_EXPORT_SERIAL_NUMBERS_FAILED",
            ReturnCode::GetMaxNumberOfClientsFailed => "ERROR_GET_MAX_NUMBER_OF_CLIENTS_FAILED",
            ReturnCode::GetCurrentNumberOfClientsFailed => "ERROR_GET_CURRENT_NUMBER_OF_CLIENTS_FAILED",
            ReturnCode::GetMaxNumberTransactionsFailed => "ERROR_GET_MAX_NUMBER_TRANSACTIONS_FAILED",
            ReturnCode::GetCurrentNumberOfTransactionsFailed => "ERROR_GET_CURRENT_NUMBER_OF_TRANSACTIONS_FAILED",
            ReturnCode::GetSupportedUpdateVariantsFailed => "ERROR_GET_SUPPORTED_UPDATE_VARIANTS_FAILED",
            ReturnCode::DeleteStoredDataFailed => "ERROR_DELETE_STORED_DATA_FAILED",
            ReturnCode::UnexportedStoredData => "ERROR_UNEXPORTED_STORED_DATA",
            ReturnCode::SigningSystemOperationDataFailed => "ERROR_SIGNING_SYSTEM_OPERATION_DATA_FAILED",
            ReturnCode::UserIdNotManaged => "ERROR_USER_ID_NOT_MANAGED",
            ReturnCode::DisableSecureElementFailed => "ERROR_DISABLE_SECURE_ELEMENT_FAILED",
            ReturnCode::ConfigValueNotFound => "ERROR_CONFIG_VALUE_NOT_FOUND",
            ReturnCode::InvalidConfig => "ERROR_INVALID_CONFIG",
            ReturnCode::SuspendSecureElementFailed => "ERROR_SUSPEND_SECURE_ELEMENT_FAILED",
            ReturnCode::UnsuspendSecureElementFailed => "ERROR_UNSUSPEND_SECURE_ELEMENT_FAILED",
            ReturnCode::GetOpenTransactionsFailed => "ERROR_GET_OPEN_TRANSACTIONS_FAILED",
            ReturnCode::GetLifecycleStateFailed => "ERROR_GET_LIFECYCLE_STATE_FAILED",
            ReturnCode::GetTransactionCounterFailed => "ERROR_GET_TRANSACTION_COUNTER_FAILED",
            ReturnCode::GetSignatureCounterFailed => "ERROR_GET_SIGNATURE_COUNTER_FAILED",
            ReturnCode::GetTotalLogMemory => "ERROR_GET_TOTAL_LOG_MEMORY",
            ReturnCode::GetLogTimeFormat => "ERROR_GET_LOG_TIME_FORMAT",
            ReturnCode::ExportPublicKeyFailed => "ERROR_EXPORT_PUBLIC_KEY_FAILED",
            ReturnCode::ExportCertificateFailed => "ERROR_EXPORT_CERTIFICATE_FAILED",
            ReturnCode::TpmConnect => "ERROR_TPM_CONNECT",
            ReturnCode::InvalidClientId => "ERROR_INVALID_CLIENT_ID",
            ReturnCode::ClientIdNotRegistered => "ERROR_CLIENT_ID_NOT_REGISTERED",
            ReturnCode::ClientIdRegistrationFailed => "ERROR_CLIENT_ID_REGISTRATION_FAILED",
            ReturnCode::CannotRetrieveRegisteredClientIds => "ERROR_CANNOT_RETRIEVE_REGISTERED_CLIENT_IDS",
            ReturnCode::CorruptedRegisteredClientIds => "ERROR_CORRUPTED_REGISTERED_CLIENT_IDS",
            ReturnCode::CorruptedAppData => "ERROR_CORRUPTED_APP_DATA",
            ReturnCode::SetPinsFailed => "ERROR_SET_PINS_FAILED",
            ReturnCode::SeAlreadyInitialized => "ERROR_SE_ALREADY_INITIALIZED",
            ReturnCode::GetSignatureAlgorithmFailed => "ERROR_GET_SIGNATURE_ALGORITHM_FAILED",
            ReturnCode::AuthenticationFailed => "ERROR_AUTHENTICATION_FAILED",
            ReturnCode::UnblockFailed => "ERROR_UNBLOCK_FAILED",
            ReturnCode::MissingParameter => "ERROR_MISSING_PARAMETER",
            ReturnCode::FunctionNotSupported => "ERROR_FUNCTION_NOT_SUPPORTED",
            ReturnCode::Io => "ERROR_IO",
            ReturnCode::TseTimeout => "ERROR_TSE_TIMEOUT",
            ReturnCode::AllocationFailed => "ERROR_ALLOCATION_FAILED",
            ReturnCode::ConfigFileNotFound => "ERROR_CONFIG_FILE_NOT_FOUND",
            ReturnCode::SeCommunicationFailed => "ERROR_SE_COMMUNICATION_FAILED",
            ReturnCode::TseCommandDataInvalid => "ERROR_TSE_COMMAND_DATA_INVALID",
            ReturnCode::TseResponseDataInvalid => "ERROR_TSE_RESPONSE_DATA_INVALID",
            ReturnCode::ErsAlreadyMapped => "ERROR_ERS_ALREADY_MAPPED",
            ReturnCode::NoErs => "ERROR_NO_ERS",
            ReturnCode::TseUnknownError => "ERROR_TSE_UNKNOWN_ERROR",
            ReturnCode::StreamWrite => "ERROR_STREAM_WRITE",
            ReturnCode::BufferTooSmall => "ERROR_BUFFER_TOO_SMALL",
            ReturnCode::NoSuchKey => "ERROR_NO_SUCH_KEY",
            ReturnCode::NoKey => "ERROR_NO_KEY",
            ReturnCode::SeApiDeactivated => "ERROR_SE_API_DEACTIVATED",
            ReturnCode::SeApiNotDeactivated => "ERROR_SE_API_NOT_DEACTIVATED",
            ReturnCode::AtLoadNotCalled => "ERROR_AT_LOAD_NOT_CALLED",
            ReturnCode::SeIpcProtocolError => "ERROR_SE_IPC_PROTOCOL_ERROR",
            ReturnCode::AtSetPinsFailed => "ERROR_AT_SET_PINS_FAILED",
            ReturnCode::SeNotProvisionedError => "ERROR_SE_NOT_PROVISIONED_ERROR",
            ReturnCode::SeAlreadyProvisioned => "ERROR_SE_ALREADY_PROVISIONED",
            ReturnCode::SeInSecureState => "ERROR_SE_IN_SECURE_STATE",
            ReturnCode::Unknown => "ERROR_UNKNOWN",
            ReturnCode::UnsupportedPremiumFeature => "ERROR_UNSUPPORTED_PREMIUM_FEATURE",
            ReturnCode::NotImplemented => "ERROR_NOT_IMPLEMENTED",
        }
    }

    /// The name and the number of this outcome, as in `EXECUTION_OK (0)`.
    pub fn to_string(&self) -> (s: String)
        ensures
            s@ == self.label(),
    {
        let mut s = String::from_str(self.as_str());
        s.append(" (");
        let digits = decimal_string(self.value());
        s.append(digits.as_str());
        s.append(")");
        s
    }
}

impl From<ReturnCode> for i32 {
    fn from(code: ReturnCode) -> (n: i32) {
        code.value()
    }
}

impl vstd::std_specs::convert::FromSpecImpl<ReturnCode> for i32 {
    open spec fn obeys_from_spec() -> bool {
        true
    }

    open spec fn from_spec(code: ReturnCode) -> i32 {
        code.code()
    }
}

impl TryFrom<i32> for ReturnCode {
    type Error = i32;

    /// Reads a number back into its outcome. A number outside the table comes
    /// back as the error.
    fn try_from(code: i32) -> (r: Result<ReturnCode, i32>) {
        let r = match code {
            0 => Ok(ReturnCode::ExecutionOk),
            -5001 => Ok(ReturnCode::RetrieveLogMessageFailed),
            -5002 => Ok(ReturnCode::StorageFailure),
            -5003 => Ok(ReturnCode::UpdateTimeFailed),
            -5004 => Ok(ReturnCode::ParameterMismatch),
            -5005 => Ok(ReturnCode::IdNotFound),
            -5006 => Ok(ReturnCode::TransactionNumberNotFound),
            -5007 => Ok(ReturnCode::NoDataAvailable),
            -5008 => Ok(ReturnCode::TooManyRecords),
            -5009 => Ok(ReturnCode::StartTransactionFailed),
            -5010 => Ok(ReturnCode::UpdateTransactionFailed),
            -5011 => Ok(ReturnCode::FinishTransactionFailed),
            -5012 => Ok(ReturnCode::RestoreFailed),
            -5013 => Ok(ReturnCode::StoringInitDataFailed),
            -5014 => Ok(ReturnCode::ExportCertFailed),
            -5015 => Ok(ReturnCode::NoLogMessage),
            -5016 => Ok(ReturnCode::ReadingLogMessage),
            -5017 => Ok(ReturnCode::NoTransaction),
            -5018 => Ok(ReturnCode::SeApiNotInitialized),
            -5019 => Ok(ReturnCode::TimeNotSet),
            -5020 => Ok(ReturnCode::CertificateExpired),
            -5021 => Ok(ReturnCode::SecureElementDisabled),
            -5022 => Ok(ReturnCode::UserNotAuthorized),
            -5023 => Ok(ReturnCode::UserNotAuthenticated),
            -5024 => Ok(ReturnCode::DescriptionNotSetByManufacturer),
            -5025 => Ok(ReturnCode::DescriptionSetByManufacturer),
            -5026 => Ok(ReturnCode::ExportSerialNumbersFailed),
            -5027 => Ok(ReturnCode::GetMaxNumberOfClientsFailed),
            -5028 => Ok(ReturnCode::GetCurrentNumberOfClientsFailed),
            -5029 => Ok(ReturnCode::GetMaxNumberTransactionsFailed),
            -5030 => Ok(ReturnCode::GetCurrentNumberOfTransactionsFailed),
            -5031 => Ok(ReturnCode::GetSupportedUpdateVariantsFailed),
            -5032 => Ok(ReturnCode::DeleteStoredDataFailed),
            -5033 => Ok(ReturnCode::UnexportedStoredData),
            -5034 => Ok(ReturnCode::SigningSystemOperationDataFailed),
            -5035 => Ok(ReturnCode::UserIdNotManaged),
            -5037 => Ok(ReturnCode::DisableSecureElementFailed),
            -5038 => Ok(ReturnCode::ConfigValueNotFound),
            -5039 => Ok(ReturnCode::InvalidConfig),
            -5040 => Ok(ReturnCode::SuspendSecureElementFailed),
            -5041 => Ok(ReturnCode::UnsuspendSecureElementFailed),
            -5042 => Ok(ReturnCode::GetOpenTransactionsFailed),
            -5043 => Ok(ReturnCode::GetLifecycleStateFailed),
            -5044 => Ok(ReturnCode::GetTransactionCounterFailed),
            -5045 => Ok(ReturnCode::GetSignatureCounterFailed),
            -5046 => Ok(ReturnCode::GetTotalLogMemory),
            -5047 => Ok(ReturnCode::GetLogTimeFormat),
            -5048 => Ok(ReturnCode::ExportPublicKeyFailed),
            -5049 => Ok(ReturnCode::ExportCertificateFailed),
            -5050 => Ok(ReturnCode::TpmConnect),
            -5051 => Ok(ReturnCode::InvalidClientId),
            -5052 => Ok(ReturnCode::ClientIdNotRegistered),
            -5053 => Ok(ReturnCode::ClientIdRegistrationFailed),
            -5054 => Ok(ReturnCode::CannotRetrieveRegisteredClientIds),
            -5055 => Ok(ReturnCode::CorruptedRegisteredClientIds),
            -5056 => Ok(ReturnCode::CorruptedAppData),
            -5057 => Ok(ReturnCode::SetPinsFailed),
            -5058 => Ok(ReturnCode::SeAlreadyInitialized),
            -5059 => Ok(ReturnCode::GetSignatureAlgorithmFailed),
            -4000 => Ok(ReturnCode::AuthenticationFailed),
            -4001 => Ok(ReturnCode::UnblockFailed),
            -3000 => Ok(ReturnCode::MissingParameter),
            -3001 => Ok(ReturnCode::FunctionNotSupported),
            -3002 => Ok(ReturnCode::Io),
            -3003 => Ok(ReturnCode::TseTimeout),
            -3004 => Ok(ReturnCode::AllocationFailed),
            -3005 => Ok(ReturnCode::ConfigFileNotFound),
            -3006 => Ok(ReturnCode::SeCommunicationFailed),
            -3007 => Ok(ReturnCode::TseCommandDataInvalid),
            -3008 => Ok(ReturnCode::TseResponseDataInvalid),
            -3009 => Ok(ReturnCode::ErsAlreadyMapped),
            -3010 => Ok(ReturnCode::NoErs),
            -3011 => Ok(ReturnCode::TseUnknownError),
            -3012 => Ok(ReturnCode::StreamWrite),
            -3013 => Ok(ReturnCode::BufferTooSmall),
            -3014 => Ok(ReturnCode::NoSuchKey),
            -3015 => Ok(ReturnCode::NoKey),
            -3016 => Ok(ReturnCode::SeApiDeactivated),
            -3017 => Ok(ReturnCode::SeApiNotDeactivated),
            -3018 => Ok(ReturnCode::AtLoadNotCalled),
            -3019 => Ok(ReturnCode::SeIpcProtocolError),
            -3020 => Ok(ReturnCode::AtSetPinsFailed),
            -3021 => Ok(ReturnCode::SeNotProvisionedError),
            -3022 => Ok(ReturnCode::SeAlreadyProvisioned),
            -3023 => Ok(ReturnCode::SeInSecureState),
            -3100 => Ok(ReturnCode::Unknown),
            -6000 => Ok(ReturnCode::UnsupportedPremiumFeature),
            -6001 => Ok(ReturnCode::NotImplemented),
            _ => Err(code),
        };
        proof {
            match r {
                Ok(c) => {
                    assert(c.code() == code);
                    lemma_code_is_injective(choose|d: ReturnCode| d.code() == code, c);
                },
                Err(_) => {
                    assert forall|c: ReturnCode| c.code() != code by {}
                },
            }
        }
        r
    }
}

impl vstd::std_specs::convert::TryFromSpecImpl<i32> for ReturnCode {
    open spec fn obeys_try_from_spec() -> bool {
        true
    }

    open spec fn try_from_spec(code: i32) -> Result<ReturnCode, i32> {
        match ReturnCode::of_code(code) {
            Some(c) => Ok(c),
            None => Err(code),
        }
    }
}

/// Two outcomes with the same number are the same outcome.
pub proof fn lemma_code_is_injective(a: ReturnCode, b: ReturnCode)
    requires
        a.code() == b.code(),
    ensures
        a == b,
{
}

/// Zero, and no other number, reports success.
pub proof fn lemma_only_zero_is_success(c: ReturnCode)
    ensures
        c.code() == 0 <==> c.is_success(),
{
}

/// Every failure has a negative number.
pub proof fn lemma_failures_are_negative(c: ReturnCode)
    ensures
        !c.is_success() ==> c.code() < 0,
{
}

/// Writing an outcome as its number and reading the number back gives the
/// outcome again.
pub proof fn lemma_code_round_trip(c: ReturnCode)
    ensures
        ReturnCode::of_code(c.code()) == Some(c),
        ReturnCode::try_from_spec(i32::from_spec(c)) == Ok::<ReturnCode, i32>(c),
{
    lemma_code_is_injective(choose|d: ReturnCode| d.code() == c.code(), c);
}

} // verus!
