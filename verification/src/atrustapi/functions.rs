//! The exported functions and how each of them is answered.
//!
//! A function is named here as the caller names it, in the variant that
//! works on the default device; the variant that takes a device is answered
//! in the same way.

use vstd::prelude::*;
use crate::atrustapi::return_codes::ReturnCode;
use crate::idesscd::Operation;

verus! {

/// An exported function.
#[derive(Debug, Clone, Copy, PartialEq, Eq, Structural)]
pub enum Function {
    AtGetLifecycleState,
    AtUnsuspendSecureElement,
    AtSuspendSecureElement,
    AtGetCertificate,
    AtGetPublicKey,
    AtGetOpenTransactions,
    AtGetTransactionCounter,
    AtGetSignatureCounter,
    AtGetSignatureAlgorithm,
    AtGetLogTimeFormat,
    AtGetVersion,
    AtGetServiceVersion,
    AtGetVersionDetails,
    AtGetSerialNumber,
    AtPreload,
    AtLoad,
    AtUnload,
    AtVerifyConfigEntry,
    AtFree,
    AsigntseFree,
    AtRegisterClientId,
    AtGetMaxLicencedClients,
    AtGetRegisteredClients,
    AtSetPace,
    AtAddUserEntropy,
    AtSetPins,
    AtCheckCompatibility,
    AtRunSelfTests,
    AtCheckSecureState,
    AtReloadSecureElement,
    AtInstall,
    AtUninstall,
    InitializeDescriptionNotSet,
    InitializeDescriptionSet,
    UpdateTime,
    UpdateTimeWithTimeSync,
    DisableSecureElement,
    StartTransaction,
    UpdateTransaction,
    FinishTransaction,
    ExportDataFilteredByTransactionNumberAndClientId,
    ExportDataFilteredByTransactionNumber,
    ExportDataFilteredByTransactionNumberInterval,
    ExportDataFilteredByTransactionNumberIntervalAndClientId,
    ExportDataFilteredByPeriodOfTime,
    ExportDataFilteredByPeriodOfTimeAndClientId,
    ExportData,
    ExportDataWithClientId,
    ExportCertificates,
    RestoreFromBackup,
    ReadLogMessage,
    ExportSerialNumbers,
    GetMaxNumberOfClients,
    GetCurrentNumberOfClients,
    GetMaxNumberOfTransactions,
    GetCurrentNumberOfTransactions,
    GetSupportedTransactionUpdateVariants,
    DeleteStoredData,
    AuthenticateUser,
    LogOut,
    UnblockUser,
    CfgSetConfigFile,
    CfgTseAdd,
    CfgTseAddPremium,
    CfgTseRemove,
    CfgSetLoggingEnabled,
    CfgSetLoggingStderr,
    CfgSetLoggingFile,
    CfgSetLogDir,
    CfgSetLogLevel,
    CfgSetLogAppend,
    CfgSetLogColors,
    CfgSetLogDetails,
    CfgSetLogStderrColors,
    CfgSetHttpProxy,
    CfgSetHttpProxyWithUsernameAndPassword,
    CfgSetTimeout,
    CfgSetRetries,
    CfgSetUploadMessageInterval,
    CfgSetMaxAuditLogSize,
}

/// The way in which an exported function comes to its answer.
#[derive(Debug, Clone, Copy, PartialEq, Eq, Structural)]
pub enum Answer {
    /// With this return code, whatever the arguments: the function does
    /// nothing else.
    Fixed(ReturnCode),
    /// From the state of the process alone.
    Local,
    /// From what the unit answers to one request of this operation.
    Unit(Operation),
    /// From an export: the unit is asked to open it, for its chunks and to
    /// close it.
    Export,
}

impl Function {
    /// The way in which the function comes to its answer.
    pub open spec fn answer(self) -> Answer {
        match self {
            Function::AtGetLifecycleState => Answer::Unit(Operation::GetTseInfo),
            Function::AtUnsuspendSecureElement => Answer::Fixed(ReturnCode::ExecutionOk),
            Function::AtSuspendSecureElement => Answer::Fixed(ReturnCode::ExecutionOk),
            Function::AtGetCertificate => Answer::Unit(Operation::GetTseInfo),
            Function::AtGetPublicKey => Answer::Unit(Operation::GetTseInfo),
            Function::AtGetOpenTransactions => Answer::Unit(Operation::GetTseInfo),
            Function::AtGetTransactionCounter => Answer::Fixed(ReturnCode::NotImplemented),
            Function::AtGetSignatureCounter => Answer::Unit(Operation::GetTseInfo),
            Function::AtGetSignatureAlgorithm => Answer::Unit(Operation::GetTseInfo),
            Function::AtGetLogTimeFormat => Answer::Unit(Operation::GetTseInfo),
            Function::AtGetVersion => Answer::Local,
            Function::AtGetServiceVersion => Answer::Fixed(ReturnCode::NotImplemented),
            Function::AtGetVersionDetails => Answer::Fixed(ReturnCode::NotImplemented),
            Function::AtGetSerialNumber => Answer::Unit(Operation::GetTseInfo),
            Function::AtPreload => Answer::Fixed(ReturnCode::ExecutionOk),
            Function::AtLoad => Answer::Local,
            Function::AtUnload => Answer::Fixed(ReturnCode::ExecutionOk),
            Function::AtVerifyConfigEntry => Answer::Fixed(ReturnCode::NotImplemented),
            Function::AtFree => Answer::Local,
            Function::AsigntseFree => Answer::Local,
            Function::AtRegisterClientId => Answer::Unit(Operation::RegisterClientId),
            Function::AtGetMaxLicencedClients => Answer::Unit(Operation::GetTseInfo),
            Function::AtGetRegisteredClients => Answer::Unit(Operation::GetTseInfo),
            Function::AtSetPace => Answer::Fixed(ReturnCode::NotImplemented),
            Function::AtAddUserEntropy => Answer::Fixed(ReturnCode::NotImplemented),
            Function::AtSetPins => Answer::Fixed(ReturnCode::NotImplemented),
            Function::AtCheckCompatibility => Answer::Fixed(ReturnCode::NotImplemented),
            Function::AtRunSelfTests => Answer::Unit(Operation::ExecuteSelfTest),
            Function::AtCheckSecureState => Answer::Fixed(ReturnCode::NotImplemented),
            Function::AtReloadSecureElement => Answer::Fixed(ReturnCode::NotImplemented),
            Function::AtInstall => Answer::Fixed(ReturnCode::ExecutionOk),
            Function::AtUninstall => Answer::Fixed(ReturnCode::ExecutionOk),
            Function::InitializeDescriptionNotSet => Answer::Fixed(ReturnCode::NotImplemented),
            Function::InitializeDescriptionSet => Answer::Unit(Operation::SetTseState),
            Function::UpdateTime => Answer::Fixed(ReturnCode::ExecutionOk),
            Function::UpdateTimeWithTimeSync => Answer::Unit(Operation::ExecuteSetTseTime),
            Function::DisableSecureElement => Answer::Unit(Operation::SetTseState),
            Function::StartTransaction => Answer::Unit(Operation::StartTransaction),
            Function::UpdateTransaction => Answer::Unit(Operation::UpdateTransaction),
            Function::FinishTransaction => Answer::Unit(Operation::FinishTransaction),
            Function::ExportDataFilteredByTransactionNumberAndClientId => Answer::Fixed(ReturnCode::NotImplemented),
            Function::ExportDataFilteredByTransactionNumber => Answer::Fixed(ReturnCode::NotImplemented),
            Function::ExportDataFilteredByTransactionNumberInterval => Answer::Fixed(ReturnCode::NotImplemented),
            Function::ExportDataFilteredByTransactionNumberIntervalAndClientId => Answer::Fixed(ReturnCode::NotImplemented),
            Function::ExportDataFilteredByPeriodOfTime => Answer::Fixed(ReturnCode::NotImplemented),
            Function::ExportDataFilteredByPeriodOfTimeAndClientId => Answer::Fixed(ReturnCode::NotImplemented),
            Function::ExportData => Answer::Export,
            Function::ExportDataWithClientId => Answer::Export,
            Function::ExportCertificates => Answer::Unit(Operation::GetTseInfo),
            Function::RestoreFromBackup => Answer::Fixed(ReturnCode::NotImplemented),
            Function::ReadLogMessage => Answer::Fixed(ReturnCode::NotImplemented),
            Function::ExportSerialNumbers => Answer::Unit(Operation::GetTseInfo),
            Function::GetMaxNumberOfClients => Answer::Unit(Operation::GetTseInfo),
            Function::GetCurrentNumberOfClients => Answer::Unit(Operation::GetTseInfo),
            Function::GetMaxNumberOfTransactions => Answer::Unit(Operation::GetTseInfo),
            Function::GetCurrentNumberOfTransactions => Answer::Unit(Operation::GetTseInfo),
            Function::GetSupportedTransactionUpdateVariants => Answer::Local,
            Function::DeleteStoredData => Answer::Fixed(ReturnCode::NotImplemented),
            Function::AuthenticateUser => Answer::Fixed(ReturnCode::ExecutionOk),
            Function::LogOut => Answer::Fixed(ReturnCode::ExecutionOk),
            Function::UnblockUser => Answer::Fixed(ReturnCode::ExecutionOk),
            Function::CfgSetConfigFile => Answer::Local,
            Function::CfgTseAdd => Answer::Fixed(ReturnCode::NotImplemented),
            Function::CfgTseAddPremium => Answer::Fixed(ReturnCode::NotImplemented),
            Function::CfgTseRemove => Answer::Fixed(ReturnCode::NotImplemented),
            Function::CfgSetLoggingEnabled => Answer::Fixed(ReturnCode::ExecutionOk),
            Function::CfgSetLoggingStderr => Answer::Fixed(ReturnCode::ExecutionOk),
            Function::CfgSetLoggingFile => Answer::Fixed(ReturnCode::NotImplemented),
            Function::CfgSetLogDir => Answer::Fixed(ReturnCode::NotImplemented),
            Function::CfgSetLogLevel => Answer::Fixed(ReturnCode::NotImplemented),
            Function::CfgSetLogAppend => Answer::Fixed(ReturnCode::NotImplemented),
            Function::CfgSetLogColors => Answer::Fixed(ReturnCode::NotImplemented),
            Function::CfgSetLogDetails => Answer::Fixed(ReturnCode::NotImplemented),
            Function::CfgSetLogStderrColors => Answer::Fixed(ReturnCode::NotImplemented),
            Function::CfgSetHttpProxy => Answer::Local,
            Function::CfgSetHttpProxyWithUsernameAndPassword => Answer::Local,
            Function::CfgSetTimeout => Answer::Fixed(ReturnCode::NotImplemented),
            Function::CfgSetRetries => Answer::Fixed(ReturnCode::NotImplemented),
            Function::CfgSetUploadMessageInterval => Answer::Fixed(ReturnCode::NotImplemented),
            Function::CfgSetMaxAuditLogSize => Answer::Fixed(ReturnCode::NotImplemented),
        }
    }

    /// The way in which the function comes to its answer.
    pub fn how_answered(self) -> (answer: Answer)
        ensures
            answer == self.answer(),
    {
        match self {
            Function::AtGetLifecycleState => Answer::Unit(Operation::GetTseInfo),
            Function::AtUnsuspendSecureElement => Answer::Fixed(ReturnCode::ExecutionOk),
            Function::AtSuspendSecureElement => Answer::Fixed(ReturnCode::ExecutionOk),
            Function::AtGetCertificate => Answer::Unit(Operation::GetTseInfo),
            Function::AtGetPublicKey => Answer::Unit(Operation::GetTseInfo),
            Function::AtGetOpenTransactions => Answer::Unit(Operation::GetTseInfo),
            Function::AtGetTransactionCounter => Answer::Fixed(ReturnCode::NotImplemented),
            Function::AtGetSignatureCounter => Answer::Unit(Operation::GetTseInfo),
            Function::AtGetSignatureAlgorithm => Answer::Unit(Operation::GetTseInfo),
            Function::AtGetLogTimeFormat => Answer::Unit(Operation::GetTseInfo),
            Function::AtGetVersion => Answer::Local,
            Function::AtGetServiceVersion => Answer::Fixed(ReturnCode::NotImplemented),
            Function::AtGetVersionDetails => Answer::Fixed(ReturnCode::NotImplemented),
            Function::AtGetSerialNumber => Answer::Unit(Operation::GetTseInfo),
            Function::AtPreload => Answer::Fixed(ReturnCode::ExecutionOk),
            Function::AtLoad => Answer::Local,
            Function::AtUnload => Answer::Fixed(ReturnCode::ExecutionOk),
            Function::AtVerifyConfigEntry => Answer::Fixed(ReturnCode::NotImplemented),
            Function::AtFree => Answer::Local,
            Function::AsigntseFree => Answer::Local,
            Function::AtRegisterClientId => Answer::Unit(Operation::RegisterClientId),
            Function::AtGetMaxLicencedClients => Answer::Unit(Operation::GetTseInfo),
            Function::AtGetRegisteredClients => Answer::Unit(Operation::GetTseInfo),
            Function::AtSetPace => Answer::Fixed(ReturnCode::NotImplemented),
            Function::AtAddUserEntropy => Answer::Fixed(ReturnCode::NotImplemented),
            Function::AtSetPins => Answer::Fixed(ReturnCode::NotImplemented),
            Function::AtCheckCompatibility => Answer::Fixed(ReturnCode::NotImplemented),
            Function::AtRunSelfTests => Answer::Unit(Operation::ExecuteSelfTest),
            Function::AtCheckSecureState => Answer::Fixed(ReturnCode::NotImplemented),
            Function::AtReloadSecureElement => Answer::Fixed(ReturnCode::NotImplemented),
            Function::AtInstall => Answer::Fixed(ReturnCode::ExecutionOk),
            Function::AtUninstall => Answer::Fixed(ReturnCode::ExecutionOk),
            Function::InitializeDescriptionNotSet => Answer::Fixed(ReturnCode::NotImplemented),
            Function::InitializeDescriptionSet => Answer::Unit(Operation::SetTseState),
            Function::UpdateTime => Answer::Fixed(ReturnCode::ExecutionOk),
            Function::UpdateTimeWithTimeSync => Answer::Unit(Operation::ExecuteSetTseTime),
            Function::DisableSecureElement => Answer::Unit(Operation::SetTseState),
            Function::StartTransaction => Answer::Unit(Operation::StartTransaction),
            Function::UpdateTransaction => Answer::Unit(Operation::UpdateTransaction),
            Function::FinishTransaction => Answer::Unit(Operation::FinishTransaction),
            Function::ExportDataFilteredByTransactionNumberAndClientId => Answer::Fixed(ReturnCode::NotImplemented),
            Function::ExportDataFilteredByTransactionNumber => Answer::Fixed(ReturnCode::NotImplemented),
            Function::ExportDataFilteredByTransactionNumberInterval => Answer::Fixed(ReturnCode::NotImplemented),
            Function::ExportDataFilteredByTransactionNumberIntervalAndClientId => Answer::Fixed(ReturnCode::NotImplemented),
            Function::ExportDataFilteredByPeriodOfTime => Answer::Fixed(ReturnCode::NotImplemented),
            Function::ExportDataFilteredByPeriodOfTimeAndClientId => Answer::Fixed(ReturnCode::NotImplemented),
            Function::ExportData => Answer::Export,
            Function::ExportDataWithClientId => Answer::Export,
            Function::ExportCertificates => Answer::Unit(Operation::GetTseInfo),
            Function::RestoreFromBackup => Answer::Fixed(ReturnCode::NotImplemented),
            Function::ReadLogMessage => Answer::Fixed(ReturnCode::NotImplemented),
            Function::ExportSerialNumbers => Answer::Unit(Operation::GetTseInfo),
            Function::GetMaxNumberOfClients => Answer::Unit(Operation::GetTseInfo),
            Function::GetCurrentNumberOfClients => Answer::Unit(Operation::GetTseInfo),
            Function::GetMaxNumberOfTransactions => Answer::Unit(Operation::GetTseInfo),
            Function::GetCurrentNumberOfTransactions => Answer::Unit(Operation::GetTseInfo),
            Function::GetSupportedTransactionUpdateVariants => Answer::Local,
            Function::DeleteStoredData => Answer::Fixed(ReturnCode::NotImplemented),
            Function::AuthenticateUser => Answer::Fixed(ReturnCode::ExecutionOk),
            Function::LogOut => Answer::Fixed(ReturnCode::ExecutionOk),
            Function::UnblockUser => Answer::Fixed(ReturnCode::ExecutionOk),
            Function::CfgSetConfigFile => Answer::Local,
            Function::CfgTseAdd => Answer::Fixed(ReturnCode::NotImplemented),
            Function::CfgTseAddPremium => Answer::Fixed(ReturnCode::NotImplemented),
            Function::CfgTseRemove => Answer::Fixed(ReturnCode::NotImplemented),
            Function::CfgSetLoggingEnabled => Answer::Fixed(ReturnCode::ExecutionOk),
            Function::CfgSetLoggingStderr => Answer::Fixed(ReturnCode::ExecutionOk),
            Function::CfgSetLoggingFile => Answer::Fixed(ReturnCode::NotImplemented),
            Function::CfgSetLogDir => Answer::Fixed(ReturnCode::NotImplemented),
            Function::CfgSetLogLevel => Answer::Fixed(ReturnCode::NotImplemented),
            Function::CfgSetLogAppend => Answer::Fixed(ReturnCode::NotImplemented),
            Function::CfgSetLogColors => Answer::Fixed(ReturnCode::NotImplemented),
            Function::CfgSetLogDetails => Answer::Fixed(ReturnCode::NotImplemented),
            Function::CfgSetLogStderrColors => Answer::Fixed(ReturnCode::NotImplemented),
            Function::CfgSetHttpProxy => Answer::Local,
            Function::CfgSetHttpProxyWithUsernameAndPassword => Answer::Local,
            Function::CfgSetTimeout => Answer::Fixed(ReturnCode::NotImplemented),
            Function::CfgSetRetries => Answer::Fixed(ReturnCode::NotImplemented),
            Function::CfgSetUploadMessageInterval => Answer::Fixed(ReturnCode::NotImplemented),
            Function::CfgSetMaxAuditLogSize => Answer::Fixed(ReturnCode::NotImplemented),
        }
    }

    /// The return code with which the function answers whatever its
    /// arguments, if it is one of those.
    pub fn fixed_answer(self) -> (code: Option<ReturnCode>)
        ensures
            code == match self.answer() {
                Answer::Fixed(c) => Some(c),
                _ => None,
            },
    {
        match self.how_answered() {
            Answer::Fixed(c) => Some(c),
            _ => None,
        }
    }
}

/// A function that is answered with a fixed return code is answered with
/// success or as not implemented, and with no other code.
pub proof fn lemma_fixed_answers(function: Function)
    ensures
        function.answer() matches Answer::Fixed(code) ==> code == ReturnCode::ExecutionOk || code
            == ReturnCode::NotImplemented,
{
}

} // verus!
