use middleware_wrapper_atrust::atrustapi::functions::Answer;
use middleware_wrapper_atrust::atrustapi::functions::Function;
use middleware_wrapper_atrust::atrustapi::return_codes::ReturnCode;
use middleware_wrapper_atrust::idesscd::Operation;

#[test]
fn functions_that_are_not_implemented_say_so() {
    let missing = [
        Function::AtGetTransactionCounter,
        Function::AtGetServiceVersion,
        Function::AtGetVersionDetails,
        Function::AtVerifyConfigEntry,
        Function::AtSetPace,
        Function::AtAddUserEntropy,
        Function::AtSetPins,
        Function::AtCheckCompatibility,
        Function::AtCheckSecureState,
        Function::AtReloadSecureElement,
        Function::InitializeDescriptionNotSet,
        Function::ExportDataFilteredByTransactionNumberAndClientId,
        Function::ExportDataFilteredByTransactionNumber,
        Function::ExportDataFilteredByTransactionNumberInterval,
        Function::ExportDataFilteredByTransactionNumberIntervalAndClientId,
        Function::ExportDataFilteredByPeriodOfTime,
        Function::ExportDataFilteredByPeriodOfTimeAndClientId,
        Function::RestoreFromBackup,
        Function::ReadLogMessage,
        Function::DeleteStoredData,
        Function::CfgTseAdd,
        Function::CfgTseAddPremium,
        Function::CfgTseRemove,
        Function::CfgSetLoggingFile,
        Function::CfgSetLogDir,
        Function::CfgSetLogLevel,
        Function::CfgSetLogAppend,
        Function::CfgSetLogColors,
        Function::CfgSetLogDetails,
        Function::CfgSetLogStderrColors,
        Function::CfgSetTimeout,
        Function::CfgSetRetries,
        Function::CfgSetUploadMessageInterval,
        Function::CfgSetMaxAuditLogSize,
    ];
    for function in missing {
        assert_eq!(function.fixed_answer(), Some(ReturnCode::NotImplemented));
        assert_eq!(function.how_answered(), Answer::Fixed(ReturnCode::NotImplemented));
    }
    assert_eq!(ReturnCode::NotImplemented.value(), -6001);
}

#[test]
fn functions_without_work_succeed() {
    let done = [
        Function::AtUnsuspendSecureElement,
        Function::AtSuspendSecureElement,
        Function::AtPreload,
        Function::AtUnload,
        Function::AtInstall,
        Function::AtUninstall,
        Function::UpdateTime,
        Function::AuthenticateUser,
        Function::LogOut,
        Function::UnblockUser,
        Function::CfgSetLoggingEnabled,
        Function::CfgSetLoggingStderr,
    ];
    for function in done {
        assert_eq!(function.fixed_answer(), Some(ReturnCode::ExecutionOk));
    }
}

#[test]
fn functions_that_reach_the_unit_name_their_operation() {
    let info = [
        Function::AtGetLifecycleState,
        Function::AtGetCertificate,
        Function::AtGetPublicKey,
        Function::AtGetOpenTransactions,
        Function::AtGetSignatureCounter,
        Function::AtGetSignatureAlgorithm,
        Function::AtGetLogTimeFormat,
        Function::AtGetSerialNumber,
        Function::AtGetMaxLicencedClients,
        Function::AtGetRegisteredClients,
        Function::ExportCertificates,
        Function::ExportSerialNumbers,
        Function::GetMaxNumberOfClients,
        Function::GetCurrentNumberOfClients,
        Function::GetMaxNumberOfTransactions,
        Function::GetCurrentNumberOfTransactions,
    ];
    for function in info {
        assert_eq!(function.how_answered(), Answer::Unit(Operation::GetTseInfo));
        assert_eq!(function.fixed_answer(), None);
    }
    let others = [
        (Function::AtRegisterClientId, Operation::RegisterClientId),
        (Function::AtRunSelfTests, Operation::ExecuteSelfTest),
        (Function::InitializeDescriptionSet, Operation::SetTseState),
        (Function::DisableSecureElement, Operation::SetTseState),
        (Function::UpdateTimeWithTimeSync, Operation::ExecuteSetTseTime),
        (Function::StartTransaction, Operation::StartTransaction),
        (Function::UpdateTransaction, Operation::UpdateTransaction),
        (Function::FinishTransaction, Operation::FinishTransaction),
    ];
    for (function, operation) in others {
        assert_eq!(function.how_answered(), Answer::Unit(operation));
        assert_eq!(function.fixed_answer(), None);
    }
    assert_eq!(Function::ExportData.how_answered(), Answer::Export);
    assert_eq!(Function::ExportDataWithClientId.how_answered(), Answer::Export);
}

#[test]
fn functions_of_the_process_are_answered_locally() {
    let local = [
        Function::AtGetVersion,
        Function::AtLoad,
        Function::AtFree,
        Function::AsigntseFree,
        Function::GetSupportedTransactionUpdateVariants,
        Function::CfgSetConfigFile,
        Function::CfgSetHttpProxy,
        Function::CfgSetHttpProxyWithUsernameAndPassword,
    ];
    for function in local {
        assert_eq!(function.how_answered(), Answer::Local);
        assert_eq!(function.fixed_answer(), None);
    }
}
