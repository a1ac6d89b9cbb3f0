use middleware_wrapper_atrust::atrustapi::return_codes::ReturnCode;
use middleware_wrapper_atrust::client::Error;

#[test]
fn success_is_zero() {
    assert_eq!(ReturnCode::ExecutionOk.value(), 0);
    assert_eq!(i32::from(ReturnCode::ExecutionOk), 0);
}

#[test]
fn codes_keep_their_numbers() {
    assert_eq!(ReturnCode::RetrieveLogMessageFailed.value(), -5001);
    assert_eq!(ReturnCode::StartTransactionFailed.value(), -5009);
    assert_eq!(ReturnCode::UpdateTransactionFailed.value(), -5010);
    assert_eq!(ReturnCode::FinishTransactionFailed.value(), -5011);
    assert_eq!(ReturnCode::UserIdNotManaged.value(), -5035);
    assert_eq!(ReturnCode::DisableSecureElementFailed.value(), -5037);
    assert_eq!(ReturnCode::InvalidConfig.value(), -5039);
    assert_eq!(ReturnCode::ClientIdNotRegistered.value(), -5052);
    assert_eq!(ReturnCode::CannotRetrieveRegisteredClientIds.value(), -5054);
    assert_eq!(ReturnCode::GetSignatureAlgorithmFailed.value(), -5059);
    assert_eq!(ReturnCode::AuthenticationFailed.value(), -4000);
    assert_eq!(ReturnCode::UnblockFailed.value(), -4001);
    assert_eq!(ReturnCode::MissingParameter.value(), -3000);
    assert_eq!(ReturnCode::ConfigFileNotFound.value(), -3005);
    assert_eq!(ReturnCode::SeCommunicationFailed.value(), -3006);
    assert_eq!(ReturnCode::SeNotProvisionedError.value(), -3021);
    assert_eq!(ReturnCode::SeInSecureState.value(), -3023);
    assert_eq!(ReturnCode::Unknown.value(), -3100);
    assert_eq!(ReturnCode::UnsupportedPremiumFeature.value(), -6000);
    assert_eq!(ReturnCode::NotImplemented.value(), -6001);
}

#[test]
fn every_number_of_the_table_reads_back() {
    let mut found = 0;
    for number in -7000..=10 {
        if let Ok(code) = ReturnCode::try_from(number) {
            found += 1;
            assert_eq!(code.value(), number);
            assert_eq!(i32::from(code), number);
            assert_eq!(code.succeeded(), number == 0);
        }
    }
    assert_eq!(found, 88);
}

#[test]
fn a_number_outside_the_table_is_refused() {
    assert_eq!(ReturnCode::try_from(1), Err(1));
    assert_eq!(ReturnCode::try_from(-5036), Err(-5036));
    assert_eq!(ReturnCode::try_from(-5060), Err(-5060));
    assert_eq!(ReturnCode::try_from(-3024), Err(-3024));
    assert_eq!(ReturnCode::try_from(i32::MIN), Err(i32::MIN));
    assert_eq!(ReturnCode::try_from(i32::MAX), Err(i32::MAX));
}

#[test]
fn a_code_is_written_with_name_and_number() {
    assert_eq!(ReturnCode::ExecutionOk.to_string(), "EXECUTION_OK (0)");
    assert_eq!(ReturnCode::InvalidConfig.to_string(), "ERROR_INVALID_CONFIG (-5039)");
    assert_eq!(ReturnCode::Unknown.to_string(), "ERROR_UNKNOWN (-3100)");
    assert_eq!(ReturnCode::NotImplemented.to_string(), "ERROR_NOT_IMPLEMENTED (-6001)");
    assert_eq!(
        ReturnCode::DescriptionNotSetByManufacturer.to_string(),
        "ERROR_DESCRIPTION_NOT_SET_BY_MANUFACTURER (-5024)"
    );
    assert_eq!(ReturnCode::Io.as_str(), "ERROR_IO");
    assert_eq!(ReturnCode::GetTotalLogMemory.as_str(), "ERROR_GET_TOTAL_LOG_MEMORY");
}

#[test]
fn every_failure_has_its_code() {
    let failed = Error::RequestFailed { source: String::from("connection refused") };
    assert_eq!(ReturnCode::from(failed), ReturnCode::SeCommunicationFailed);
    assert_eq!(ReturnCode::from(Error::Unsuccessful(404)), ReturnCode::InvalidConfig);
    let malformed = Error::MalformedResponse { source: String::from("expected value") };
    assert_eq!(ReturnCode::from(malformed), ReturnCode::Unknown);
    let no_uri = Error::CouldNotConstructUri { source: String::from("invalid uri character") };
    assert_eq!(ReturnCode::from(no_uri), ReturnCode::InvalidConfig);
    assert_eq!(ReturnCode::from(Error::NoScuUrl(String::from("tse9"))), ReturnCode::InvalidConfig);
}

#[test]
fn only_a_failed_request_has_a_source() {
    let failed = Error::RequestFailed { source: String::from("timed out") };
    assert_eq!(failed.reqwest_eror(), Some(&String::from("timed out")));
    assert_eq!(Error::Unsuccessful(500).reqwest_eror(), None);
    assert_eq!(Error::NoScuUrl(String::from("x")).reqwest_eror(), None);
}
