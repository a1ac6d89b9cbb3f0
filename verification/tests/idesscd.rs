use middleware_wrapper_atrust::idesscd::Base64;
use middleware_wrapper_atrust::idesscd::Method;
use middleware_wrapper_atrust::idesscd::Operation;
use middleware_wrapper_atrust::idesscd::TseStates;

#[test]
fn bytes_are_written_as_base64() {
    assert_eq!(Base64::from(b"hello world").as_str(), "aGVsbG8gd29ybGQ=");
    assert_eq!(Base64::from(b"processData").as_str(), "cHJvY2Vzc0RhdGE=");
    assert_eq!(Base64::from(&[0, 1, 2, 255]).as_str(), "AAEC/w==");
    assert_eq!(Base64::from(b"a").as_str(), "YQ==");
    assert_eq!(Base64::from(b"").as_str(), "");
}

#[test]
fn base64_is_read_back_as_bytes() {
    assert_eq!(Base64(String::from("aGVsbG8gd29ybGQ=")).decode().unwrap(), b"hello world");
    assert_eq!(Base64(String::from("AAEC/w==")).decode().unwrap(), vec![0, 1, 2, 255]);
    assert_eq!(Base64(String::new()).decode().unwrap(), Vec::<u8>::new());
    assert_eq!(Base64(String::from("aGVsbG8")).decode().unwrap(), b"hello");
    let large: Vec<u8> = (0..70_000u32).map(|i| (i % 256) as u8).collect();
    assert_eq!(Base64::from(&large).decode().unwrap(), large);
}

#[test]
fn text_that_is_no_base64_is_refused() {
    assert!(Base64(String::from("not base64!")).decode().is_err());
    assert!(Base64(String::from("aGVsbG8gd29ybGQ= ")).decode().is_err());
    assert!(Base64(String::from("äöü=")).decode().is_err());
    assert_eq!(
        Base64(String::from("a")).decode(),
        Err(base64::DecodeError::InvalidLength)
    );
}

#[test]
fn every_operation_has_its_address_and_method() {
    let table = [
        (Operation::StartTransaction, "starttransaction", Method::Post, true),
        (Operation::UpdateTransaction, "updatetransaction", Method::Post, true),
        (Operation::FinishTransaction, "finishtransaction", Method::Post, true),
        (Operation::GetTseInfo, "tseinfo", Method::Get, true),
        (Operation::SetTseState, "tsestate", Method::Post, true),
        (Operation::RegisterClientId, "registerclientid", Method::Post, true),
        (Operation::UnregisterClientId, "unregisterclientid", Method::Post, true),
        (Operation::ExecuteSetTseTime, "executesettsetime", Method::Post, false),
        (Operation::ExecuteSelfTest, "executeselftest", Method::Post, false),
        (Operation::StartExportSession, "startexportsession", Method::Post, true),
        (Operation::StartExportSessionByTimeStamp, "startexportsessionbytimestamp", Method::Post, true),
        (Operation::StartExportSessionByTransaction, "startexportsessionbytransaction", Method::Post, true),
        (Operation::ExportData, "exportdata", Method::Post, true),
        (Operation::EndExportSession, "endexportsession", Method::Post, true),
        (Operation::Echo, "echo", Method::Post, true),
    ];
    for (operation, path, method, record) in table {
        assert_eq!(operation.path_segment(), path);
        assert_eq!(operation.method(), method);
        assert_eq!(operation.expects_record(), record);
    }
}

#[test]
fn the_states_of_a_unit_have_their_numbers() {
    assert_eq!(TseStates::Uninitialized.value(), 0);
    assert_eq!(TseStates::Initialized.value(), 1);
    assert_eq!(TseStates::Terminated.value(), 2);
    assert_eq!(TseStates::from_value(0), Some(TseStates::Uninitialized));
    assert_eq!(TseStates::from_value(1), Some(TseStates::Initialized));
    assert_eq!(TseStates::from_value(2), Some(TseStates::Terminated));
    assert_eq!(TseStates::from_value(3), None);
    assert_eq!(TseStates::from_value(255), None);
}
