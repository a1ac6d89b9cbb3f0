use middleware_wrapper_atrust::atrustapi::return_codes::ReturnCode;
use middleware_wrapper_atrust::atrustapi::seapi::code_of;
use middleware_wrapper_atrust::atrustapi::seapi::code_of_failure;
use middleware_wrapper_atrust::atrustapi::seapi::current_number_of_clients;
use middleware_wrapper_atrust::atrustapi::seapi::current_number_of_transactions;
use middleware_wrapper_atrust::atrustapi::seapi::disable_secure_element_request;
use middleware_wrapper_atrust::atrustapi::seapi::export_begin;
use middleware_wrapper_atrust::atrustapi::seapi::export_step;
use middleware_wrapper_atrust::atrustapi::seapi::finish_transaction_output;
use middleware_wrapper_atrust::atrustapi::seapi::finish_transaction_request;
use middleware_wrapper_atrust::atrustapi::seapi::initialize_description_set_request;
use middleware_wrapper_atrust::atrustapi::seapi::max_number_of_clients;
use middleware_wrapper_atrust::atrustapi::seapi::max_number_of_transactions;
use middleware_wrapper_atrust::atrustapi::seapi::queue_item_id;
use middleware_wrapper_atrust::atrustapi::seapi::start_transaction_output;
use middleware_wrapper_atrust::atrustapi::seapi::start_transaction_request;
use middleware_wrapper_atrust::atrustapi::seapi::supported_transaction_update_variants;
use middleware_wrapper_atrust::atrustapi::seapi::update_transaction_output;
use middleware_wrapper_atrust::atrustapi::seapi::update_transaction_request;
use middleware_wrapper_atrust::atrustapi::seapi::AuthenticationResult;
use middleware_wrapper_atrust::atrustapi::seapi::ExportAction;
use middleware_wrapper_atrust::atrustapi::seapi::ExportEvent;
use middleware_wrapper_atrust::atrustapi::seapi::ExportState;
use middleware_wrapper_atrust::atrustapi::seapi::TssType;
use middleware_wrapper_atrust::atrustapi::seapi::UnblockResult;
use middleware_wrapper_atrust::atrustapi::seapi::UpdateVariants;
use middleware_wrapper_atrust::atrustapi::seapi::MAX_CHUNK_SIZE;
use middleware_wrapper_atrust::client::Error;
use middleware_wrapper_atrust::idesscd::Base64;
use middleware_wrapper_atrust::idesscd::EndExportSessionResponse;
use middleware_wrapper_atrust::idesscd::ExportDataResponse;
use middleware_wrapper_atrust::idesscd::FinishTransactionResponse;
use middleware_wrapper_atrust::idesscd::StartExportSessionResponse;
use middleware_wrapper_atrust::idesscd::StartTransactionResponse;
use middleware_wrapper_atrust::idesscd::TseInfo;
use middleware_wrapper_atrust::idesscd::TseSignatureData;
use middleware_wrapper_atrust::idesscd::TseStates;
use middleware_wrapper_atrust::idesscd::UpdateTransactionResponse;

fn signature(counter: u64, text: &str) -> TseSignatureData {
    TseSignatureData {
        signature_counter: counter,
        signature_algorithm: String::from("ecdsa-plain-SHA384"),
        signature_base64: Base64(String::from(text)),
        public_key_base64: Base64(String::from("cHVibGljIGtleSBieXRlcw==")),
    }
}

fn start_response(number: u64, counter: u64, text: &str) -> StartTransactionResponse {
    StartTransactionResponse {
        transaction_number: number,
        time_stamp: 1_650_000_000,
        tse_serial_number_octet: String::from("0A1B2C"),
        client_id: String::from("C1"),
        signature_data: signature(counter, text),
    }
}

fn update_response(counter: u64, text: &str) -> UpdateTransactionResponse {
    UpdateTransactionResponse {
        transaction_number: 5,
        time_stamp: -1,
        tse_serial_number_octet: String::from("0A1B2C"),
        client_id: String::from("C1"),
        process_type: String::from("Beleg"),
        process_data_base64: Base64(String::new()),
        signature_data: signature(counter, text),
    }
}

fn finish_response(counter: u64, text: &str) -> FinishTransactionResponse {
    FinishTransactionResponse {
        transaction_number: 5,
        start_transaction_time_stamp: 1_650_000_000,
        time_stamp: 1_650_000_060,
        tse_time_stamp_format: String::from("unixTime"),
        tse_serial_number_octet: String::from("0A1B2C"),
        client_id: String::from("C1"),
        process_type: String::from("Beleg"),
        process_data_base64: Base64(String::new()),
        signature_data: signature(counter, text),
    }
}

fn info() -> TseInfo {
    TseInfo {
        max_number_of_clients: 100,
        current_number_of_clients: 3,
        current_client_ids: vec![String::from("POS-1"), String::from("POS-2")],
        max_number_of_started_transactions: 2000,
        current_number_of_started_transactions: 2,
        current_started_transaction_numbers: vec![17, 23],
        max_number_of_signatures: 20_000_000,
        current_number_of_signatures: 4711,
        max_log_memory_size: 1 << 30,
        current_log_memory_size: 1 << 20,
        current_state: TseStates::Initialized,
        firmware_identification: String::from("fw"),
        certification_identification: String::from("cert"),
        signature_algorithm: String::from("ecdsa-plain-SHA384"),
        log_time_format: String::from("unixTime"),
        serial_number_octet: String::from("0A1B2C"),
        public_key_base64: Base64(String::from("cHVibGljIGtleSBieXRlcw==")),
        certificates_base64: vec![Base64(String::from("Y2VydDE=")), Base64(String::from("Y2VydDI="))],
    }
}

fn failures() -> Vec<(Error, ReturnCode)> {
    vec![
        (Error::RequestFailed { source: String::from("refused") }, ReturnCode::SeCommunicationFailed),
        (Error::MalformedResponse { source: String::from("eof") }, ReturnCode::Unknown),
        (Error::CouldNotConstructUri { source: String::from("bad") }, ReturnCode::InvalidConfig),
        (Error::NoScuUrl(String::from("tse9")), ReturnCode::InvalidConfig),
    ]
}

#[test]
fn the_enumerations_have_their_numbers() {
    assert_eq!(MAX_CHUNK_SIZE, 1000);
    assert_eq!(TssType::AsignTseOnline.value(), 0);
    assert_eq!(TssType::CryptoVision.value(), 1);
    assert_eq!(u32::from(UpdateVariants::Signed), 0);
    assert_eq!(u32::from(UpdateVariants::Unsigned), 1);
    assert_eq!(u32::from(UpdateVariants::SignedAndUnsigned), 2);
    assert_eq!(i32::from(AuthenticationResult::Okay), 0);
    assert_eq!(i32::from(AuthenticationResult::Failed), 1);
    assert_eq!(i32::from(AuthenticationResult::PinIsBlocked), 2);
    assert_eq!(i32::from(AuthenticationResult::UnknownUserId), 3);
    assert_eq!(u32::from(UnblockResult::Okay), 0);
    assert_eq!(u32::from(UnblockResult::Failed), 1);
    assert_eq!(u32::from(UnblockResult::UnknownUserId), 2);
    assert_eq!(u32::from(UnblockResult::Error), 3);
    assert_eq!(supported_transaction_update_variants(), UpdateVariants::SignedAndUnsigned);
}

#[test]
fn a_refusal_has_the_code_of_the_function() {
    assert_eq!(
        code_of_failure(Error::Unsuccessful(500), ReturnCode::StartTransactionFailed),
        ReturnCode::StartTransactionFailed
    );
    assert_eq!(
        code_of_failure(Error::Unsuccessful(404), ReturnCode::ClientIdNotRegistered),
        ReturnCode::ClientIdNotRegistered
    );
    assert_eq!(code_of(Error::Unsuccessful(500)), ReturnCode::InvalidConfig);
    for (err, code) in failures() {
        assert_eq!(code_of_failure(err, ReturnCode::StartTransactionFailed), code);
    }
    for (err, code) in failures() {
        assert_eq!(code_of(err), code);
    }
}

#[test]
fn the_queue_item_is_named_after_the_vendor() {
    assert_eq!(queue_item_id(), 0x5e48a90ba5b85a7f8bc231deeec074ed);
    assert_eq!(
        uuid::Uuid::from_u128(queue_item_id()).to_string(),
        "5e48a90b-a5b8-5a7f-8bc2-31deeec074ed"
    );
}

#[test]
fn a_start_request_carries_what_the_caller_named() {
    let request = start_transaction_request(b"C1", 2, b"arbitrary data", 14, b"Beleg", 5);
    assert_eq!(request.client_id, "C1");
    assert_eq!(request.process_type, "Beleg");
    assert_eq!(request.process_data_base64.as_str(), "YXJiaXRyYXJ5IGRhdGE=");
    assert_eq!(request.queue_item_id, 0x5e48a90ba5b85a7f8bc231deeec074ed);
    assert!(!request.is_retry);
    let cut = start_transaction_request(b"C1 and more", 2, b"processData!", 11, b"", 0);
    assert_eq!(cut.client_id, "C1");
    assert_eq!(cut.process_type, "");
    assert_eq!(cut.process_data_base64.as_str(), "cHJvY2Vzc0RhdGE=");
}

#[test]
fn update_and_finish_requests_carry_the_transaction() {
    let update = update_transaction_request(b"C1", 2, 17, &[0, 1, 2, 255], 4, b"Beleg", 5);
    assert_eq!(update.client_id, "C1");
    assert_eq!(update.transaction_number, 17);
    assert_eq!(update.process_type, "Beleg");
    assert_eq!(update.process_data_base64.as_str(), "AAEC/w==");
    assert_eq!(update.queue_item_id, queue_item_id());
    assert!(!update.is_retry);
    let finish = finish_transaction_request(b"C1", 2, u32::MAX, b"", 0, b"Beleg", 5);
    assert_eq!(finish.client_id, "C1");
    assert_eq!(finish.transaction_number, 4_294_967_295);
    assert_eq!(finish.process_type, "Beleg");
    assert_eq!(finish.process_data_base64.as_str(), "");
    assert_eq!(finish.queue_item_id, queue_item_id());
    assert!(!finish.is_retry);
}

#[test]
fn a_started_transaction_hands_back_its_outputs() {
    let output = start_transaction_output(Ok(start_response(42, 7, "c2lnbmF0dXJl"))).unwrap();
    assert_eq!(output.transaction_number, 42);
    assert_eq!(output.serial_number, "0A1B2C");
    assert_eq!(output.step.log_time, 1_650_000_000);
    assert_eq!(output.step.signature_counter, 7);
    assert_eq!(output.step.signature_value, b"signature");
}

#[test]
fn numbers_are_cut_to_32_bits() {
    let output = start_transaction_output(Ok(start_response((1 << 32) + 5, (1 << 40) + 9, ""))).unwrap();
    assert_eq!(output.transaction_number, 5);
    assert_eq!(output.step.signature_counter, 9);
    assert_eq!(output.step.signature_value, b"");
    let output = start_transaction_output(Ok(start_response(u64::MAX, u64::MAX, ""))).unwrap();
    assert_eq!(output.transaction_number, u32::MAX);
    assert_eq!(output.step.signature_counter, u32::MAX);
}

#[test]
fn a_signature_that_is_no_base64_fails_the_step() {
    assert_eq!(
        start_transaction_output(Ok(start_response(1, 1, "not base64!"))).unwrap_err(),
        ReturnCode::RetrieveLogMessageFailed
    );
    assert_eq!(
        update_transaction_output(Ok(update_response(1, "****"))).unwrap_err(),
        ReturnCode::RetrieveLogMessageFailed
    );
    assert_eq!(
        finish_transaction_output(Ok(finish_response(1, "a"))).unwrap_err(),
        ReturnCode::RetrieveLogMessageFailed
    );
}

#[test]
fn updates_and_finishes_hand_back_a_signed_step() {
    let update = update_transaction_output(Ok(update_response(8, "AAEC/w=="))).unwrap();
    assert_eq!(update.log_time, -1);
    assert_eq!(update.signature_counter, 8);
    assert_eq!(update.signature_value, vec![0, 1, 2, 255]);
    let finish = finish_transaction_output(Ok(finish_response(9, "c2lnbmF0dXJl"))).unwrap();
    assert_eq!(finish.log_time, 1_650_000_060);
    assert_eq!(finish.signature_counter, 9);
    assert_eq!(finish.signature_value, b"signature");
}

#[test]
fn a_refused_transaction_fails_with_its_own_code() {
    assert_eq!(
        start_transaction_output(Err(Error::Unsuccessful(500))).unwrap_err(),
        ReturnCode::StartTransactionFailed
    );
    assert_eq!(
        update_transaction_output(Err(Error::Unsuccessful(400))).unwrap_err(),
        ReturnCode::UpdateTransactionFailed
    );
    assert_eq!(
        finish_transaction_output(Err(Error::Unsuccessful(500))).unwrap_err(),
        ReturnCode::FinishTransactionFailed
    );
    assert_eq!(ReturnCode::FinishTransactionFailed.value(), -5011);
    for (err, code) in failures() {
        assert_eq!(start_transaction_output(Err(err)).unwrap_err(), code);
    }
    for (err, code) in failures() {
        assert_eq!(update_transaction_output(Err(err)).unwrap_err(), code);
    }
    for (err, code) in failures() {
        assert_eq!(finish_transaction_output(Err(err)).unwrap_err(), code);
    }
}

#[test]
fn outputs_are_written_to_the_places_that_are_named() {
    let output = start_transaction_output(Ok(start_response(42, 7, "c2lnbmF0dXJl"))).unwrap();
    let mut transaction_number: u32 = 0;
    let mut log_time: i64 = 0;
    let mut serial_number: Option<Vec<u8>> = None;
    let mut serial_number_length: u32 = 0;
    let mut signature_counter: u32 = 0;
    let mut signature_value: Option<Vec<u8>> = None;
    let mut signature_value_length: u32 = 0;
    output.write(
        Some(&mut transaction_number),
        Some(&mut log_time),
        Some(&mut serial_number),
        Some(&mut serial_number_length),
        Some(&mut signature_counter),
        Some(&mut signature_value),
        Some(&mut signature_value_length),
    );
    assert_eq!(transaction_number, 42);
    assert_eq!(log_time, 1_650_000_000);
    assert_eq!(serial_number, Some(b"0A1B2C".to_vec()));
    assert_eq!(serial_number_length, 6);
    assert_eq!(signature_counter, 7);
    assert_eq!(signature_value, Some(b"signature".to_vec()));
    assert_eq!(signature_value_length, 9);
}

#[test]
fn lengths_follow_their_buffers() {
    let output = start_transaction_output(Ok(start_response(42, 7, "c2lnbmF0dXJl"))).unwrap();
    let mut serial_number_length: u32 = 77;
    let mut signature_value_length: u32 = 77;
    output.write(
        None,
        None,
        None,
        Some(&mut serial_number_length),
        None,
        None,
        Some(&mut signature_value_length),
    );
    assert_eq!(serial_number_length, 77);
    assert_eq!(signature_value_length, 9);
    let step = finish_transaction_output(Ok(finish_response(9, "c2lnbmF0dXJl"))).unwrap();
    let mut log_time: i64 = 0;
    let mut value: Option<Vec<u8>> = None;
    let mut length: u32 = 0;
    let mut counter: u32 = 0;
    step.write(Some(&mut log_time), Some(&mut value), Some(&mut length), Some(&mut counter));
    assert_eq!(log_time, 1_650_000_060);
    assert_eq!(value, Some(b"signature".to_vec()));
    assert_eq!(length, 9);
    assert_eq!(counter, 9);
}

#[test]
fn a_unit_is_initialized_and_terminated_by_its_state() {
    assert_eq!(initialize_description_set_request().current_state, TseStates::Initialized);
    assert_eq!(disable_secure_element_request().current_state, TseStates::Terminated);
}

#[test]
fn the_figures_of_a_unit_are_read_from_its_info() {
    assert_eq!(max_number_of_clients(Ok(info())), Ok(100));
    assert_eq!(current_number_of_clients(Ok(info())), Ok(3));
    assert_eq!(max_number_of_transactions(Ok(info())), Ok(2000));
    assert_eq!(current_number_of_transactions(Ok(info())), Ok(2));
    let mut odd = info();
    odd.max_number_of_clients = -1;
    odd.current_number_of_clients = (1 << 32) + 6;
    assert_eq!(max_number_of_clients(Ok(odd)), Ok(u32::MAX));
    let mut odd = info();
    odd.current_number_of_clients = (1 << 32) + 6;
    assert_eq!(current_number_of_clients(Ok(odd)), Ok(6));
    assert_eq!(max_number_of_clients(Err(Error::Unsuccessful(500))), Err(ReturnCode::InvalidConfig));
    for (err, code) in failures() {
        assert_eq!(max_number_of_transactions(Err(err)), Err(code));
    }
    for (err, code) in failures() {
        assert_eq!(current_number_of_transactions(Err(err)), Err(code));
    }
    for (err, code) in failures() {
        assert_eq!(current_number_of_clients(Err(err)), Err(code));
    }
}

fn chunk(text: &str, last: bool) -> ExportEvent {
    ExportEvent::Fetched(Ok(ExportDataResponse {
        token_id: String::from("token-1"),
        tar_file_byte_chunk_base64: String::from(text),
        tar_file_end_of_file: last,
        total_tar_file_size_available: false,
        total_tar_file_size: 0,
    }))
}

fn started() -> ExportEvent {
    ExportEvent::Started(Ok(StartExportSessionResponse {
        token_id: String::from("token-1"),
        tse_serial_number_octet: String::from("0A1B2C"),
    }))
}

fn ended(valid: bool) -> ExportEvent {
    ExportEvent::Ended(Ok(EndExportSessionResponse {
        token_id: String::from("token-1"),
        is_valid: valid,
        is_erased: false,
    }))
}

fn fetching() -> ExportState {
    let (state, _) = export_begin(b"C1", 2);
    let (state, _) = export_step(state, started());
    state
}

fn ending() -> ExportState {
    let (state, _) = export_step(fetching(), chunk("dGFy", true));
    state
}

#[test]
fn an_export_runs_from_its_start_to_its_data() {
    let (state, action) = export_begin(b"C1 and more", 2);
    assert!(matches!(state, ExportState::Starting));
    match action {
        ExportAction::Start(request) => {
            assert_eq!(request.client_id, "C1");
            assert!(!request.erase);
        }
        other => panic!("{:?}", other),
    }
    let (state, action) = export_step(state, started());
    match &state {
        ExportState::Fetching { token_id, data } => {
            assert_eq!(token_id, "token-1");
            assert!(data.is_empty());
        }
        other => panic!("{:?}", other),
    }
    match action {
        ExportAction::Fetch(request) => {
            assert_eq!(request.token_id, "token-1");
            assert_eq!(request.max_chunk_size, 1000);
        }
        other => panic!("{:?}", other),
    }
    let (state, action) = export_step(state, chunk("aGVsbG8=", false));
    match &state {
        ExportState::Fetching { token_id, data } => {
            assert_eq!(token_id, "token-1");
            assert_eq!(data, b"aGVsbG8=");
        }
        other => panic!("{:?}", other),
    }
    match action {
        ExportAction::Fetch(request) => {
            assert_eq!(request.token_id, "token-1");
            assert_eq!(request.max_chunk_size, 1000);
        }
        other => panic!("{:?}", other),
    }
    let (state, action) = export_step(state, chunk("d29ybGQ=", true));
    match &state {
        ExportState::Ending { data } => assert_eq!(data, b"aGVsbG8=d29ybGQ="),
        other => panic!("{:?}", other),
    }
    match action {
        ExportAction::End(request) => {
            assert_eq!(request.token_id, "token-1");
            assert_eq!(
                request.sha256_checksum_base64,
                "25046cf3d24eb9ecd55af20064556597551760891fb93853e939a60e4e5b78a4"
            );
            assert!(!request.erase);
        }
        other => panic!("{:?}", other),
    }
    let (state, action) = export_step(state, ended(true));
    assert!(matches!(state, ExportState::Done));
    match action {
        ExportAction::Finish(Ok(data)) => assert_eq!(data, b"aGVsbG8=d29ybGQ="),
        other => panic!("{:?}", other),
    }
}

#[test]
fn an_export_of_nothing_has_the_digest_of_nothing() {
    let (state, action) = export_step(fetching(), chunk("", true));
    assert!(matches!(state, ExportState::Ending { .. }));
    match action {
        ExportAction::End(request) => assert_eq!(
            request.sha256_checksum_base64,
            "e3b0c44298fc1c149afbf4c8996fb92427ae41e4649b934ca495991b7852b855"
        ),
        other => panic!("{:?}", other),
    }
    let (_, action) = export_step(ending(), ended(true));
    match action {
        ExportAction::Finish(Ok(data)) => assert_eq!(data, b"dGFy"),
        other => panic!("{:?}", other),
    }
}

#[test]
fn an_export_with_an_invalid_digest_fails_as_unknown() {
    let (state, action) = export_step(ending(), ended(false));
    assert!(matches!(state, ExportState::Done));
    assert!(matches!(action, ExportAction::Finish(Err(ReturnCode::Unknown))));
    assert_eq!(ReturnCode::Unknown.value(), -3100);
}

#[test]
fn a_failed_request_ends_the_export_with_its_code() {
    for (err, code) in failures() {
        let (state, _) = export_begin(b"C1", 2);
        let (state, action) = export_step(state, ExportEvent::Started(Err(err)));
        assert!(matches!(state, ExportState::Done));
        assert!(matches!(action, ExportAction::Finish(Err(c)) if c == code));
    }
    for (err, code) in failures() {
        let (state, action) = export_step(fetching(), ExportEvent::Fetched(Err(err)));
        assert!(matches!(state, ExportState::Done));
        assert!(matches!(action, ExportAction::Finish(Err(c)) if c == code));
    }
    for (err, code) in failures() {
        let (state, action) = export_step(ending(), ExportEvent::Ended(Err(err)));
        assert!(matches!(state, ExportState::Done));
        assert!(matches!(action, ExportAction::Finish(Err(c)) if c == code));
    }
    let (_, action) = export_step(fetching(), ExportEvent::Fetched(Err(Error::Unsuccessful(500))));
    assert!(matches!(action, ExportAction::Finish(Err(ReturnCode::InvalidConfig))));
}

#[test]
fn an_answer_out_of_turn_ends_the_export_as_unknown() {
    let (state, _) = export_begin(b"C1", 2);
    let (state, action) = export_step(state, chunk("dGFy", true));
    assert!(matches!(state, ExportState::Done));
    assert!(matches!(action, ExportAction::Finish(Err(ReturnCode::Unknown))));
    let (_, action) = export_step(fetching(), ended(true));
    assert!(matches!(action, ExportAction::Finish(Err(ReturnCode::Unknown))));
    let (_, action) = export_step(ending(), started());
    assert!(matches!(action, ExportAction::Finish(Err(ReturnCode::Unknown))));
    let (state, action) = export_step(ExportState::Done, ended(true));
    assert!(matches!(state, ExportState::Done));
    assert!(matches!(action, ExportAction::Finish(Err(ReturnCode::Unknown))));
}

#[test]
fn a_signed_step_is_made_of_what_was_read() {
    let step = middleware_wrapper_atrust::atrustapi::seapi::signed_step(12, (1 << 32) + 3, Ok(vec![1, 2, 3])).unwrap();
    assert_eq!(step.log_time, 12);
    assert_eq!(step.signature_counter, 3);
    assert_eq!(step.signature_value, vec![1, 2, 3]);
    let failed = middleware_wrapper_atrust::atrustapi::seapi::signed_step(12, 3, Err(base64::DecodeError::InvalidLength));
    assert_eq!(failed.unwrap_err(), ReturnCode::RetrieveLogMessageFailed);
    assert_eq!(ReturnCode::RetrieveLogMessageFailed.value(), -5001);
}
