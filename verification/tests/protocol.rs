use ccapi::ack_response;
use ccapi::firmware_info_response;
use ccapi::frame;
use ccapi::get_process_map;
use ccapi::process_list_response;
use ccapi::process_name_response;
use ccapi::shutdown_response;
use ccapi::temperature_info_response;
use ccapi::ConsoleError;
use ccapi::ConsoleFailure;
use ccapi::ConsoleType;
use ccapi::FirmwareInfo;
use ccapi::TemperatureInfo;
use ccapi::TransportOutcome;

fn body(text: &str) -> TransportOutcome {
    TransportOutcome::Body(text.to_string())
}

fn refused() -> TransportOutcome {
    TransportOutcome::Failure("connection refused".to_string())
}

/// A body with no status line at all is a framing failure, not a panic
/// or a silent success.
#[test]
fn empty_body_is_a_framing_failure() {
    assert_eq!(ack_response(&body("")), Err(ConsoleFailure::Framing));
    assert!(frame(&body("")).is_err());
}

/// A status line that is not hexadecimal is a framing failure too.
#[test]
fn malformed_status_line_is_a_framing_failure() {
    assert_eq!(ack_response(&body("zz\n1")), Err(ConsoleFailure::Framing));
    assert_eq!(ack_response(&body("\n1")), Err(ConsoleFailure::Framing));
}

/// A non-zero status is classified through the taxonomy and carries the
/// raw code; the payload is never decoded.
#[test]
fn nonzero_status_reports_its_classification() {
    let r = firmware_info_response(&body("80010002\n4700\n1a\n1"));
    assert_eq!(
        r,
        Err(ConsoleFailure::Status { code: 0x80010002, kind: ConsoleError::EINVAL })
    );
    let r = ack_response(&body("dead\nwhatever"));
    assert_eq!(
        r,
        Err(ConsoleFailure::Status { code: 0xdead, kind: ConsoleError::Unknown })
    );
}

/// A zero status with no payload succeeds for acknowledge-only commands.
#[test]
fn zero_status_acknowledges() {
    assert_eq!(ack_response(&body("0")), Ok(()));
    assert_eq!(ack_response(&body("0\n")), Ok(()));
}

/// A transport failure surfaces as a transport failure for ordinary
/// commands.
#[test]
fn transport_failure_surfaces_for_ordinary_commands() {
    let r = ack_response(&refused());
    assert_eq!(
        r,
        Err(ConsoleFailure::Transport("connection refused".to_string()))
    );
}

/// The shutdown quirk: the remote severs the connection as part of a
/// successful shutdown, so a transport failure on this command is
/// success, not failure.
#[test]
fn shutdown_treats_transport_failure_as_success() {
    assert_eq!(shutdown_response(&refused()), Ok(()));
}

/// Shutdown still reports a malformed or non-zero-status body.
#[test]
fn shutdown_still_reports_protocol_failures() {
    assert_eq!(shutdown_response(&body("0")), Ok(()));
    assert_eq!(shutdown_response(&body("")), Err(ConsoleFailure::Framing));
    assert_eq!(
        shutdown_response(&body("80010009")),
        Err(ConsoleFailure::Status { code: 0x80010009, kind: ConsoleError::EPERM })
    );
}

/// Firmware decode: line 1 decimal, line 2 hexadecimal, line 3 a console
/// type integer.
#[test]
fn firmware_info_decodes_each_radix() {
    let r = firmware_info_response(&body("0\n4700\n1a\n1"));
    assert_eq!(
        r,
        Ok(FirmwareInfo {
            firmware_version: 4700,
            ccapi_version: 26,
            console_type: ConsoleType::CEX,
        })
    );
}

/// An unmapped console type integer collapses to `Unknown`.
#[test]
fn firmware_info_unknown_console_type() {
    let r = firmware_info_response(&body("0\n100\nff\n9"));
    assert_eq!(
        r,
        Ok(FirmwareInfo {
            firmware_version: 100,
            ccapi_version: 255,
            console_type: ConsoleType::Unknown,
        })
    );
}

/// Missing any of the three firmware payload lines is a decode failure.
#[test]
fn firmware_info_missing_lines_is_a_decode_failure() {
    let r = firmware_info_response(&body("0\n4700\n1a"));
    assert_eq!(
        r,
        Err(ConsoleFailure::Decode("getfirmwareinfo".to_string()))
    );
}

/// A firmware payload line in the wrong radix is a decode failure.
#[test]
fn firmware_info_wrong_radix_is_a_decode_failure() {
    let r = firmware_info_response(&body("0\n47x0\n1a\n1"));
    assert_eq!(
        r,
        Err(ConsoleFailure::Decode("getfirmwareinfo".to_string()))
    );
}

/// Temperature readings are hexadecimal signed Celsius values.
#[test]
fn temperature_decodes_hexadecimal_celsius() {
    let r = temperature_info_response(&body("0\n3c\n42"));
    assert_eq!(r, Ok(TemperatureInfo { cell: 60, rsx: 66 }));
    let r = temperature_info_response(&body("0\n-a\n0"));
    assert_eq!(r, Ok(TemperatureInfo { cell: -10, rsx: 0 }));
}

/// A missing temperature line is a decode failure.
#[test]
fn temperature_missing_line_is_a_decode_failure() {
    let r = temperature_info_response(&body("0\n3c"));
    assert_eq!(r, Err(ConsoleFailure::Decode("gettemperature".to_string())));
}

/// Non-numeric trailer lines are dropped from the process list; the
/// order of the parsed identifiers is kept.
#[test]
fn process_list_drops_non_numeric_lines() {
    let r = process_list_response(&body("0\n100\n101\nNaN\n102"));
    assert_eq!(r, Ok(vec![100, 101, 102]));
}

/// A process list with no payload lines is an empty list, not an error.
#[test]
fn process_list_with_no_payload_is_empty() {
    assert_eq!(process_list_response(&body("0")), Ok(vec![]));
}

/// The process name is line 1 of the payload.
#[test]
fn process_name_is_the_payload_line() {
    let r = process_name_response(&body("0\nvsh.self"));
    assert_eq!(r, Ok("vsh.self".to_string()));
}

/// A process-name response with no name line is a decode failure.
#[test]
fn process_name_missing_line_is_a_decode_failure() {
    let r = process_name_response(&body("0"));
    assert_eq!(r, Err(ConsoleFailure::Decode("getprocessname".to_string())));
}

/// The process map pairs each identifier with its looked-up name, in
/// list order.
#[test]
fn process_map_pairs_pids_with_names() {
    let pids = vec![100u32, 101];
    let outcomes = vec![body("0\nfirst.self"), body("0\nsecond.self")];
    let r = get_process_map(&pids, &outcomes);
    assert_eq!(
        r,
        Ok(vec![
            (100, "first.self".to_string()),
            (101, "second.self".to_string()),
        ])
    );
}

/// All or nothing: if one name lookup fails, the whole operation fails;
/// no partial map is returned.
#[test]
fn process_map_fails_whole_when_one_lookup_fails() {
    let pids = vec![100u32, 101, 102];
    let outcomes = vec![body("0\nfirst.self"), refused(), body("0\nthird.self")];
    let r = get_process_map(&pids, &outcomes);
    assert_eq!(
        r,
        Err(ConsoleFailure::Transport("connection refused".to_string()))
    );
}

/// Failure messages name the raw status code and its description.
#[test]
fn failure_messages_name_their_context() {
    let e = ConsoleFailure::Status { code: 0x80010002, kind: ConsoleError::EINVAL };
    assert_eq!(
        e.describe(),
        "invalid response code '0x80010002': Invalid argument or flag"
    );
    assert_eq!(ConsoleFailure::Framing.describe(), "could not read status code");
    assert_eq!(
        ConsoleFailure::Decode("getfirmwareinfo".to_string()).describe(),
        "could not decode response of 'getfirmwareinfo'"
    );
    assert_eq!(ConsoleFailure::Unimplemented.describe(), "not implemented");
}

/// A status failure can carry the request's parameters as context.
#[test]
fn failure_messages_can_attach_parameters() {
    let e = ConsoleFailure::Status { code: 0x80010005, kind: ConsoleError::ESRCH };
    let params = vec![("pid".to_string(), "4700".to_string())];
    assert_eq!(
        e.describe_with_parameters(&params),
        "invalid response code '0x80010005': The resource with the specified identifier \
         does not exist, parameters: pid=4700"
    );
}
