use ccapi::encode_query;
use ccapi::BuzzerType;
use ccapi::ConsoleFailure;
use ccapi::ConsoleIp;
use ccapi::ConsoleLed;
use ccapi::ConsoleType;
use ccapi::LedStatus;
use ccapi::NotifyIcon;
use ccapi::ShutdownMode;
use ccapi::CCAPI;

fn client() -> CCAPI {
    CCAPI::new(ConsoleIp { oct0: 192, oct1: 168, oct2: 1, oct3: 2 })
}

/// A new client points at the default port; address and port can each be
/// changed independently.
#[test]
fn client_endpoint_is_mutable() {
    let mut c = client();
    let url = c.get_firmware_info().base_url();
    assert_eq!(url, "http://192.168.1.2:6333/ccapi/getfirmwareinfo");
    c.set_console_port(8080);
    let url = c.get_firmware_info().base_url();
    assert_eq!(url, "http://192.168.1.2:8080/ccapi/getfirmwareinfo");
    c.set_console_ip(ConsoleIp { oct0: 10, oct1: 0, oct2: 0, oct3: 7 });
    let url = c.get_firmware_info().base_url();
    assert_eq!(url, "http://10.0.0.7:8080/ccapi/getfirmwareinfo");
}

/// Each command builds its documented URL and parameters.
#[test]
fn commands_build_their_requests() {
    let c = client();

    let r = c.ring_buzzer(BuzzerType::Double);
    assert_eq!(r.base_url(), "http://192.168.1.2:6333/ccapi/ringbuzzer");
    assert_eq!(encode_query(&r.parameters), "type=2");

    let r = c.shutdown(ShutdownMode::Shutdown);
    assert_eq!(r.base_url(), "http://192.168.1.2:6333/ccapi/shutdown");
    assert_eq!(encode_query(&r.parameters), "mode=1");

    let r = c.shutdown(ShutdownMode::SoftReboot);
    assert_eq!(encode_query(&r.parameters), "mode=2");

    let r = c.notify(NotifyIcon::Caution, "hello there");
    assert_eq!(r.base_url(), "http://192.168.1.2:6333/ccapi/notify");
    assert_eq!(encode_query(&r.parameters), "id=1&msg=hello there");

    let r = c.set_console_led(ConsoleLed::Red, LedStatus::Blink);
    assert_eq!(r.base_url(), "http://192.168.1.2:6333/ccapi/setconsoleled");
    assert_eq!(encode_query(&r.parameters), "color=2&status=2");

    let r = c.get_temperature_info();
    assert_eq!(r.base_url(), "http://192.168.1.2:6333/ccapi/gettemperature");
    assert_eq!(encode_query(&r.parameters), "");

    let r = c.get_process_list();
    assert_eq!(r.base_url(), "http://192.168.1.2:6333/ccapi/getprocesslist");

    let r = c.get_process_name(&4700);
    assert_eq!(r.base_url(), "http://192.168.1.2:6333/ccapi/getprocessname");
    assert_eq!(encode_query(&r.parameters), "pid=4700");
}

/// Adding a parameter under an existing name replaces its value.
#[test]
fn param_replaces_an_existing_name() {
    let c = client();
    let r = c.ring_buzzer(BuzzerType::Single).param("type", "3");
    assert_eq!(encode_query(&r.parameters), "type=3");
    let r = c.ring_buzzer(BuzzerType::Single).param("extra", "x");
    assert_eq!(encode_query(&r.parameters), "type=1&extra=x");
}

/// Reading process memory is a documented stub: it always reports an
/// unimplemented failure, whatever its arguments.
#[test]
fn read_process_memory_is_unimplemented() {
    let c = client();
    let r = c.read_process_memory(&4700, &0xdead, &16);
    assert_eq!(r, Err(ConsoleFailure::Unimplemented));
}

/// The wire code of every enum member.
#[test]
fn enum_wire_codes() {
    assert_eq!(BuzzerType::Continuous.get_value(), 0);
    assert_eq!(BuzzerType::Single.get_value(), 1);
    assert_eq!(BuzzerType::Double.get_value(), 2);
    assert_eq!(BuzzerType::Triple.get_value(), 3);
    assert_eq!(ShutdownMode::Shutdown.get_value(), 1);
    assert_eq!(ShutdownMode::SoftReboot.get_value(), 2);
    assert_eq!(ShutdownMode::HardReboot.get_value(), 3);
    assert_eq!(NotifyIcon::Info.get_value(), 0);
    assert_eq!(NotifyIcon::Trophy4.get_value(), 19);
    assert_eq!(ConsoleLed::Green.get_value(), 1);
    assert_eq!(ConsoleLed::Red.get_value(), 2);
    assert_eq!(LedStatus::Off.get_value(), 0);
    assert_eq!(LedStatus::On.get_value(), 1);
    assert_eq!(LedStatus::Blink.get_value(), 2);
    assert_eq!(ConsoleType::Unknown.get_value(), 0);
    assert_eq!(ConsoleType::CEX.get_value(), 1);
    assert_eq!(ConsoleType::DEX.get_value(), 2);
    assert_eq!(ConsoleType::TOOL.get_value(), 3);
}

/// Console types decode from their reported integers; unmapped values
/// collapse to `Unknown`.
#[test]
fn console_type_from_reported_integer() {
    assert_eq!(ConsoleType::from(1), ConsoleType::CEX);
    assert_eq!(ConsoleType::from(2), ConsoleType::DEX);
    assert_eq!(ConsoleType::from(3), ConsoleType::TOOL);
    assert_eq!(ConsoleType::from(0), ConsoleType::Unknown);
    assert_eq!(ConsoleType::from(-1), ConsoleType::Unknown);
    assert_eq!(ConsoleType::from(250), ConsoleType::Unknown);
}

/// Valid tokens decode to their enum members.
#[test]
fn valid_tokens_decode() {
    assert_eq!(BuzzerType::from_token("single"), Ok(BuzzerType::Single));
    assert_eq!(BuzzerType::from_token("double"), Ok(BuzzerType::Double));
    assert_eq!(BuzzerType::from_token("triple"), Ok(BuzzerType::Triple));
    assert_eq!(
        BuzzerType::from_token("continuous"),
        Ok(BuzzerType::Continuous)
    );
    assert_eq!(
        ShutdownMode::restart_from_token("soft"),
        Ok(ShutdownMode::SoftReboot)
    );
    assert_eq!(
        ShutdownMode::restart_from_token("hard"),
        Ok(ShutdownMode::HardReboot)
    );
    assert_eq!(NotifyIcon::from_token("info"), Ok(NotifyIcon::Info));
    assert_eq!(NotifyIcon::from_token("trophy4"), Ok(NotifyIcon::Trophy4));
    assert_eq!(ConsoleLed::from_token("red"), Ok(ConsoleLed::Red));
    assert_eq!(ConsoleLed::from_token("green"), Ok(ConsoleLed::Green));
    assert_eq!(LedStatus::from_token("on"), Ok(LedStatus::On));
    assert_eq!(LedStatus::from_token("off"), Ok(LedStatus::Off));
    assert_eq!(LedStatus::from_token("blink"), Ok(LedStatus::Blink));
}

/// Invalid enum tokens are rejected before any request exists, with a
/// message naming the offending token.
#[test]
fn invalid_tokens_are_rejected_by_name() {
    let e = BuzzerType::from_token("bogus").unwrap_err();
    assert_eq!(e, ConsoleFailure::InvalidToken("bogus".to_string()));
    assert_eq!(e.describe(), "invalid token 'bogus'");

    let e = NotifyIcon::from_token("bogus").unwrap_err();
    assert_eq!(e.describe(), "invalid token 'bogus'");

    let e = ShutdownMode::restart_from_token("medium").unwrap_err();
    assert_eq!(e.describe(), "invalid token 'medium'");

    let e = ConsoleLed::from_token("blue").unwrap_err();
    assert_eq!(e.describe(), "invalid token 'blue'");

    let e = LedStatus::from_token("dim").unwrap_err();
    assert_eq!(e.describe(), "invalid token 'dim'");
}
