//! The typed domain values of the protocol: the small enums each command
//! sends as an integer parameter, the console type reported by the
//! firmware command, and the result records of the query commands.

use crate::errors::ConsoleFailure;
use crate::text::str_eq;
use vstd::prelude::*;

verus! {

/// How the console buzzer rings.
#[derive(Debug, Clone, Copy, PartialEq, Eq, Structural)]
pub enum BuzzerType {
    Continuous,
    Single,
    Double,
    Triple,
}

/// Which buzzer type each user-facing token names, if any.
pub open spec fn spec_buzzer_of_token(s: Seq<char>) -> Option<BuzzerType> {
    if s == "single"@ {
        Some(BuzzerType::Single)
    } else if s == "double"@ {
        Some(BuzzerType::Double)
    } else if s == "triple"@ {
        Some(BuzzerType::Triple)
    } else if s == "continuous"@ {
        Some(BuzzerType::Continuous)
    } else {
        None
    }
}

/// The wire code of each buzzer type.
pub open spec fn spec_buzzer_value(t: BuzzerType) -> i32 {
    match t {
        BuzzerType::Continuous => 0,
        BuzzerType::Single => 1,
        BuzzerType::Double => 2,
        BuzzerType::Triple => 3,
    }
}

impl BuzzerType {
    /// The integer code this buzzer type is sent as.
    pub fn get_value(&self) -> (r: i32)
        ensures
            r == spec_buzzer_value(*self),
    {
        match *self {
            BuzzerType::Continuous => 0,
            BuzzerType::Single => 1,
            BuzzerType::Double => 2,
            BuzzerType::Triple => 3,
        }
    }

    /// Decodes a user-facing token; an unrecognized token is rejected,
    /// naming it, before any request is built.
    pub fn from_token(s: &str) -> (r: Result<BuzzerType, ConsoleFailure>)
        ensures
            spec_buzzer_of_token(s@) matches Some(t) ==> r == Ok::<BuzzerType, ConsoleFailure>(t),
            spec_buzzer_of_token(s@) is None ==> (r matches Err(ConsoleFailure::InvalidToken(t))
                && t@ == s@),
    {
        if str_eq(s, "single") {
            Ok(BuzzerType::Single)
        } else if str_eq(s, "double") {
            Ok(BuzzerType::Double)
        } else if str_eq(s, "triple") {
            Ok(BuzzerType::Triple)
        } else if str_eq(s, "continuous") {
            Ok(BuzzerType::Continuous)
        } else {
            Err(ConsoleFailure::InvalidToken(s.to_owned()))
        }
    }
}

/// How the shutdown command ends the console's current session.
#[derive(Debug, Clone, Copy, PartialEq, Eq, Structural)]
pub enum ShutdownMode {
    Shutdown,
    SoftReboot,
    HardReboot,
}

/// Which reboot mode each restart token names, if any.
pub open spec fn spec_restart_of_token(s: Seq<char>) -> Option<ShutdownMode> {
    if s == "soft"@ {
        Some(ShutdownMode::SoftReboot)
    } else if s == "hard"@ {
        Some(ShutdownMode::HardReboot)
    } else {
        None
    }
}

/// The wire code of each shutdown mode.
pub open spec fn spec_shutdown_value(m: ShutdownMode) -> i32 {
    match m {
        ShutdownMode::Shutdown => 1,
        ShutdownMode::SoftReboot => 2,
        ShutdownMode::HardReboot => 3,
    }
}

impl ShutdownMode {
    /// The integer code this shutdown mode is sent as.
    pub fn get_value(&self) -> (r: i32)
        ensures
            r == spec_shutdown_value(*self),
    {
        match *self {
            ShutdownMode::Shutdown => 1,
            ShutdownMode::SoftReboot => 2,
            ShutdownMode::HardReboot => 3,
        }
    }

    /// Decodes a restart-mode token; an unrecognized token is rejected,
    /// naming it, before any request is built.
    pub fn restart_from_token(s: &str) -> (r: Result<ShutdownMode, ConsoleFailure>)
        ensures
            spec_restart_of_token(s@) matches Some(m) ==> r == Ok::<
                ShutdownMode,
                ConsoleFailure,
            >(m),
            spec_restart_of_token(s@) is None ==> (r matches Err(ConsoleFailure::InvalidToken(t))
                && t@ == s@),
    {
        if str_eq(s, "soft") {
            Ok(ShutdownMode::SoftReboot)
        } else if str_eq(s, "hard") {
            Ok(ShutdownMode::HardReboot)
        } else {
            Err(ConsoleFailure::InvalidToken(s.to_owned()))
        }
    }
}

/// The icon shown beside a notification message.
#[derive(Debug, Clone, Copy, PartialEq, Eq, Structural)]
pub enum NotifyIcon {
    Info,
    Caution,
    Friend,
    Slider,
    WrongWay,
    Dialog,
    DialogShadow,
    Text,
    Pointer,
    Grab,
    Hand,
    Pen,
    Finger,
    Arrow,
    ArrowRight,
    Progress,
    Trophy1,
    Trophy2,
    Trophy3,
    Trophy4,
}

/// The wire code of each notification icon.
pub open spec fn spec_icon_value(icon: NotifyIcon) -> i32 {
    match icon {
        NotifyIcon::Info => 0,
        NotifyIcon::Caution => 1,
        NotifyIcon::Friend => 2,
        NotifyIcon::Slider => 3,
        NotifyIcon::WrongWay => 4,
        NotifyIcon::Dialog => 5,
        NotifyIcon::DialogShadow => 6,
        NotifyIcon::Text => 7,
        NotifyIcon::Pointer => 8,
        NotifyIcon::Grab => 9,
        NotifyIcon::Hand => 10,
        NotifyIcon::Pen => 11,
        NotifyIcon::Finger => 12,
        NotifyIcon::Arrow => 13,
        NotifyIcon::ArrowRight => 14,
        NotifyIcon::Progress => 15,
        NotifyIcon::Trophy1 => 16,
        NotifyIcon::Trophy2 => 17,
        NotifyIcon::Trophy3 => 18,
        NotifyIcon::Trophy4 => 19,
    }
}

/// Which icon each user-facing token names, if any.
pub open spec fn spec_icon_of_token(s: Seq<char>) -> Option<NotifyIcon> {
    if s == "info"@ {
        Some(NotifyIcon::Info)
    } else if s == "caution"@ {
        Some(NotifyIcon::Caution)
    } else if s == "friend"@ {
        Some(NotifyIcon::Friend)
    } else if s == "slider"@ {
        Some(NotifyIcon::Slider)
    } else if s == "wrongway"@ {
        Some(NotifyIcon::WrongWay)
    } else if s == "dialog"@ {
        Some(NotifyIcon::Dialog)
    } else if s == "dialogshadow"@ {
        Some(NotifyIcon::DialogShadow)
    } else if s == "text"@ {
        Some(NotifyIcon::Text)
    } else if s == "pointer"@ {
        Some(NotifyIcon::Pointer)
    } else if s == "grab"@ {
        Some(NotifyIcon::Grab)
    } else if s == "hand"@ {
        Some(NotifyIcon::Hand)
    } else if s == "pen"@ {
        Some(NotifyIcon::Pen)
    } else if s == "finger"@ {
        Some(NotifyIcon::Finger)
    } else if s == "arrow"@ {
        Some(NotifyIcon::Arrow)
    } else if s == "arrowright"@ {
        Some(NotifyIcon::ArrowRight)
    } else if s == "progress"@ {
        Some(NotifyIcon::Progress)
    } else if s == "trophy1"@ {
        Some(NotifyIcon::Trophy1)
    } else if s == "trophy2"@ {
        Some(NotifyIcon::Trophy2)
    } else if s == "trophy3"@ {
        Some(NotifyIcon::Trophy3)
    } else if s == "trophy4"@ {
        Some(NotifyIcon::Trophy4)
    } else {
        None
    }
}

impl NotifyIcon {
    /// The integer code this icon is sent as.
    pub fn get_value(&self) -> (r: i32)
        ensures
            r == spec_icon_value(*self),
    {
        match *self {
            NotifyIcon::Info => 0,
            NotifyIcon::Caution => 1,
            NotifyIcon::Friend => 2,
            NotifyIcon::Slider => 3,
            NotifyIcon::WrongWay => 4,
            NotifyIcon::Dialog => 5,
            NotifyIcon::DialogShadow => 6,
            NotifyIcon::Text => 7,
            NotifyIcon::Pointer => 8,
            NotifyIcon::Grab => 9,
            NotifyIcon::Hand => 10,
            NotifyIcon::Pen => 11,
            NotifyIcon::Finger => 12,
            NotifyIcon::Arrow => 13,
            NotifyIcon::ArrowRight => 14,
            NotifyIcon::Progress => 15,
            NotifyIcon::Trophy1 => 16,
            NotifyIcon::Trophy2 => 17,
            NotifyIcon::Trophy3 => 18,
            NotifyIcon::Trophy4 => 19,
        }
    }

    /// Decodes a user-facing token; an unrecognized token is rejected,
    /// naming it, before any request is built.
    pub fn from_token(s: &str) -> (r: Result<NotifyIcon, ConsoleFailure>)
        ensures
            spec_icon_of_token(s@) matches Some(icon) ==> r == Ok::<
                NotifyIcon,
                ConsoleFailure,
            >(icon),
            spec_icon_of_token(s@) is None ==> (r matches Err(ConsoleFailure::InvalidToken(t))
                && t@ == s@),
    {
        if str_eq(s, "info") {
            Ok(NotifyIcon::Info)
        } else if str_eq(s, "caution") {
            Ok(NotifyIcon::Caution)
        } else if str_eq(s, "friend") {
            Ok(NotifyIcon::Friend)
        } else if str_eq(s, "slider") {
            Ok(NotifyIcon::Slider)
        } else if str_eq(s, "wrongway") {
            Ok(NotifyIcon::WrongWay)
        } else if str_eq(s, "dialog") {
            Ok(NotifyIcon::Dialog)
        } else if str_eq(s, "dialogshadow") {
            Ok(NotifyIcon::DialogShadow)
        } else if str_eq(s, "text") {
            Ok(NotifyIcon::Text)
        } else if str_eq(s, "pointer") {
            Ok(NotifyIcon::Pointer)
        } else if str_eq(s, "grab") {
            Ok(NotifyIcon::Grab)
        } else if str_eq(s, "hand") {
            Ok(NotifyIcon::Hand)
        } else if str_eq(s, "pen") {
            Ok(NotifyIcon::Pen)
        } else if str_eq(s, "finger") {
            Ok(NotifyIcon::Finger)
        } else if str_eq(s, "arrow") {
            Ok(NotifyIcon::Arrow)
        } else if str_eq(s, "arrowright") {
            Ok(NotifyIcon::ArrowRight)
        } else if str_eq(s, "progress") {
            Ok(NotifyIcon::Progress)
        } else if str_eq(s, "trophy1") {
            Ok(NotifyIcon::Trophy1)
        } else if str_eq(s, "trophy2") {
            Ok(NotifyIcon::Trophy2)
        } else if str_eq(s, "trophy3") {
            Ok(NotifyIcon::Trophy3)
        } else if str_eq(s, "trophy4") {
            Ok(NotifyIcon::Trophy4)
        } else {
            Err(ConsoleFailure::InvalidToken(s.to_owned()))
        }
    }
}

/// Which console LED a command addresses.
#[derive(Debug, Clone, Copy, PartialEq, Eq, Structural)]
pub enum ConsoleLed {
    Red,
    Green,
}

/// Which LED color each user-facing token names, if any.
pub open spec fn spec_led_of_token(s: Seq<char>) -> Option<ConsoleLed> {
    if s == "red"@ {
        Some(ConsoleLed::Red)
    } else if s == "green"@ {
        Some(ConsoleLed::Green)
    } else {
        None
    }
}

/// The wire code of each LED color.
pub open spec fn spec_led_value(c: ConsoleLed) -> i32 {
    match c {
        ConsoleLed::Green => 1,
        ConsoleLed::Red => 2,
    }
}

impl ConsoleLed {
    /// The integer code this LED color is sent as.
    pub fn get_value(&self) -> (r: i32)
        ensures
            r == spec_led_value(*self),
    {
        match *self {
            ConsoleLed::Green => 1,
            ConsoleLed::Red => 2,
        }
    }

    /// Decodes a user-facing token; an unrecognized token is rejected,
    /// naming it, before any request is built.
    pub fn from_token(s: &str) -> (r: Result<ConsoleLed, ConsoleFailure>)
        ensures
            spec_led_of_token(s@) matches Some(c) ==> r == Ok::<ConsoleLed, ConsoleFailure>(c),
            spec_led_of_token(s@) is None ==> (r matches Err(ConsoleFailure::InvalidToken(t))
                && t@ == s@),
    {
        if str_eq(s, "red") {
            Ok(ConsoleLed::Red)
        } else if str_eq(s, "green") {
            Ok(ConsoleLed::Green)
        } else {
            Err(ConsoleFailure::InvalidToken(s.to_owned()))
        }
    }
}

/// What a console LED is told to do.
#[derive(Debug, Clone, Copy, PartialEq, Eq, Structural)]
pub enum LedStatus {
    Off,
    On,
    Blink,
}

/// Which LED status each user-facing token names, if any.
pub open spec fn spec_led_status_of_token(s: Seq<char>) -> Option<LedStatus> {
    if s == "on"@ {
        Some(LedStatus::On)
    } else if s == "off"@ {
        Some(LedStatus::Off)
    } else if s == "blink"@ {
        Some(LedStatus::Blink)
    } else {
        None
    }
}

/// The wire code of each LED status.
pub open spec fn spec_led_status_value(s: LedStatus) -> i32 {
    match s {
        LedStatus::Off => 0,
        LedStatus::On => 1,
        LedStatus::Blink => 2,
    }
}

impl LedStatus {
    /// The integer code this LED status is sent as.
    pub fn get_value(&self) -> (r: i32)
        ensures
            r == spec_led_status_value(*self),
    {
        match *self {
            LedStatus::Off => 0,
            LedStatus::On => 1,
            LedStatus::Blink => 2,
        }
    }

    /// Decodes a user-facing token; an unrecognized token is rejected,
    /// naming it, before any request is built.
    pub fn from_token(s: &str) -> (r: Result<LedStatus, ConsoleFailure>)
        ensures
            spec_led_status_of_token(s@) matches Some(c) ==> r == Ok::<
                LedStatus,
                ConsoleFailure,
            >(c),
            spec_led_status_of_token(s@) is None ==> (r matches Err(ConsoleFailure::InvalidToken(
                t,
            )) && t@ == s@),
    {
        if str_eq(s, "on") {
            Ok(LedStatus::On)
        } else if str_eq(s, "off") {
            Ok(LedStatus::Off)
        } else if str_eq(s, "blink") {
            Ok(LedStatus::Blink)
        } else {
            Err(ConsoleFailure::InvalidToken(s.to_owned()))
        }
    }
}

/// The kind of console a firmware report names.
#[derive(Debug, Clone, Copy, PartialEq, Eq, Structural)]
pub enum ConsoleType {
    Unknown,
    CEX,
    DEX,
    TOOL,
}

/// The small integer each console type is reported as.
pub open spec fn spec_console_type_value(t: ConsoleType) -> i32 {
    match t {
        ConsoleType::Unknown => 0,
        ConsoleType::CEX => 1,
        ConsoleType::DEX => 2,
        ConsoleType::TOOL => 3,
    }
}

/// The console type a reported integer decodes to; unmapped values
/// collapse to `Unknown`.
pub open spec fn spec_console_type_of(value: i32) -> ConsoleType {
    if value == 1 {
        ConsoleType::CEX
    } else if value == 2 {
        ConsoleType::DEX
    } else if value == 3 {
        ConsoleType::TOOL
    } else {
        ConsoleType::Unknown
    }
}

impl ConsoleType {
    /// The integer code this console type is reported as.
    pub fn get_value(&self) -> (r: i32)
        ensures
            r == spec_console_type_value(*self),
    {
        match *self {
            ConsoleType::Unknown => 0,
            ConsoleType::CEX => 1,
            ConsoleType::DEX => 2,
            ConsoleType::TOOL => 3,
        }
    }
}

impl From<i32> for ConsoleType {
    /// Decodes a reported integer; unmapped values collapse to `Unknown`.
    fn from(value: i32) -> (r: ConsoleType) {
        match value {
            1 => ConsoleType::CEX,
            2 => ConsoleType::DEX,
            3 => ConsoleType::TOOL,
            _ => ConsoleType::Unknown,
        }
    }
}

impl vstd::std_specs::convert::FromSpecImpl<i32> for ConsoleType {
    open spec fn obeys_from_spec() -> bool {
        true
    }

    open spec fn from_spec(value: i32) -> ConsoleType {
        spec_console_type_of(value)
    }
}

/// What the firmware command reports: the firmware version (decimal on
/// the wire), the protocol version (hexadecimal on the wire) and the
/// console type (a small decimal integer on the wire).
#[derive(Debug, Clone, Copy, PartialEq, Eq, Structural)]
pub struct FirmwareInfo {
    pub firmware_version: u32,
    pub ccapi_version: u32,
    pub console_type: ConsoleType,
}

/// What the temperature command reports: two sensor readings in Celsius,
/// each hexadecimal on the wire.
#[derive(Debug, Clone, Copy, PartialEq, Eq, Structural)]
pub struct TemperatureInfo {
    pub cell: i32,
    pub rsx: i32,
}

} // verus!
