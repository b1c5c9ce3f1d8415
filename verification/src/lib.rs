//! Client library for a console-control service that speaks a line-oriented
//! text protocol over HTTP: request building, response framing, status-code
//! classification, and typed decoding of each command's payload.

mod errors;
mod query;
mod request;
mod response;
mod text;
mod types;

pub use errors::classify;
pub use errors::ConsoleError;
pub use errors::ConsoleFailure;
pub use query::encode_query;
pub use query::parse_query;
pub use request::ConsoleIp;
pub use request::ConsoleRequest;
pub use request::Endpoint;
pub use request::CCAPI;
pub use response::ack_response;
pub use response::firmware_info_response;
pub use response::frame;
pub use response::get_process_map;
pub use response::process_list_response;
pub use response::process_name_response;
pub use response::shutdown_response;
pub use response::temperature_info_response;
pub use response::ConsoleResponse;
pub use response::TransportOutcome;
pub use text::parse_i32_radix;
pub use text::parse_u32_radix;
pub use text::split_str;
pub use text::str_eq;
pub use text::u32_to_dec;
pub use text::u64_to_hex_prefixed;
pub use types::BuzzerType;
pub use types::ConsoleLed;
pub use types::ConsoleType;
pub use types::FirmwareInfo;
pub use types::LedStatus;
pub use types::NotifyIcon;
pub use types::ShutdownMode;
pub use types::TemperatureInfo;
