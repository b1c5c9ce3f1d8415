//! Response framing and the typed decoding of each command's payload.
//!
//! The transport hands every request's outcome over as a
//! [`TransportOutcome`]: the raw response body, or the transport's own
//! failure.  Framing splits the body into lines and reads line 0 as a
//! hexadecimal status: a missing or malformed status line is a framing
//! failure, a non-zero status is classified through the error taxonomy,
//! and only a zero status hands the remaining lines to a decoder.

use crate::errors::spec_classify;
use crate::errors::classify;
use crate::errors::ConsoleFailure;
use crate::text::parse_i32_radix;
use crate::text::parse_u32_radix;
use crate::text::spec_parse_i32;
use crate::text::spec_parse_u32;
use crate::text::spec_split;
use crate::text::split_str;
use crate::text::strings_view;
use crate::types::spec_console_type_of;
use crate::types::ConsoleType;
use crate::types::FirmwareInfo;
use crate::types::TemperatureInfo;
use vstd::prelude::*;

verus! {

/// What one HTTP call produced: the full response body, or the message
/// of the transport failure that ended the call.
#[derive(Debug, Clone, PartialEq, Eq)]
pub enum TransportOutcome {
    Body(String),
    Failure(String),
}

/// The lines of a response body: the newline-separated pieces, in order.
/// There is always at least one; an empty body yields one empty line.
pub open spec fn spec_lines(body: Seq<char>) -> Seq<Seq<char>> {
    spec_split(body, '\n')
}

/// The status a response body reports: its first line read as a
/// hexadecimal 32-bit value, or nothing when that line is no such value.
pub open spec fn spec_status(body: Seq<char>) -> Option<u32> {
    spec_parse_u32(spec_lines(body)[0], 16)
}

/// Whether an outcome frames successfully: the call completed and the
/// body's status line reads as hexadecimal zero.
pub open spec fn spec_framed_ok(o: TransportOutcome) -> bool {
    o matches TransportOutcome::Body(b) && spec_status(b@) == Some(0u32)
}

/// The lines a framed outcome carries (line 0 is the status line).
pub open spec fn spec_payload(o: TransportOutcome) -> Seq<Seq<char>> {
    spec_lines(o->Body_0@)
}

/// How a request/response cycle that did not reach a zero status is
/// reported: a transport failure carries the transport's message, a
/// malformed status line is a framing failure, and a non-zero status
/// carries the raw code with its classification.
pub open spec fn frame_failure_matches(o: TransportOutcome, e: ConsoleFailure) -> bool {
    match o {
        TransportOutcome::Failure(m) => e matches ConsoleFailure::Transport(t) && t@ == m@,
        TransportOutcome::Body(b) => match spec_status(b@) {
            None => e == ConsoleFailure::Framing,
            Some(s) => s != 0 && (e matches ConsoleFailure::Status { code, kind } && code == s
                && kind == spec_classify(s)),
        },
    }
}

/// Law: the status line alone gates decoding.  A body whose status
/// reads as zero frames successfully, and only its payload lines reach a
/// decoder; a body with any non-zero status never does — whatever its
/// payload lines hold, it reports exactly that code and its
/// classification.
pub proof fn lemma_status_gates_decoding(b: String, e: ConsoleFailure)
    ensures
        spec_framed_ok(TransportOutcome::Body(b)) <==> spec_status(b@) == Some(0u32),
        spec_framed_ok(TransportOutcome::Body(b)) ==> spec_payload(TransportOutcome::Body(b))
            == spec_lines(b@),
        forall|s: u32|
            spec_status(b@) == Some(s) && s != 0 && frame_failure_matches(
                TransportOutcome::Body(b),
                e,
            ) ==> (e matches ConsoleFailure::Status { code, kind } && code == s && kind
                == spec_classify(s)),
{
}

/// A response that framed successfully: the body's lines, whose line 0
/// reads as hexadecimal zero.
#[derive(Debug)]
pub struct ConsoleResponse {
    pub lines: Vec<String>,
}

/// Frames an outcome: splits the body on newlines and reads line 0 as a
/// hexadecimal status.  Succeeds exactly on a completed call whose
/// status is zero; every other outcome maps to its failure.
pub fn frame(outcome: &TransportOutcome) -> (r: Result<ConsoleResponse, ConsoleFailure>)
    ensures
        spec_framed_ok(*outcome) <==> r is Ok,
        r matches Ok(resp) ==> strings_view(resp.lines@) == spec_payload(*outcome),
        r matches Err(e) ==> frame_failure_matches(*outcome, e),
{
    match outcome {
        TransportOutcome::Failure(m) => Err(ConsoleFailure::Transport(m.clone())),
        TransportOutcome::Body(b) => {
            let lines = split_str(b.as_str(), '\n');
            proof {
                crate::text::lemma_split_len(b@, '\n');
                assert(strings_view(lines@).len() == lines@.len());
                assert(lines@[0]@ == strings_view(lines@)[0]);
            }
            let status = parse_u32_radix(lines[0].as_str(), 16);
            match status {
                None => Err(ConsoleFailure::Framing),
                Some(code) => {
                    if code == 0 {
                        Ok(ConsoleResponse { lines })
                    } else {
                        Err(ConsoleFailure::Status { code, kind: classify(code) })
                    }
                },
            }
        },
    }
}

/// Decodes the response of a command whose success carries no payload
/// (ring buzzer, notify, set console LED): a zero status is all the
/// success there is.
pub fn ack_response(outcome: &TransportOutcome) -> (r: Result<(), ConsoleFailure>)
    ensures
        spec_framed_ok(*outcome) <==> r is Ok,
        r matches Err(e) ==> frame_failure_matches(*outcome, e),
{
    match frame(outcome) {
        Ok(_) => Ok(()),
        Err(e) => Err(e),
    }
}

/// Decodes the response of the shutdown command.
///
/// The remote service severs the connection as part of carrying a
/// shutdown out, so a transport failure on this command is success, not
/// failure — a deliberate, documented exception easy to lose when error
/// handling is reworked.
pub fn shutdown_response(outcome: &TransportOutcome) -> (r: Result<(), ConsoleFailure>)
    ensures
        outcome is Failure ==> r == Ok::<(), ConsoleFailure>(()),
        outcome is Body ==> (spec_framed_ok(*outcome) <==> r is Ok),
        r matches Err(e) ==> frame_failure_matches(*outcome, e),
{
    match outcome {
        TransportOutcome::Failure(_) => Ok(()),
        TransportOutcome::Body(_) => match frame(outcome) {
            Ok(_) => Ok(()),
            Err(e) => Err(e),
        },
    }
}

/// What the firmware payload decodes to, if anything: line 1 the
/// firmware version in decimal, line 2 the protocol version in
/// hexadecimal, line 3 the console type as a decimal integer.
pub open spec fn spec_decode_firmware(lines: Seq<Seq<char>>) -> Option<FirmwareInfo> {
    if lines.len() >= 4 {
        let fv = spec_parse_u32(lines[1], 10);
        let cv = spec_parse_u32(lines[2], 16);
        let ct = spec_parse_i32(lines[3], 10);
        if fv is Some && cv is Some && ct is Some {
            Some(
                FirmwareInfo {
                    firmware_version: fv->0,
                    ccapi_version: cv->0,
                    console_type: spec_console_type_of(ct->0),
                },
            )
        } else {
            None
        }
    } else {
        None
    }
}

/// Decodes the response of the firmware-information command.
pub fn firmware_info_response(outcome: &TransportOutcome) -> (r: Result<
    FirmwareInfo,
    ConsoleFailure,
>)
    ensures
        r is Ok <==> spec_framed_ok(*outcome) && spec_decode_firmware(spec_payload(*outcome))
            is Some,
        r matches Ok(info) ==> Some(info) == spec_decode_firmware(spec_payload(*outcome)),
        r matches Err(e) ==> if spec_framed_ok(*outcome) {
            e matches ConsoleFailure::Decode(op) && op@ == "getfirmwareinfo"@
        } else {
            frame_failure_matches(*outcome, e)
        },
{
    let resp = match frame(outcome) {
        Ok(resp) => resp,
        Err(e) => {
            return Err(e);
        },
    };
    let ghost payload = spec_payload(*outcome);
    if resp.lines.len() >= 4 {
        proof {
            assert(resp.lines@[1]@ == strings_view(resp.lines@)[1]);
            assert(resp.lines@[2]@ == strings_view(resp.lines@)[2]);
            assert(resp.lines@[3]@ == strings_view(resp.lines@)[3]);
        }
        let fv = parse_u32_radix(resp.lines[1].as_str(), 10);
        let cv = parse_u32_radix(resp.lines[2].as_str(), 16);
        let ct = parse_i32_radix(resp.lines[3].as_str(), 10);
        match (fv, cv, ct) {
            (Some(firmware_version), Some(ccapi_version), Some(console_type_code)) => Ok(
                FirmwareInfo {
                    firmware_version,
                    ccapi_version,
                    console_type: ConsoleType::from(console_type_code),
                },
            ),
            _ => Err(ConsoleFailure::Decode("getfirmwareinfo".to_owned())),
        }
    } else {
        Err(ConsoleFailure::Decode("getfirmwareinfo".to_owned()))
    }
}

/// What the temperature payload decodes to, if anything: lines 1 and 2
/// as hexadecimal signed Celsius readings.
pub open spec fn spec_decode_temperature(lines: Seq<Seq<char>>) -> Option<TemperatureInfo> {
    if lines.len() >= 3 {
        let cell = spec_parse_i32(lines[1], 16);
        let rsx = spec_parse_i32(lines[2], 16);
        if cell is Some && rsx is Some {
            Some(TemperatureInfo { cell: cell->0, rsx: rsx->0 })
        } else {
            None
        }
    } else {
        None
    }
}

/// Decodes the response of the temperature command.
pub fn temperature_info_response(outcome: &TransportOutcome) -> (r: Result<
    TemperatureInfo,
    ConsoleFailure,
>)
    ensures
        r is Ok <==> spec_framed_ok(*outcome) && spec_decode_temperature(spec_payload(*outcome))
            is Some,
        r matches Ok(info) ==> Some(info) == spec_decode_temperature(spec_payload(*outcome)),
        r matches Err(e) ==> if spec_framed_ok(*outcome) {
            e matches ConsoleFailure::Decode(op) && op@ == "gettemperature"@
        } else {
            frame_failure_matches(*outcome, e)
        },
{
    let resp = match frame(outcome) {
        Ok(resp) => resp,
        Err(e) => {
            return Err(e);
        },
    };
    if resp.lines.len() >= 3 {
        proof {
            assert(resp.lines@[1]@ == strings_view(resp.lines@)[1]);
            assert(resp.lines@[2]@ == strings_view(resp.lines@)[2]);
        }
        let cell = parse_i32_radix(resp.lines[1].as_str(), 16);
        let rsx = parse_i32_radix(resp.lines[2].as_str(), 16);
        match (cell, rsx) {
            (Some(cell), Some(rsx)) => Ok(TemperatureInfo { cell, rsx }),
            _ => Err(ConsoleFailure::Decode("gettemperature".to_owned())),
        }
    } else {
        Err(ConsoleFailure::Decode("gettemperature".to_owned()))
    }
}

/// The process identifiers a payload lists: each line after the status
/// line that parses as a decimal 32-bit value, in order; lines that do
/// not parse are dropped, not errors.
pub open spec fn spec_pids(lines: Seq<Seq<char>>) -> Seq<u32>
    decreases lines.len(),
{
    if lines.len() <= 1 {
        Seq::empty()
    } else {
        let rest = spec_pids(lines.drop_last());
        match spec_parse_u32(lines.last(), 10) {
            Some(v) => rest.push(v),
            None => rest,
        }
    }
}

/// Decodes the response of the process-list command.  Payload lines
/// that are not decimal numbers are silently dropped; the order of the
/// parsed identifiers is kept.
pub fn process_list_response(outcome: &TransportOutcome) -> (r: Result<Vec<u32>, ConsoleFailure>)
    ensures
        spec_framed_ok(*outcome) <==> r is Ok,
        r matches Ok(pids) ==> pids@ == spec_pids(spec_payload(*outcome)),
        r matches Err(e) ==> frame_failure_matches(*outcome, e),
{
    let resp = match frame(outcome) {
        Ok(resp) => resp,
        Err(e) => {
            return Err(e);
        },
    };
    let ghost payload = spec_payload(*outcome);
    let mut process_ids: Vec<u32> = Vec::new();
    let n = resp.lines.len();
    let mut i: usize = 1;
    proof {
        crate::text::lemma_split_len(outcome->Body_0@, '\n');
        assert(strings_view(resp.lines@).len() == resp.lines@.len());
        assert(payload.take(1).len() <= 1);
    }
    while i < n
        invariant
            1 <= i <= n == resp.lines@.len(),
            strings_view(resp.lines@) == payload,
            process_ids@ == spec_pids(payload.take(i as int)),
        decreases n - i,
    {
        proof {
            assert(resp.lines@[i as int]@ == strings_view(resp.lines@)[i as int]);
            assert(payload.take(i + 1).drop_last() =~= payload.take(i as int));
            assert(payload.take(i + 1).last() == payload[i as int]);
        }
        if let Some(pid) = parse_u32_radix(resp.lines[i].as_str(), 10) {
            process_ids.push(pid);
        }
        i = i + 1;
    }
    proof {
        assert(payload.take(n as int) =~= payload);
    }
    Ok(process_ids)
}

/// Whether a process-name call succeeded: it framed and its payload has
/// a name line.
pub open spec fn spec_name_ok(o: TransportOutcome) -> bool {
    spec_framed_ok(o) && spec_payload(o).len() >= 2
}

/// The name a successful process-name response carries.
pub open spec fn spec_name_of(o: TransportOutcome) -> Seq<char> {
    spec_payload(o)[1]
}

/// How a failed process-name call is reported: a framed response with
/// no name line is a decode failure of that command; everything else is
/// the common framing report.
pub open spec fn name_failure_matches(o: TransportOutcome, e: ConsoleFailure) -> bool {
    if spec_framed_ok(o) {
        e matches ConsoleFailure::Decode(op) && op@ == "getprocessname"@
    } else {
        frame_failure_matches(o, e)
    }
}

/// Decodes the response of the process-name command: line 1 is the name.
pub fn process_name_response(outcome: &TransportOutcome) -> (r: Result<String, ConsoleFailure>)
    ensures
        spec_name_ok(*outcome) <==> r is Ok,
        r matches Ok(name) ==> name@ == spec_name_of(*outcome),
        r matches Err(e) ==> name_failure_matches(*outcome, e),
{
    let resp = match frame(outcome) {
        Ok(resp) => resp,
        Err(e) => {
            return Err(e);
        },
    };
    if resp.lines.len() >= 2 {
        proof {
            assert(resp.lines@[1]@ == strings_view(resp.lines@)[1]);
        }
        Ok(resp.lines[1].clone())
    } else {
        Err(ConsoleFailure::Decode("getprocessname".to_owned()))
    }
}

/// Builds the process map from the list call's identifiers and the
/// outcome of one name call per identifier.  All or nothing: if any
/// single name lookup failed, the whole operation fails with that
/// lookup's failure, and no partial map is returned.
pub fn get_process_map(pids: &Vec<u32>, name_outcomes: &Vec<TransportOutcome>) -> (r: Result<
    Vec<(u32, String)>,
    ConsoleFailure,
>)
    requires
        pids@.len() == name_outcomes@.len(),
    ensures
        r is Ok <==> (forall|i: int|
            0 <= i < name_outcomes@.len() ==> spec_name_ok(name_outcomes@[i])),
        r matches Ok(map) ==> ({
            &&& map@.len() == pids@.len()
            &&& forall|i: int|
                0 <= i < map@.len() ==> map@[i].0 == pids@[i] && map@[i].1@ == spec_name_of(
                    name_outcomes@[i],
                )
        }),
        r matches Err(e) ==> (exists|i: int|
            0 <= i < name_outcomes@.len() && !spec_name_ok(name_outcomes@[i]) && (forall|j: int|
                0 <= j < i ==> spec_name_ok(name_outcomes@[j])) && name_failure_matches(
                name_outcomes@[i],
                e,
            )),
{
    let mut process_map: Vec<(u32, String)> = Vec::new();
    let n = pids.len();
    let mut i: usize = 0;
    while i < n
        invariant
            0 <= i <= n == pids@.len() == name_outcomes@.len(),
            process_map@.len() == i,
            forall|j: int| 0 <= j < i ==> spec_name_ok(name_outcomes@[j]),
            forall|j: int|
                0 <= j < i ==> process_map@[j].0 == pids@[j] && process_map@[j].1@ == spec_name_of(
                    name_outcomes@[j],
                ),
        decreases n - i,
    {
        match process_name_response(&name_outcomes[i]) {
            Ok(process_name) => {
                let ghost prev = process_map@;
                let ghost nm = process_name@;
                process_map.push((pids[i], process_name));
                proof {
                    assert forall|j: int|
                        0 <= j < i + 1 implies process_map@[j].0 == pids@[j]
                        && process_map@[j].1@ == spec_name_of(name_outcomes@[j]) by {
                        if j < i {
                            assert(process_map@[j] == prev[j]);
                        } else {
                            assert(process_map@[j].0 == pids@[i as int]);
                            assert(process_map@[j].1@ == nm);
                        }
                    }
                }
            },
            Err(e) => {
                return Err(e);
            },
        }
        i = i + 1;
    }
    proof {
        assert(process_map@.len() == pids@.len());
        assert forall|j: int|
            0 <= j < process_map@.len() implies process_map@[j].0 == pids@[j]
            && process_map@[j].1@ == spec_name_of(name_outcomes@[j]) by {
            assert(0 <= j < i);
            assert(process_map@[j].0 == pids@[j]);
            assert(process_map@[j].1@ == spec_name_of(name_outcomes@[j]));
        }
    }
    Ok(process_map)
}

} // verus!
