//! Request construction: the endpoint a console is reached at, the
//! per-call request value (command name plus named parameters), and the
//! URL each request is sent to.
//!
//! Sending is not done here: the transport performs the HTTP call and
//! hands the outcome to the response layer for framing and decoding.

use crate::query::pairs_view;
use crate::text::dec_digits;
use crate::text::push_dec_u32;
use crate::text::str_eq;
use crate::text::u64_to_hex_prefixed;
use crate::types::BuzzerType;
use crate::types::ConsoleLed;
use crate::types::LedStatus;
use crate::types::NotifyIcon;
use crate::types::ShutdownMode;
use crate::types::spec_buzzer_value;
use crate::types::spec_icon_value;
use crate::types::spec_led_status_value;
use crate::types::spec_led_value;
use crate::types::spec_shutdown_value;
use crate::ConsoleFailure;
use vstd::pervasive::VecAdditionalExecFns;
use vstd::prelude::*;

verus! {

/// The port the console service listens on unless told otherwise.
pub const DEFAULT_CCAPI_PORT: u16 = 6333;

/// An IPv4 address, one octet per field.
#[derive(Debug, Clone, Copy, PartialEq, Eq, Structural)]
pub struct ConsoleIp {
    pub oct0: u8,
    pub oct1: u8,
    pub oct2: u8,
    pub oct3: u8,
}

/// Where the remote console is reached: an IPv4 address and a port.
#[derive(Debug, Clone, Copy, PartialEq, Eq, Structural)]
pub struct Endpoint {
    pub ip: ConsoleIp,
    pub port: u16,
}

/// The textual authority of an endpoint: dotted octets, a colon, the port.
pub open spec fn spec_authority(e: Endpoint) -> Seq<char> {
    dec_digits(e.ip.oct0 as nat) + "."@ + dec_digits(e.ip.oct1 as nat) + "."@ + dec_digits(
        e.ip.oct2 as nat,
    ) + "."@ + dec_digits(e.ip.oct3 as nat) + ":"@ + dec_digits(e.port as nat)
}

/// The URL a command is sent to, before query parameters are attached.
pub open spec fn spec_base_url(e: Endpoint, command: Seq<char>) -> Seq<char> {
    "http://"@ + spec_authority(e) + "/ccapi/"@ + command
}

/// Whether a parameter list carries each key at most once.
pub open spec fn unique_keys(ps: Seq<(Seq<char>, Seq<char>)>) -> bool {
    forall|i: int, j: int| 0 <= i < j < ps.len() ==> ps[i].0 != ps[j].0
}

/// One request to the console: the endpoint, the command name, and the
/// named parameters the command takes.  Built with the accumulating
/// `param` method, consumed once by the transport, then discarded.
#[derive(Debug)]
pub struct ConsoleRequest {
    pub endpoint: Endpoint,
    pub command: String,
    pub parameters: Vec<(String, String)>,
}

impl ConsoleRequest {
    /// Whether the request is well formed: no parameter name repeats.
    pub open spec fn wf(&self) -> bool {
        unique_keys(pairs_view(self.parameters@))
    }

    /// A request for the given command with no parameters yet.
    pub fn new(endpoint: Endpoint, command: &str) -> (r: ConsoleRequest)
        ensures
            r.endpoint == endpoint,
            r.command@ == command@,
            pairs_view(r.parameters@) == Seq::<(Seq<char>, Seq<char>)>::empty(),
            r.wf(),
    {
        let r = ConsoleRequest { endpoint, command: command.to_owned(), parameters: Vec::new() };
        proof {
            assert(pairs_view(r.parameters@) =~= Seq::<(Seq<char>, Seq<char>)>::empty());
        }
        r
    }

    /// Adds one named parameter: a fresh name is appended, a name already
    /// present has its value replaced.
    pub fn param(self, name: &str, value: &str) -> (r: ConsoleRequest)
        ensures
            r.endpoint == self.endpoint,
            r.command@ == self.command@,
            ({
                let ps = pairs_view(self.parameters@);
                let qs = pairs_view(r.parameters@);
                if exists|j: int| 0 <= j < ps.len() && ps[j].0 == name@ {
                    exists|j: int|
                        0 <= j < ps.len() && ps[j].0 == name@ && qs == ps.update(
                            j,
                            (name@, value@),
                        )
                } else {
                    qs == ps.push((name@, value@))
                }
            }),
            self.wf() ==> r.wf(),
    {
        let ghost ps = pairs_view(self.parameters@);
        let ConsoleRequest { endpoint, command, mut parameters } = self;
        let mut i: usize = 0;
        let n = parameters.len();
        while i < n
            invariant
                0 <= i <= n == parameters@.len(),
                endpoint == self.endpoint,
                command@ == self.command@,
                ps == pairs_view(self.parameters@),
                ps == pairs_view(parameters@),
                forall|j: int| 0 <= j < i ==> ps[j].0 != name@,
            decreases n - i,
        {
            if str_eq(parameters[i].0.as_str(), name) {
                let key = name.to_owned();
                parameters.set(i, (key, value.to_owned()));
                proof {
                    assert(pairs_view(parameters@) =~= ps.update(i as int, (name@, value@)));
                    assert(unique_keys(ps) ==> unique_keys(pairs_view(parameters@))) by {
                        if unique_keys(ps) {
                            assert(ps[i as int].0 == name@);
                            assert forall|a: int, b: int|
                                0 <= a < b < pairs_view(parameters@).len() implies pairs_view(
                                parameters@,
                            )[a].0 != pairs_view(parameters@)[b].0 by {
                                assert(ps[a].0 != ps[b].0);
                            }
                        }
                    }
                }
                return ConsoleRequest { endpoint, command, parameters };
            }
            i = i + 1;
        }
        parameters.push((name.to_owned(), value.to_owned()));
        proof {
            assert(pairs_view(parameters@) =~= ps.push((name@, value@)));
            assert(unique_keys(ps) ==> unique_keys(pairs_view(parameters@))) by {
                if unique_keys(ps) {
                    assert forall|a: int, b: int|
                        0 <= a < b < pairs_view(parameters@).len() implies pairs_view(
                        parameters@,
                    )[a].0 != pairs_view(parameters@)[b].0 by {
                        if b < ps.len() {
                            assert(ps[a].0 != ps[b].0);
                        } else {
                            assert(pairs_view(parameters@)[b].0 == name@);
                            assert(pairs_view(parameters@)[a].0 == ps[a].0);
                        }
                    }
                }
            }
        }
        ConsoleRequest { endpoint, command, parameters }
    }

    /// The URL this request is sent to, query parameters aside.
    pub fn base_url(&self) -> (u: String)
        ensures
            u@ == spec_base_url(self.endpoint, self.command@),
    {
        let mut s = String::new();
        s.append("http://");
        push_dec_u32(&mut s, self.endpoint.ip.oct0 as u32);
        s.append(".");
        push_dec_u32(&mut s, self.endpoint.ip.oct1 as u32);
        s.append(".");
        push_dec_u32(&mut s, self.endpoint.ip.oct2 as u32);
        s.append(".");
        push_dec_u32(&mut s, self.endpoint.ip.oct3 as u32);
        s.append(":");
        push_dec_u32(&mut s, self.endpoint.port as u32);
        s.append("/ccapi/");
        s.append(self.command.as_str());
        proof {
            assert(s@ =~= spec_base_url(self.endpoint, self.command@));
        }
        s
    }
}

/// A client session with one console: holds the endpoint requests are
/// sent to, mutable between calls.  Each typed operation builds the
/// request for one command; the transport sends it and the response
/// layer decodes what came back.
#[derive(Debug, Clone, Copy, PartialEq, Eq, Structural)]
pub struct CCAPI {
    pub console_socket: Endpoint,
}

impl CCAPI {
    /// A client for the console at the given address, on the default port.
    pub fn new(console_ip: ConsoleIp) -> (r: CCAPI)
        ensures
            r.console_socket.ip == console_ip,
            r.console_socket.port == DEFAULT_CCAPI_PORT,
    {
        CCAPI { console_socket: Endpoint { ip: console_ip, port: DEFAULT_CCAPI_PORT } }
    }

    /// Points the client at another console address; the port stays.
    pub fn set_console_ip(&mut self, console_ip: ConsoleIp)
        ensures
            final(self).console_socket.ip == console_ip,
            final(self).console_socket.port == old(self).console_socket.port,
    {
        self.console_socket.ip = console_ip;
    }

    /// Points the client at another port; the address stays.
    pub fn set_console_port(&mut self, port: u16)
        ensures
            final(self).console_socket.port == port,
            final(self).console_socket.ip == old(self).console_socket.ip,
    {
        self.console_socket.port = port;
    }

    /// The request that rings the console buzzer with the given type.
    pub fn ring_buzzer(&self, buzzer_type: BuzzerType) -> (r: ConsoleRequest)
        ensures
            r.endpoint == self.console_socket,
            r.command@ == "ringbuzzer"@,
            pairs_view(r.parameters@) == seq![
                ("type"@, dec_digits(spec_buzzer_value(buzzer_type) as nat)),
            ],
            r.wf(),
    {
        let code = buzzer_type.get_value();
        let value = crate::text::u32_to_dec(code as u32);
        let r = ConsoleRequest::new(self.console_socket, "ringbuzzer").param(
            "type",
            value.as_str(),
        );
        proof {
            assert(pairs_view(r.parameters@) =~= seq![
                ("type"@, dec_digits(spec_buzzer_value(buzzer_type) as nat)),
            ]);
        }
        r
    }

    /// The request that shuts the console down or reboots it.
    ///
    /// The remote service severs the connection as part of carrying a
    /// shutdown out, so the response layer treats a transport failure on
    /// this command as success.
    pub fn shutdown(&self, shutdown_mode: ShutdownMode) -> (r: ConsoleRequest)
        ensures
            r.endpoint == self.console_socket,
            r.command@ == "shutdown"@,
            pairs_view(r.parameters@) == seq![
                ("mode"@, dec_digits(spec_shutdown_value(shutdown_mode) as nat)),
            ],
            r.wf(),
    {
        let code = shutdown_mode.get_value();
        let value = crate::text::u32_to_dec(code as u32);
        let r = ConsoleRequest::new(self.console_socket, "shutdown").param("mode", value.as_str());
        proof {
            assert(pairs_view(r.parameters@) =~= seq![
                ("mode"@, dec_digits(spec_shutdown_value(shutdown_mode) as nat)),
            ]);
        }
        r
    }

    /// The request that displays a notification message with an icon.
    pub fn notify(&self, notify_icon: NotifyIcon, message: &str) -> (r: ConsoleRequest)
        ensures
            r.endpoint == self.console_socket,
            r.command@ == "notify"@,
            pairs_view(r.parameters@) == seq![
                ("id"@, dec_digits(spec_icon_value(notify_icon) as nat)),
                ("msg"@, message@),
            ],
            r.wf(),
    {
        proof {
            reveal_strlit("id");
            reveal_strlit("msg");
        }
        let code = notify_icon.get_value();
        let value = crate::text::u32_to_dec(code as u32);
        let step = ConsoleRequest::new(self.console_socket, "notify").param("id", value.as_str());
        proof {
            assert(pairs_view(step.parameters@) =~= seq![
                ("id"@, dec_digits(spec_icon_value(notify_icon) as nat)),
            ]);
        }
        let r = step.param("msg", message);
        proof {
            assert("id"@.len() == 2 && "msg"@.len() == 3);
            assert(pairs_view(r.parameters@) =~= seq![
                ("id"@, dec_digits(spec_icon_value(notify_icon) as nat)),
                ("msg"@, message@),
            ]);
        }
        r
    }

    /// The request that sets one console LED to a status.
    pub fn set_console_led(&self, color: ConsoleLed, status: LedStatus) -> (r: ConsoleRequest)
        ensures
            r.endpoint == self.console_socket,
            r.command@ == "setconsoleled"@,
            pairs_view(r.parameters@) == seq![
                ("color"@, dec_digits(spec_led_value(color) as nat)),
                ("status"@, dec_digits(spec_led_status_value(status) as nat)),
            ],
            r.wf(),
    {
        proof {
            reveal_strlit("color");
            reveal_strlit("status");
        }
        let led_color_code = color.get_value();
        let led_status_code = status.get_value();
        let color_value = crate::text::u32_to_dec(led_color_code as u32);
        let status_value = crate::text::u32_to_dec(led_status_code as u32);
        let step = ConsoleRequest::new(self.console_socket, "setconsoleled").param(
            "color",
            color_value.as_str(),
        );
        proof {
            assert(pairs_view(step.parameters@) =~= seq![
                ("color"@, dec_digits(spec_led_value(color) as nat)),
            ]);
        }
        let r = step.param("status", status_value.as_str());
        proof {
            assert("color"@.len() == 5 && "status"@.len() == 6);
            assert(pairs_view(r.parameters@) =~= seq![
                ("color"@, dec_digits(spec_led_value(color) as nat)),
                ("status"@, dec_digits(spec_led_status_value(status) as nat)),
            ]);
        }
        r
    }

    /// The request that asks for firmware information.
    pub fn get_firmware_info(&self) -> (r: ConsoleRequest)
        ensures
            r.endpoint == self.console_socket,
            r.command@ == "getfirmwareinfo"@,
            pairs_view(r.parameters@) == Seq::<(Seq<char>, Seq<char>)>::empty(),
            r.wf(),
    {
        ConsoleRequest::new(self.console_socket, "getfirmwareinfo")
    }

    /// The request that asks for the temperature readings.
    pub fn get_temperature_info(&self) -> (r: ConsoleRequest)
        ensures
            r.endpoint == self.console_socket,
            r.command@ == "gettemperature"@,
            pairs_view(r.parameters@) == Seq::<(Seq<char>, Seq<char>)>::empty(),
            r.wf(),
    {
        ConsoleRequest::new(self.console_socket, "gettemperature")
    }

    /// The request that asks for the list of process identifiers.
    pub fn get_process_list(&self) -> (r: ConsoleRequest)
        ensures
            r.endpoint == self.console_socket,
            r.command@ == "getprocesslist"@,
            pairs_view(r.parameters@) == Seq::<(Seq<char>, Seq<char>)>::empty(),
            r.wf(),
    {
        ConsoleRequest::new(self.console_socket, "getprocesslist")
    }

    /// The request that asks for the name of one process.
    pub fn get_process_name(&self, pid: &u32) -> (r: ConsoleRequest)
        ensures
            r.endpoint == self.console_socket,
            r.command@ == "getprocessname"@,
            pairs_view(r.parameters@) == seq![("pid"@, dec_digits(*pid as nat))],
            r.wf(),
    {
        let value = crate::text::u32_to_dec(*pid);
        let r = ConsoleRequest::new(self.console_socket, "getprocessname").param(
            "pid",
            value.as_str(),
        );
        proof {
            assert(pairs_view(r.parameters@) =~= seq![("pid"@, dec_digits(*pid as nat))]);
        }
        r
    }

    /// Reading process memory is present in the interface but deliberately
    /// not implemented: the request is constructed, never sent, and the
    /// operation reports `Unimplemented` whatever its arguments.
    pub fn read_process_memory(&self, pid: &u32, address: &u64, size: &u32) -> (r: Result<
        Vec<u8>,
        ConsoleFailure,
    >)
        ensures
            r == Err::<Vec<u8>, ConsoleFailure>(ConsoleFailure::Unimplemented),
    {
        proof {
            reveal_strlit("pid");
            reveal_strlit("addr");
            reveal_strlit("size");
        }
        let pid_value = crate::text::u32_to_dec(*pid);
        let addr_value = u64_to_hex_prefixed(*address);
        let size_value = crate::text::u32_to_dec(*size);
        let request = ConsoleRequest::new(self.console_socket, "getmemory").param(
            "pid",
            pid_value.as_str(),
        ).param("addr", addr_value.as_str()).param("size", size_value.as_str());
        let _ = request;
        Err(ConsoleFailure::Unimplemented)
    }
}

} // verus!
