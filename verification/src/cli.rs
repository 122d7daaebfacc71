//! Probes of PHP running under the CLI SAPI.
use crate::function_observer::{
    last_position, observe_function_end, observed_end, taken, FunctionFrame, FunctionObservation,
    FunctionTimes,
};
use crate::probe::ProbeEvent;
use crate::server::{cli_command_of, get_cli_command, ServerVars};
use crate::text::{bytes_eq, c_string_or_empty, nul_free_or_empty};
use vstd::prelude::*;
use vstd::string::StringSliceAdditionalSpecFns;

verus! {

/// The SAPI module name of the command-line interpreter.
pub const CLI_SAPI: &'static str = "cli";

/// Whether PHP runs under the CLI SAPI, given the SAPI module name.
pub fn is_cli(sapi_module_name: &[u8]) -> (cli: bool)
    ensures
        cli == (sapi_module_name@ == CLI_SAPI.spec_bytes()),
{
    bytes_eq(sapi_module_name, CLI_SAPI.as_bytes())
}

/// The `cli_request_function` event of an observation of process `pid`.
pub open spec fn cli_function_report(obs: Option<FunctionObservation>, pid: u64) -> Option<
    ProbeEvent,
> {
    match obs {
        Some(o) => Some(
            ProbeEvent::CliRequestFunction {
                pid,
                function_name: o.function_name,
                elapsed: o.elapsed,
                memory: o.memory,
            },
        ),
        None => None,
    }
}

/// The `cli_request_function` event of an observation of process `pid`, where
/// one was made.
pub fn function_event(obs: Option<FunctionObservation>, pid: u64) -> (r: Option<ProbeEvent>)
    ensures
        r == cli_function_report(obs, pid),
{
    match obs {
        Some(o) => Some(
            ProbeEvent::CliRequestFunction {
                pid,
                function_name: o.function_name,
                elapsed: o.elapsed,
                memory: o.memory,
            },
        ),
        None => None,
    }
}

/// Ends the call with execute data at `key` of process `pid`; reports it with
/// `cli_request_function` when it ran longer than `threshold` and its frame
/// can be read.
pub fn observer_end<F: FnOnce() -> Option<FunctionFrame>>(
    times: &mut FunctionTimes,
    key: usize,
    threshold: u64,
    read_frame: F,
    pid: u64,
) -> (r: Option<ProbeEvent>)
    requires
        call_requires(read_frame, ()),
    ensures
        final(times)@ == taken(old(times)@, key),
        exists|obs: Option<FunctionObservation>|
            #[trigger] observed_end(old(times)@, key, threshold, read_frame, obs) && r
                == cli_function_report(obs, pid),
        last_position(old(times)@, key) is None ==> r is None,
{
    let obs = observe_function_end(times, key, threshold, read_frame);
    let r = function_event(obs, pid);
    assert(observed_end(old(times)@, key, threshold, read_frame, obs));
    r
}

/// The `cli_init` event for process `pid` and the given `$_SERVER`.
pub open spec fn is_cli_init_event(event: ProbeEvent, pid: u64, server: ServerVars) -> bool {
    match event {
        ProbeEvent::CliInit { pid: p, command } => {
            &&& p == pid
            &&& command@ == c_string_or_empty(cli_command_of(server))
        },
        _ => false,
    }
}

/// What `init` reports: nothing outside the CLI; otherwise the `cli_init`
/// event of the `$_SERVER` that was read, or nothing where it could not be read.
pub open spec fn cli_init_from<F: FnOnce() -> Option<ServerVars>>(
    is_cli: bool,
    read_server: F,
    pid: u64,
    r: Option<ProbeEvent>,
) -> bool {
    &&& !is_cli ==> r is None
    &&& r is None ==> !is_cli || call_ensures(read_server, (), None)
    &&& r is Some ==> exists|server: ServerVars|
        #[trigger] call_ensures(read_server, (), Some(server)) && is_cli_init_event(r->0, pid, server)
}

/// A CLI process begins: under the CLI SAPI, reads `$_SERVER` and reports
/// `cli_init` with the command line. `$_SERVER` is read only under the CLI
/// SAPI; where it cannot be read nothing is reported.
pub fn init<F: FnOnce() -> Option<ServerVars>>(is_cli: bool, read_server: F, pid: u64) -> (r:
    Option<ProbeEvent>)
    requires
        is_cli ==> call_requires(read_server, ()),
    ensures
        !is_cli ==> r is None,
        r is None ==> !is_cli || call_ensures(read_server, (), None),
        r is Some ==> exists|server: ServerVars|
            #[trigger] call_ensures(read_server, (), Some(server)) && is_cli_init_event(
                r->0,
                pid,
                server,
            ),
{
    if !is_cli {
        return None;
    }
    let server = match read_server() {
        Some(s) => s,
        None => return None,
    };
    let command = nul_free_or_empty(get_cli_command(&server));
    Some(ProbeEvent::CliInit { pid, command })
}

/// A CLI process ends: under the CLI SAPI, reports `cli_request_shutdown`.
pub fn shutdown(is_cli: bool, pid: u64) -> (r: Option<ProbeEvent>)
    ensures
        r == if is_cli {
            Some(ProbeEvent::CliRequestShutdown { pid })
        } else {
            None
        },
{
    if !is_cli {
        return None;
    }
    Some(ProbeEvent::CliRequestShutdown { pid })
}

} // verus!
