//! Begin and end of a CLI process, as the request hooks report them.
use crate::cli::is_cli_init_event;
use crate::probe::ProbeEvent;
use crate::server::ServerVars;
use vstd::prelude::*;

verus! {

/// A CLI process begins: under the CLI SAPI, reads `$_SERVER` and reports
/// `cli_init`. `$_SERVER` is read only under the CLI SAPI; where it cannot be
/// read nothing is reported.
pub fn init<F: FnOnce() -> Option<ServerVars>>(is_cli: bool, read_server: F, pid: u64) -> (r:
    Option<ProbeEvent>)
    requires
        is_cli ==> call_requires(read_server, ()),
    ensures
        !is_cli ==> r is None,
        r is None ==> !is_cli || call_ensures(read_server, (), None),
        r is Some ==> exists|server: ServerVars|
            #[trigger] call_ensures(read_server, (), Some(server)) && is_cli_init_event(
                r->0,
                pid,
                server,
            ),
{
    crate::cli::init(is_cli, read_server, pid)
}

/// A CLI process ends: under the CLI SAPI, reports `cli_request_shutdown`.
pub fn shutdown(is_cli: bool, pid: u64) -> (r: Option<ProbeEvent>)
    ensures
        r == if is_cli {
            Some(ProbeEvent::CliRequestShutdown { pid })
        } else {
            None
        },
{
    crate::cli::shutdown(is_cli, pid)
}

} // verus!
