//! Decision logic of the Compass PHP extension: which USDT probe fires, when,
//! and with which arguments.
pub mod cli;
pub mod cli_function;
pub mod cli_request;
pub mod drupal_cache;
pub mod fpm;
pub mod function_observer;
pub mod observer;
pub mod probe;
pub mod server;
pub mod text;

use vstd::prelude::*;

use crate::cli::cli_init_from;
use crate::fpm::{request_init_from, request_shutdown_from};
use crate::probe::ProbeEvent;
use crate::server::ServerVars;

verus! {

/// The probes the request hooks fire: the FPM one first, then the CLI one.
#[derive(Debug, PartialEq, Eq)]
pub struct RequestEvents {
    /// What the FPM request hook reports.
    pub fpm: Option<ProbeEvent>,
    /// What the CLI request hook reports.
    pub cli: Option<ProbeEvent>,
}

/// A request begins. Only with `compass.enabled` set and the canary probe
/// traced do the hooks run: first the FPM request hook (`fpm::init`), then
/// the CLI one (`cli_request::init`), once each. The canary is consulted only
/// when the extension is enabled, and nothing else is read when the hooks do
/// not run.
pub fn on_request_init<
    P: FnOnce() -> bool,
    S: FnOnce() -> Option<ServerVars>,
    C: FnOnce() -> Option<ServerVars>,
>(
    enabled: bool,
    probe_enabled: P,
    is_fpm: bool,
    read_fpm_server: S,
    is_cli: bool,
    read_cli_server: C,
    pid: u64,
) -> (events: RequestEvents)
    requires
        enabled ==> call_requires(probe_enabled, ()),
        forall|run: bool|
            enabled && #[trigger] call_ensures(probe_enabled, (), run) && run && is_fpm
                ==> call_requires(read_fpm_server, ()),
        forall|run: bool|
            enabled && #[trigger] call_ensures(probe_enabled, (), run) && run && is_cli
                ==> call_requires(read_cli_server, ()),
    ensures
        !enabled ==> events.fpm is None && events.cli is None,
        enabled ==> exists|run: bool|
            #[trigger] call_ensures(probe_enabled, (), run) && (if run {
                request_init_from(is_fpm, read_fpm_server, events.fpm) && cli_init_from(
                    is_cli,
                    read_cli_server,
                    pid,
                    events.cli,
                )
            } else {
                events.fpm is None && events.cli is None
            }),
{
    if !enabled {
        return RequestEvents { fpm: None, cli: None };
    }
    let run = probe_enabled();
    if !run {
        return RequestEvents { fpm: None, cli: None };
    }
    let fpm = crate::fpm::init(is_fpm, read_fpm_server);
    let cli = crate::cli_request::init(is_cli, read_cli_server, pid);
    RequestEvents { fpm, cli }
}

/// A request ends. Only with `compass.enabled` set and the canary probe
/// traced do the hooks run: first the FPM shutdown hook (`fpm::shutdown`),
/// then the CLI one (`cli_request::shutdown`), once each. The canary is
/// consulted only when the extension is enabled.
pub fn on_request_shutdown<P: FnOnce() -> bool, S: FnOnce() -> Option<ServerVars>>(
    enabled: bool,
    probe_enabled: P,
    is_fpm: bool,
    read_fpm_server: S,
    is_cli: bool,
    pid: u64,
) -> (events: RequestEvents)
    requires
        enabled ==> call_requires(probe_enabled, ()),
        forall|run: bool|
            enabled && #[trigger] call_ensures(probe_enabled, (), run) && run && is_fpm
                ==> call_requires(read_fpm_server, ()),
    ensures
        !enabled ==> events.fpm is None && events.cli is None,
        enabled ==> exists|run: bool|
            #[trigger] call_ensures(probe_enabled, (), run) && (if run {
                &&& request_shutdown_from(is_fpm, read_fpm_server, events.fpm)
                &&& events.cli == if is_cli {
                    Some(ProbeEvent::CliRequestShutdown { pid })
                } else {
                    None
                }
            } else {
                events.fpm is None && events.cli is None
            }),
{
    if !enabled {
        return RequestEvents { fpm: None, cli: None };
    }
    let run = probe_enabled();
    if !run {
        return RequestEvents { fpm: None, cli: None };
    }
    let fpm = crate::fpm::shutdown(is_fpm, read_fpm_server);
    let cli = crate::cli_request::shutdown(is_cli, pid);
    RequestEvents { fpm, cli }
}

} // verus!
