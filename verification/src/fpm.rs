//! Probes of PHP running under the FPM SAPI.
use crate::function_observer::{
    last_position, observe_function_end, observed_end, taken, FunctionFrame, FunctionObservation,
    FunctionTimes,
};
use crate::probe::ProbeEvent;
use crate::server::{
    get_request_id, get_request_method, get_request_uri, request_id_of, request_method_of,
    request_uri_of, ServerVars,
};
use crate::text::bytes_eq;
use vstd::prelude::*;
use vstd::string::StringSliceAdditionalSpecFns;

verus! {

/// The SAPI module name of PHP-FPM.
pub const FPM_SAPI: &'static str = "fpm-fcgi";

/// Whether PHP runs under the FPM SAPI, given the SAPI module name.
pub fn is_fpm(sapi_module_name: &[u8]) -> (fpm: bool)
    ensures
        fpm == (sapi_module_name@ == FPM_SAPI.spec_bytes()),
{
    bytes_eq(sapi_module_name, FPM_SAPI.as_bytes())
}

/// The `fpm_function` event of an observation, in a request with the given `$_SERVER`.
pub open spec fn is_fpm_function_event(event: ProbeEvent, server: ServerVars, obs: FunctionObservation) -> bool {
    match event {
        ProbeEvent::FpmFunction { request_id, function_name, elapsed, memory } => {
            &&& request_id@ == request_id_of(server)
            &&& function_name@ == obs.function_name@
            &&& elapsed == obs.elapsed
            &&& memory == obs.memory
        },
        _ => false,
    }
}

/// The report of an observation: nothing without one; otherwise `$_SERVER` is
/// read, and the report is the observation with the request id, or nothing
/// where `$_SERVER` cannot be read.
pub open spec fn fpm_report_from<G: FnOnce() -> Option<ServerVars>>(
    obs: Option<FunctionObservation>,
    read_server: G,
    r: Option<ProbeEvent>,
) -> bool {
    &&& obs is None ==> r is None
    &&& (obs is Some && r is None) ==> call_ensures(read_server, (), None)
    &&& r is Some ==> obs is Some && exists|server: ServerVars|
        #[trigger] call_ensures(read_server, (), Some(server)) && is_fpm_function_event(
            r->0,
            server,
            obs->0,
        )
}

/// The `fpm_function` event of an observation, where one was made; `$_SERVER`
/// is read only then.
pub fn function_event<G: FnOnce() -> Option<ServerVars>>(
    obs: Option<FunctionObservation>,
    read_server: G,
) -> (r: Option<ProbeEvent>)
    requires
        obs is Some ==> call_requires(read_server, ()),
    ensures
        fpm_report_from(obs, read_server, r),
{
    let obs = match obs {
        Some(o) => o,
        None => return None,
    };
    let server = match read_server() {
        Some(s) => s,
        None => return None,
    };
    let request_id = get_request_id(&server);
    Some(
        ProbeEvent::FpmFunction {
            request_id,
            function_name: obs.function_name,
            elapsed: obs.elapsed,
            memory: obs.memory,
        },
    )
}

/// The call with execute data at `key` ends; when it ran longer than
/// `threshold`, its frame and then `$_SERVER` are read and it is reported with
/// `fpm_function`. Where either cannot be read nothing is reported.
pub fn observer_end<F: FnOnce() -> Option<FunctionFrame>, G: FnOnce() -> Option<ServerVars>>(
    times: &mut FunctionTimes,
    key: usize,
    threshold: u64,
    read_frame: F,
    read_server: G,
) -> (r: Option<ProbeEvent>)
    requires
        call_requires(read_frame, ()),
        call_requires(read_server, ()),
    ensures
        final(times)@ == taken(old(times)@, key),
        exists|obs: Option<FunctionObservation>|
            #[trigger] observed_end(old(times)@, key, threshold, read_frame, obs)
                && fpm_report_from(obs, read_server, r),
        last_position(old(times)@, key) is None ==> r is None,
{
    let obs = observe_function_end(times, key, threshold, read_frame);
    let r = function_event(obs, read_server);
    assert(observed_end(old(times)@, key, threshold, read_frame, obs));
    r
}

/// The `fpm_request_init` event for the given `$_SERVER`.
pub open spec fn is_request_init_event(event: ProbeEvent, server: ServerVars) -> bool {
    match event {
        ProbeEvent::FpmRequestInit { request_id, uri, method } => {
            &&& request_id@ == request_id_of(server)
            &&& uri@ == request_uri_of(server)
            &&& method@ == request_method_of(server)
        },
        _ => false,
    }
}

/// What `init` reports: nothing outside FPM; otherwise the
/// `fpm_request_init` event of the `$_SERVER` that was read, or nothing where
/// it could not be read.
pub open spec fn request_init_from<G: FnOnce() -> Option<ServerVars>>(
    is_fpm: bool,
    read_server: G,
    r: Option<ProbeEvent>,
) -> bool {
    &&& !is_fpm ==> r is None
    &&& r is None ==> !is_fpm || call_ensures(read_server, (), None)
    &&& r is Some ==> exists|server: ServerVars|
        #[trigger] call_ensures(read_server, (), Some(server)) && is_request_init_event(r->0, server)
}

/// An FPM request begins: under the FPM SAPI, reads `$_SERVER` and reports
/// `fpm_request_init` with the request id, URI and method. `$_SERVER` is read
/// only under the FPM SAPI; where it cannot be read nothing is reported.
pub fn init<G: FnOnce() -> Option<ServerVars>>(is_fpm: bool, read_server: G) -> (r: Option<
    ProbeEvent,
>)
    requires
        is_fpm ==> call_requires(read_server, ()),
    ensures
        !is_fpm ==> r is None,
        r is None ==> !is_fpm || call_ensures(read_server, (), None),
        r is Some ==> exists|server: ServerVars|
            #[trigger] call_ensures(read_server, (), Some(server)) && is_request_init_event(
                r->0,
                server,
            ),
{
    if !is_fpm {
        return None;
    }
    let server = match read_server() {
        Some(s) => s,
        None => return None,
    };
    let request_id = get_request_id(&server);
    let uri = get_request_uri(&server);
    let method = get_request_method(&server);
    Some(ProbeEvent::FpmRequestInit { request_id, uri, method })
}

/// The `fpm_request_shutdown` event for the given `$_SERVER`.
pub open spec fn is_request_shutdown_event(event: ProbeEvent, server: ServerVars) -> bool {
    match event {
        ProbeEvent::FpmRequestShutdown { request_id } => request_id@ == request_id_of(server),
        _ => false,
    }
}

/// What `shutdown` reports: nothing outside FPM; otherwise the
/// `fpm_request_shutdown` event of the `$_SERVER` that was read, or nothing
/// where it could not be read.
pub open spec fn request_shutdown_from<G: FnOnce() -> Option<ServerVars>>(
    is_fpm: bool,
    read_server: G,
    r: Option<ProbeEvent>,
) -> bool {
    &&& !is_fpm ==> r is None
    &&& r is None ==> !is_fpm || call_ensures(read_server, (), None)
    &&& r is Some ==> exists|server: ServerVars|
        #[trigger] call_ensures(read_server, (), Some(server)) && is_request_shutdown_event(
            r->0,
            server,
        )
}

/// An FPM request ends: under the FPM SAPI, reads `$_SERVER` and reports
/// `fpm_request_shutdown` with the request id. `$_SERVER` is read only under
/// the FPM SAPI; where it cannot be read nothing is reported.
pub fn shutdown<G: FnOnce() -> Option<ServerVars>>(is_fpm: bool, read_server: G) -> (r: Option<
    ProbeEvent,
>)
    requires
        is_fpm ==> call_requires(read_server, ()),
    ensures
        !is_fpm ==> r is None,
        r is None ==> !is_fpm || call_ensures(read_server, (), None),
        r is Some ==> exists|server: ServerVars|
            #[trigger] call_ensures(read_server, (), Some(server)) && is_request_shutdown_event(
                r->0,
                server,
            ),
{
    if !is_fpm {
        return None;
    }
    let server = match read_server() {
        Some(s) => s,
        None => return None,
    };
    let request_id = get_request_id(&server);
    Some(ProbeEvent::FpmRequestShutdown { request_id })
}

} // verus!
