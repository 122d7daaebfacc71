//! Which observer handlers a PHP function gets when it is first called.
use crate::text::{bytes_eq, opt_bytes};
use vstd::prelude::*;
use vstd::string::StringSliceAdditionalSpecFns;

verus! {

/// Drupal's factory of cacheability metadata from an object.
pub const CREATE_FROM_OBJECT: &'static str =
    "Drupal\\Core\\Cache\\CacheableMetadata::createFromObject";

/// Drupal's factory of cacheability metadata from a render array.
pub const CREATE_FROM_RENDER_ARRAY: &'static str =
    "Drupal\\Core\\Cache\\CacheableMetadata::createFromRenderArray";

/// The handler run when an observed function begins.
#[derive(Clone, Copy, Debug, PartialEq, Eq, Structural)]
pub enum BeginHandler {
    /// Records the start time of the call.
    FunctionBegin,
}

/// The handler run when an observed function ends.
#[derive(Clone, Copy, Debug, PartialEq, Eq, Structural)]
pub enum EndHandler {
    /// Reports the call of an FPM request when it ran longer than the threshold.
    FpmFunctionEnd,
    /// Reports the call of a CLI process when it ran longer than the threshold.
    CliFunctionEnd,
    /// Reports the cacheability returned by `createFromObject`.
    CreateFromObjectEnd,
    /// Reports the cacheability returned by `createFromRenderArray`.
    CreateFromRenderArrayEnd,
}

/// The begin and end handlers of a function; `None` where none runs.
#[derive(Clone, Copy, Debug, PartialEq, Eq, Structural)]
pub struct ObserverHandlers {
    pub begin: Option<BeginHandler>,
    pub end: Option<EndHandler>,
}

/// The pair of handlers.
pub fn handlers(begin: Option<BeginHandler>, end: Option<EndHandler>) -> (h: ObserverHandlers)
    ensures
        h == (ObserverHandlers { begin, end }),
{
    ObserverHandlers { begin, end }
}

/// The handlers of a function with the given name, under FPM (`is_fpm`) or
/// the CLI; no handlers where the name cannot be read. Under FPM the two
/// Drupal factories get their own end handler only; every other function is
/// timed, and its end reported by the probe of its SAPI.
pub open spec fn handlers_for(function_name: Option<Seq<u8>>, is_fpm: bool) -> ObserverHandlers {
    match function_name {
        None => ObserverHandlers { begin: None, end: None },
        Some(name) => if !is_fpm {
            ObserverHandlers {
                begin: Some(BeginHandler::FunctionBegin),
                end: Some(EndHandler::CliFunctionEnd),
            }
        } else if name == CREATE_FROM_OBJECT.spec_bytes() {
            ObserverHandlers { begin: None, end: Some(EndHandler::CreateFromObjectEnd) }
        } else if name == CREATE_FROM_RENDER_ARRAY.spec_bytes() {
            ObserverHandlers { begin: None, end: Some(EndHandler::CreateFromRenderArrayEnd) }
        } else {
            ObserverHandlers {
                begin: Some(BeginHandler::FunctionBegin),
                end: Some(EndHandler::FpmFunctionEnd),
            }
        },
    }
}

/// A function whose start is recorded also has the end handler that takes
/// that record off the stack again, so timed calls never pile up.
pub proof fn lemma_timed_functions_are_ended(function_name: Option<Seq<u8>>, is_fpm: bool)
    ensures
        handlers_for(function_name, is_fpm).begin is Some ==> handlers_for(
            function_name,
            is_fpm,
        ).end == Some(if is_fpm { EndHandler::FpmFunctionEnd } else { EndHandler::CliFunctionEnd }),
{
}

/// Outside FPM no function gets a Drupal handler: every function whose name
/// can be read, the Drupal factories included, is timed and reported by the
/// CLI probe.
pub proof fn lemma_outside_fpm_every_function_is_timed(function_name: Seq<u8>)
    ensures
        handlers_for(Some(function_name), false) == (ObserverHandlers {
            begin: Some(BeginHandler::FunctionBegin),
            end: Some(EndHandler::CliFunctionEnd),
        }),
{
}

/// Under FPM the two Drupal factories are reported when they return and are
/// never timed.
pub proof fn lemma_drupal_factories_not_timed()
    ensures
        handlers_for(Some(CREATE_FROM_OBJECT.spec_bytes()), true) == (ObserverHandlers {
            begin: None,
            end: Some(EndHandler::CreateFromObjectEnd),
        }),
        handlers_for(Some(CREATE_FROM_RENDER_ARRAY.spec_bytes()), true) == (ObserverHandlers {
            begin: None,
            end: Some(EndHandler::CreateFromRenderArrayEnd),
        }),
{
    broadcast use vstd::utf8::encode_utf8_decode_utf8;

    reveal_strlit("Drupal\\Core\\Cache\\CacheableMetadata::createFromObject");
    reveal_strlit("Drupal\\Core\\Cache\\CacheableMetadata::createFromRenderArray");
    assert(CREATE_FROM_OBJECT@.len() != CREATE_FROM_RENDER_ARRAY@.len());
    assert(vstd::utf8::decode_utf8(CREATE_FROM_OBJECT.spec_bytes()) == CREATE_FROM_OBJECT@);
    assert(vstd::utf8::decode_utf8(CREATE_FROM_RENDER_ARRAY.spec_bytes())
        == CREATE_FROM_RENDER_ARRAY@);
    assert(CREATE_FROM_OBJECT.spec_bytes() != CREATE_FROM_RENDER_ARRAY.spec_bytes());
}

/// The handlers given to a function the first time it is called. Nothing is
/// observed unless the canary probe is traced and PHP runs under FPM or the
/// CLI; the function's name is read only then. Under FPM the two Drupal
/// factories get an end handler only; every other function is timed.
pub fn observer_instrument<F: FnOnce() -> Option<Vec<u8>>>(
    probe_enabled: bool,
    is_fpm: bool,
    is_cli: bool,
    read_function_name: F,
) -> (h: ObserverHandlers)
    requires
        probe_enabled && (is_fpm || is_cli) ==> call_requires(read_function_name, ()),
    ensures
        !(probe_enabled && (is_fpm || is_cli)) ==> h == (ObserverHandlers { begin: None, end: None }),
        probe_enabled && (is_fpm || is_cli) ==> exists|name: Option<Vec<u8>>|
            #[trigger] call_ensures(read_function_name, (), name) && h == handlers_for(
                opt_bytes(name),
                is_fpm,
            ),
        probe_enabled && !is_fpm && is_cli ==> h == (ObserverHandlers { begin: None, end: None })
            || h == (ObserverHandlers {
            begin: Some(BeginHandler::FunctionBegin),
            end: Some(EndHandler::CliFunctionEnd),
        }),
        !is_fpm ==> h.end != Some(EndHandler::CreateFromObjectEnd) && h.end != Some(
            EndHandler::CreateFromRenderArrayEnd,
        ),
{
    if !probe_enabled || !(is_fpm || is_cli) {
        return handlers(None, None);
    }
    let name = match read_function_name() {
        Some(n) => n,
        None => {
            return handlers(None, None);
        },
    };
    if !is_fpm {
        return handlers(Some(BeginHandler::FunctionBegin), Some(EndHandler::CliFunctionEnd));
    }
    if bytes_eq(name.as_slice(), CREATE_FROM_OBJECT.as_bytes()) {
        return handlers(None, Some(EndHandler::CreateFromObjectEnd));
    }
    if bytes_eq(name.as_slice(), CREATE_FROM_RENDER_ARRAY.as_bytes()) {
        return handlers(None, Some(EndHandler::CreateFromRenderArrayEnd));
    }
    handlers(Some(BeginHandler::FunctionBegin), Some(EndHandler::FpmFunctionEnd))
}

} // verus!
