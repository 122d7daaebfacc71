//! The USDT probes of the `compass` provider, with the arguments each one carries.
use vstd::prelude::*;

verus! {

/// One firing of a probe. Byte strings are handed to the probe as C strings.
#[derive(Debug, PartialEq, Eq)]
pub enum ProbeEvent {
    /// `fpm_request_init`: an FPM request begins.
    FpmRequestInit { request_id: Vec<u8>, uri: Vec<u8>, method: Vec<u8> },
    /// `fpm_request_shutdown`: an FPM request ends.
    FpmRequestShutdown { request_id: Vec<u8> },
    /// `fpm_function`: a PHP function of an FPM request ran longer than the threshold.
    FpmFunction { request_id: Vec<u8>, function_name: Vec<u8>, elapsed: u64, memory: u64 },
    /// `cli_init`: a CLI process begins.
    CliInit { pid: u64, command: Vec<u8> },
    /// `cli_request_shutdown`: a CLI process ends.
    CliRequestShutdown { pid: u64 },
    /// `cli_request_function`: a PHP function of a CLI process ran longer than the threshold.
    CliRequestFunction { pid: u64, function_name: Vec<u8>, elapsed: u64, memory: u64 },
    /// `drupal_cacheablemetadata_createfromobject`
    DrupalCreateFromObject {
        request_id: Vec<u8>,
        caller: Vec<u8>,
        cache_max_age: i64,
        arg_type: Option<Vec<u8>>,
        cache_tags: Vec<u8>,
        cache_contexts: Vec<u8>,
    },
    /// `drupal_cacheablemetadata_createfromrenderarray`
    DrupalCreateFromRenderArray {
        request_id: Vec<u8>,
        caller: Vec<u8>,
        cache_max_age: i64,
        cache_tags: Vec<u8>,
        cache_contexts: Vec<u8>,
    },
}

} // verus!
