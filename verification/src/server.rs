//! The request values that the probes report, read from `$_SERVER`.
use crate::text::{all_bytes, contains_nul, has_nul, join_with_space, opt_bytes, space_joined, to_owned_bytes};
use vstd::prelude::*;
use vstd::string::StringSliceAdditionalSpecFns;

verus! {

/// Reported when the request carries no usable `X-Request-Id` header or method.
pub const UNKNOWN: &'static str = "UNKNOWN";

/// Reported when the request names no usable URI.
pub const UNKNOWN_URI: &'static str = "/unknown";

/// The entries of `$_SERVER` that the probes read; `None` where an entry is
/// missing or is not a string.
#[derive(Debug, Default, PartialEq, Eq)]
pub struct ServerVars {
    /// `HTTP_X_REQUEST_ID`
    pub x_request_id: Option<Vec<u8>>,
    /// `REQUEST_URI`
    pub request_uri: Option<Vec<u8>>,
    /// `PHP_SELF`
    pub php_self: Option<Vec<u8>>,
    /// `SCRIPT_NAME`
    pub script_name: Option<Vec<u8>>,
    /// `REQUEST_METHOD`
    pub request_method: Option<Vec<u8>>,
    /// `argv`, where it is an array: its string elements in order.
    pub argv: Option<Vec<Vec<u8>>>,
}

/// An entry that a probe can carry as a C string: present, without a NUL byte.
pub open spec fn usable(entry: Option<Seq<u8>>) -> bool {
    entry is Some && !has_nul(entry->0)
}

/// The request id: the `X-Request-Id` header, or `UNKNOWN`.
pub open spec fn request_id_of(server: ServerVars) -> Seq<u8> {
    if usable(opt_bytes(server.x_request_id)) {
        opt_bytes(server.x_request_id)->0
    } else {
        UNKNOWN.spec_bytes()
    }
}

/// The request URI: `REQUEST_URI`, else `PHP_SELF`, else `SCRIPT_NAME`, else `/unknown`.
pub open spec fn request_uri_of(server: ServerVars) -> Seq<u8> {
    if usable(opt_bytes(server.request_uri)) {
        opt_bytes(server.request_uri)->0
    } else if usable(opt_bytes(server.php_self)) {
        opt_bytes(server.php_self)->0
    } else if usable(opt_bytes(server.script_name)) {
        opt_bytes(server.script_name)->0
    } else {
        UNKNOWN_URI.spec_bytes()
    }
}

/// The HTTP method: `REQUEST_METHOD`, or `UNKNOWN`.
pub open spec fn request_method_of(server: ServerVars) -> Seq<u8> {
    if usable(opt_bytes(server.request_method)) {
        opt_bytes(server.request_method)->0
    } else {
        UNKNOWN.spec_bytes()
    }
}

/// The CLI command: the elements of `argv` joined by spaces, or, without
/// them, `SCRIPT_NAME`, or the empty string.
pub open spec fn cli_command_of(server: ServerVars) -> Seq<u8> {
    match server.argv {
        Some(args) if args@.len() > 0 => space_joined(all_bytes(args@)),
        _ => match server.script_name {
            Some(name) => name@,
            None => Seq::empty(),
        },
    }
}

proof fn lemma_fallbacks_nul_free()
    ensures
        !has_nul(UNKNOWN.spec_bytes()),
        !has_nul(UNKNOWN_URI.spec_bytes()),
{
    broadcast use vstd::string::is_ascii_spec_bytes;

    reveal_strlit("UNKNOWN");
    reveal_strlit("/unknown");
    assert(vstd::string::is_ascii(UNKNOWN));
    assert(vstd::string::is_ascii(UNKNOWN_URI));
}

/// The request id, URI and method are valid C strings: none holds a NUL byte.
pub proof fn lemma_request_values_nul_free(server: ServerVars)
    ensures
        !has_nul(request_id_of(server)),
        !has_nul(request_uri_of(server)),
        !has_nul(request_method_of(server)),
{
    lemma_fallbacks_nul_free();
}

/// A request id header that a C string can carry is reported whole, byte for
/// byte; any other header gives `UNKNOWN`.
pub proof fn lemma_request_id_is_the_header(server: ServerVars)
    ensures
        server.x_request_id matches Some(h) ==> !has_nul(h@) ==> request_id_of(server) == h@
            && request_id_of(server).len() == h@.len(),
        !(server.x_request_id matches Some(h) && !has_nul(h@)) ==> request_id_of(server)
            == UNKNOWN.spec_bytes(),
{
}

/// A `REQUEST_METHOD` that a C string can carry is reported byte for byte,
/// whatever the method; any other gives `UNKNOWN`.
pub proof fn lemma_request_method_is_the_entry(server: ServerVars)
    ensures
        server.request_method matches Some(m) ==> !has_nul(m@) ==> request_method_of(server) == m@,
        !(server.request_method matches Some(m) && !has_nul(m@)) ==> request_method_of(server)
            == UNKNOWN.spec_bytes(),
{
}

/// The URI reported is the first usable one of `REQUEST_URI`, `PHP_SELF` and
/// `SCRIPT_NAME`, in that order, and `/unknown` where none is usable.
pub proof fn lemma_request_uri_prefers_request_uri(server: ServerVars)
    ensures
        server.request_uri matches Some(u) ==> !has_nul(u@) ==> request_uri_of(server) == u@,
        !usable(opt_bytes(server.request_uri)) ==> (server.php_self matches Some(s) ==> (!has_nul(
            s@,
        ) ==> request_uri_of(server) == s@)),
        !usable(opt_bytes(server.request_uri)) && !usable(opt_bytes(server.php_self))
            ==> (server.script_name matches Some(n) ==> (!has_nul(n@) ==> request_uri_of(server)
            == n@)),
        !usable(opt_bytes(server.request_uri)) && !usable(opt_bytes(server.php_self)) && !usable(
            opt_bytes(server.script_name),
        ) ==> request_uri_of(server) == UNKNOWN_URI.spec_bytes(),
{
}

/// The CLI command is the `argv` elements with one space between neighbours
/// where `argv` has any; otherwise `SCRIPT_NAME`, or empty.
pub proof fn lemma_cli_command_is_argv(server: ServerVars)
    ensures
        server.argv matches Some(args) ==> args@.len() == 1 ==> cli_command_of(server)
            == args@[0]@,
        server.argv matches Some(args) ==> args@.len() == 2 ==> cli_command_of(server)
            == args@[0]@ + seq![32u8] + args@[1]@,
        (server.argv is None || server.argv->0@.len() == 0) ==> (server.script_name matches Some(
            n,
        ) ==> cli_command_of(server) == n@),
        (server.argv is None || server.argv->0@.len() == 0) && server.script_name is None
            ==> cli_command_of(server) == Seq::<u8>::empty(),
{
    if let Some(args) = server.argv {
        let parts = all_bytes(args@);
        if args@.len() > 0 {
            assert(cli_command_of(server) == space_joined(parts));
        }
        if args@.len() == 2 {
            assert(parts.drop_last().len() == 1);
            assert(parts.drop_last()[0] == args@[0]@);
            assert(parts.last() == args@[1]@);
            assert(space_joined(parts.drop_last()) == args@[0]@);
        }
    }
}

/// The bytes of `entry` where it is usable, otherwise `fallback`.
fn usable_or(entry: &Option<Vec<u8>>, fallback: &str) -> (value: Vec<u8>)
    ensures
        value@ == if usable(opt_bytes(*entry)) {
            opt_bytes(*entry)->0
        } else {
            fallback.spec_bytes()
        },
{
    match entry {
        Some(v) => {
            if contains_nul(v.as_slice()) {
                to_owned_bytes(fallback.as_bytes())
            } else {
                to_owned_bytes(v.as_slice())
            }
        },
        None => to_owned_bytes(fallback.as_bytes()),
    }
}

/// The request id reported by the FPM and Drupal probes.
pub fn get_request_id(server: &ServerVars) -> (id: Vec<u8>)
    ensures
        id@ == request_id_of(*server),
        server.x_request_id matches Some(h) ==> !has_nul(h@) ==> id@ == h@,
        !(server.x_request_id matches Some(h) && !has_nul(h@)) ==> id@ == UNKNOWN.spec_bytes(),
{
    usable_or(&server.x_request_id, UNKNOWN)
}

/// The request URI reported when an FPM request begins.
pub fn get_request_uri(server: &ServerVars) -> (uri: Vec<u8>)
    ensures
        uri@ == request_uri_of(*server),
        server.request_uri matches Some(u) ==> !has_nul(u@) ==> uri@ == u@,
{
    if usable_entry(&server.request_uri) {
        usable_or(&server.request_uri, UNKNOWN_URI)
    } else if usable_entry(&server.php_self) {
        usable_or(&server.php_self, UNKNOWN_URI)
    } else {
        usable_or(&server.script_name, UNKNOWN_URI)
    }
}

/// The HTTP method reported when an FPM request begins.
pub fn get_request_method(server: &ServerVars) -> (method: Vec<u8>)
    ensures
        method@ == request_method_of(*server),
        server.request_method matches Some(m) ==> !has_nul(m@) ==> method@ == m@,
        !(server.request_method matches Some(m) && !has_nul(m@)) ==> method@
            == UNKNOWN.spec_bytes(),
{
    usable_or(&server.request_method, UNKNOWN)
}

/// The command reported when a CLI process begins.
pub fn get_cli_command(server: &ServerVars) -> (command: Vec<u8>)
    ensures
        command@ == cli_command_of(*server),
{
    match &server.argv {
        Some(args) => {
            if args.len() > 0 {
                return join_with_space(args);
            }
        },
        None => {},
    }
    match &server.script_name {
        Some(name) => to_owned_bytes(name.as_slice()),
        None => Vec::new(),
    }
}

/// Whether the entry is usable.
fn usable_entry(entry: &Option<Vec<u8>>) -> (ok: bool)
    ensures
        ok == usable(opt_bytes(*entry)),
{
    match entry {
        Some(v) => !contains_nul(v.as_slice()),
        None => false,
    }
}

} // verus!
