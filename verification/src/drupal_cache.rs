//! Probes on Drupal's `CacheableMetadata` factories: the cacheability that
//! `createFromObject` and `createFromRenderArray` hand back.
use crate::probe::ProbeEvent;
use crate::server::{get_request_id, request_id_of, ServerVars};
use crate::text::{
    all_opt_bytes, c_string_or_empty, join_present_with_space, nul_free_or_empty, opt_bytes, present,
    space_joined, to_owned_bytes,
};
use vstd::prelude::*;
use vstd::string::StringSliceAdditionalSpecFns;

verus! {

/// Reported as the caller of a function that runs at top level.
pub const NO_CALLER: &'static str = "(no caller)";

/// The type of the first argument of `createFromObject`.
#[derive(Debug, PartialEq, Eq)]
pub enum ArgumentType {
    /// An object; the name of its class where it can be read.
    Object { class_name: Option<Vec<u8>> },
    /// Any other value: the name of its base type.
    Base { base_name: Vec<u8> },
}

/// What is read of the value a factory returned, where it is an object.
#[derive(Debug, PartialEq, Eq)]
pub struct CacheableObject {
    /// The `cacheMaxAge` property, where it is an integer.
    pub cache_max_age: Option<i64>,
    /// The `cacheTags` property, where it is an array: each element's string
    /// value, `None` for an element that is not a string.
    pub cache_tags: Option<Vec<Option<Vec<u8>>>>,
    /// The `cacheContexts` property, in the same form as `cache_tags`.
    pub cache_contexts: Option<Vec<Option<Vec<u8>>>>,
}

/// The array properties of a `CacheableMetadata` object.
#[derive(Clone, Copy, Debug, PartialEq, Eq)]
pub enum CacheProperty {
    CacheTags,
    CacheContexts,
}

/// The elements of `property` of `object`, where it is an array.
pub open spec fn property_items(object: CacheableObject, property: CacheProperty) -> Option<
    Vec<Option<Vec<u8>>>,
> {
    match property {
        CacheProperty::CacheTags => object.cache_tags,
        CacheProperty::CacheContexts => object.cache_contexts,
    }
}

/// The string elements of the array `property` of `value`, joined by spaces;
/// empty where `value` is not an object or the property not an array.
pub open spec fn property_text(value: Option<CacheableObject>, property: CacheProperty) -> Seq<u8> {
    match value {
        Some(object) => match property_items(object, property) {
            Some(items) => space_joined(present(all_opt_bytes(items@))),
            None => Seq::empty(),
        },
        None => Seq::empty(),
    }
}

/// The `cacheMaxAge` of `value`, or -1 where it has none.
pub open spec fn max_age_of(value: Option<CacheableObject>) -> i64 {
    match value {
        Some(object) => match object.cache_max_age {
            Some(age) => age,
            None => -1i64,
        },
        None => -1i64,
    }
}

/// The reported max age is the returned object's integer `cacheMaxAge`
/// unchanged (negative values such as -1, "permanent", included), and -1
/// where the value is not an object or the property not an integer.
pub proof fn lemma_max_age_is_the_property(value: Option<CacheableObject>)
    ensures
        value matches Some(o) ==> o.cache_max_age matches Some(age) ==> max_age_of(value) == age,
        !(value matches Some(o) && o.cache_max_age is Some) ==> max_age_of(value) == -1,
{
}

/// The caller is the previous frame's function name, byte for byte, and
/// `(no caller)` only at top level.
pub proof fn lemma_caller_is_previous_function(previous: Option<Seq<u8>>)
    ensures
        previous matches Some(name) ==> caller_of(previous) == name,
        previous is None ==> caller_of(previous) == NO_CALLER.spec_bytes(),
{
}

/// The caller reported for a frame: the name of the previous frame's
/// function, or `(no caller)` at top level.
pub open spec fn caller_of(previous: Option<Seq<u8>>) -> Seq<u8> {
    match previous {
        Some(name) => name,
        None => NO_CALLER.spec_bytes(),
    }
}

/// The name of the caller, given the function name of the previous frame.
pub fn get_caller_name(previous_frame_function: Option<Vec<u8>>) -> (caller: Vec<u8>)
    ensures
        caller@ == caller_of(opt_bytes(previous_frame_function)),
{
    match previous_frame_function {
        Some(name) => name,
        None => to_owned_bytes(NO_CALLER.as_bytes()),
    }
}

/// The type name reported for the first argument of `createFromObject`.
pub open spec fn arg_type_name_of(arg: ArgumentType) -> Option<Seq<u8>> {
    match arg {
        ArgumentType::Object { class_name } => opt_bytes(class_name),
        ArgumentType::Base { base_name } => Some(base_name@),
    }
}

/// The class name of an object argument, the base type name of any other.
pub fn get_arg_type_name(arg: ArgumentType) -> (name: Option<Vec<u8>>)
    ensures
        opt_bytes(name) == arg_type_name_of(arg),
{
    match arg {
        ArgumentType::Object { class_name } => class_name,
        ArgumentType::Base { base_name } => Some(base_name),
    }
}

/// The string elements of the array `property` of `value`, joined by single
/// spaces; the empty string where `value` is not an object or the property
/// is not an array.
pub fn extract_string_array_property(value: &Option<CacheableObject>, property: CacheProperty) -> (text:
    Vec<u8>)
    ensures
        text@ == property_text(*value, property),
{
    match value {
        Some(object) => {
            let items = match property {
                CacheProperty::CacheTags => &object.cache_tags,
                CacheProperty::CacheContexts => &object.cache_contexts,
            };
            match items {
                Some(items) => join_present_with_space(items),
                None => Vec::new(),
            }
        },
        None => Vec::new(),
    }
}

/// The cacheability a factory returned, as the probes carry it.
#[derive(Debug, PartialEq, Eq)]
pub struct CacheMetadata {
    pub cache_max_age: i64,
    pub cache_tags: Vec<u8>,
    pub cache_contexts: Vec<u8>,
}

/// The cacheability of the value a factory returned: `cacheMaxAge` (or -1),
/// and the tags and contexts joined by spaces, each emptied where it holds a
/// NUL byte.
pub fn read_cache_metadata(return_value: &Option<CacheableObject>) -> (meta: CacheMetadata)
    ensures
        meta.cache_max_age == max_age_of(*return_value),
        *return_value matches Some(o) ==> o.cache_max_age matches Some(age) ==> meta.cache_max_age
            == age,
        !(*return_value matches Some(o) && o.cache_max_age is Some) ==> meta.cache_max_age == -1,
        meta.cache_tags@ == c_string_or_empty(property_text(*return_value, CacheProperty::CacheTags)),
        meta.cache_contexts@ == c_string_or_empty(
            property_text(*return_value, CacheProperty::CacheContexts),
        ),
{
    let mut cache_max_age: i64 = -1;
    match return_value {
        Some(object) => match object.cache_max_age {
            Some(v) => {
                cache_max_age = v;
            },
            None => {},
        },
        None => {},
    }
    let cache_tags = extract_string_array_property(return_value, CacheProperty::CacheTags);
    let cache_contexts = extract_string_array_property(return_value, CacheProperty::CacheContexts);
    CacheMetadata {
        cache_max_age,
        cache_tags: nul_free_or_empty(cache_tags),
        cache_contexts: nul_free_or_empty(cache_contexts),
    }
}

/// The `drupal_cacheablemetadata_createfromrenderarray` event.
pub open spec fn is_render_array_event(
    event: ProbeEvent,
    server: ServerVars,
    previous_frame_function: Option<Seq<u8>>,
    return_value: Option<CacheableObject>,
) -> bool {
    match event {
        ProbeEvent::DrupalCreateFromRenderArray {
            request_id,
            caller,
            cache_max_age,
            cache_tags,
            cache_contexts,
        } => {
            &&& request_id@ == request_id_of(server)
            &&& caller@ == caller_of(previous_frame_function)
            &&& cache_max_age == max_age_of(return_value)
            &&& cache_tags@ == c_string_or_empty(property_text(return_value, CacheProperty::CacheTags))
            &&& cache_contexts@ == c_string_or_empty(
                property_text(return_value, CacheProperty::CacheContexts),
            )
        },
        _ => false,
    }
}

/// `CacheableMetadata::createFromRenderArray` returned: reports its
/// cacheability. `$_SERVER` is read first; only where it can be read are the
/// caller and the frame read, and the returned value only where the frame can
/// be. Nothing is reported where `$_SERVER` or the frame cannot be read.
pub fn cacheablemetadata_createfromrenderarray_observer_end<
    S: FnOnce() -> Option<ServerVars>,
    C: FnOnce() -> Option<Vec<u8>>,
    K: FnOnce() -> bool,
    R: FnOnce() -> Option<CacheableObject>,
>(read_server: S, read_previous_function: C, frame_readable: K, read_return_value: R) -> (r:
    Option<ProbeEvent>)
    requires
        call_requires(read_server, ()),
        forall|server: ServerVars|
            #[trigger] call_ensures(read_server, (), Some(server)) ==> call_requires(
                read_previous_function,
                (),
            ) && call_requires(frame_readable, ()),
        forall|server: ServerVars|
            #[trigger] call_ensures(read_server, (), Some(server)) && call_ensures(
                frame_readable,
                (),
                true,
            ) ==> call_requires(read_return_value, ()),
    ensures
        r is None ==> call_ensures(read_server, (), None) || call_ensures(frame_readable, (), false),
        r is Some ==> exists|
            server: ServerVars,
            previous: Option<Vec<u8>>,
            return_value: Option<CacheableObject>,
        |
            #![trigger call_ensures(read_server, (), Some(server)), call_ensures(read_previous_function, (), previous), call_ensures(read_return_value, (), return_value)]
            call_ensures(read_server, (), Some(server)) && call_ensures(
                read_previous_function,
                (),
                previous,
            ) && call_ensures(frame_readable, (), true) && call_ensures(
                read_return_value,
                (),
                return_value,
            ) && is_render_array_event(r->0, server, opt_bytes(previous), return_value),
{
    let server = match read_server() {
        Some(s) => s,
        None => return None,
    };
    let request_id = get_request_id(&server);
    let previous = read_previous_function();
    let caller = get_caller_name(previous);
    if !frame_readable() {
        return None;
    }
    let return_value = read_return_value();
    let meta = read_cache_metadata(&return_value);
    Some(
        ProbeEvent::DrupalCreateFromRenderArray {
            request_id,
            caller,
            cache_max_age: meta.cache_max_age,
            cache_tags: meta.cache_tags,
            cache_contexts: meta.cache_contexts,
        },
    )
}

/// The `drupal_cacheablemetadata_createfromobject` event.
pub open spec fn is_object_event(
    event: ProbeEvent,
    server: ServerVars,
    previous_frame_function: Option<Seq<u8>>,
    arg: ArgumentType,
    return_value: Option<CacheableObject>,
) -> bool {
    match event {
        ProbeEvent::DrupalCreateFromObject {
            request_id,
            caller,
            cache_max_age,
            arg_type,
            cache_tags,
            cache_contexts,
        } => {
            &&& request_id@ == request_id_of(server)
            &&& caller@ == caller_of(previous_frame_function)
            &&& cache_max_age == max_age_of(return_value)
            &&& opt_bytes(arg_type) == arg_type_name_of(arg)
            &&& cache_tags@ == c_string_or_empty(property_text(return_value, CacheProperty::CacheTags))
            &&& cache_contexts@ == c_string_or_empty(
                property_text(return_value, CacheProperty::CacheContexts),
            )
        },
        _ => false,
    }
}

/// `CacheableMetadata::createFromObject` returned: reports its cacheability
/// and the type of its argument. `$_SERVER` is read first; only where it can
/// be read are the caller and the first argument read (`None` where the frame
/// cannot be read), and the returned value only where the argument could be
/// read. Nothing is reported where `$_SERVER` or the frame cannot be read.
pub fn cacheablemetadata_createfromobject_observer_end<
    S: FnOnce() -> Option<ServerVars>,
    C: FnOnce() -> Option<Vec<u8>>,
    A: FnOnce() -> Option<ArgumentType>,
    R: FnOnce() -> Option<CacheableObject>,
>(read_server: S, read_previous_function: C, read_first_argument: A, read_return_value: R) -> (r:
    Option<ProbeEvent>)
    requires
        call_requires(read_server, ()),
        forall|server: ServerVars|
            #[trigger] call_ensures(read_server, (), Some(server)) ==> call_requires(
                read_previous_function,
                (),
            ) && call_requires(read_first_argument, ()),
        forall|server: ServerVars, arg: ArgumentType|
            #[trigger] call_ensures(read_server, (), Some(server)) && #[trigger] call_ensures(
                read_first_argument,
                (),
                Some(arg),
            ) ==> call_requires(read_return_value, ()),
    ensures
        r is None ==> call_ensures(read_server, (), None) || call_ensures(
            read_first_argument,
            (),
            None,
        ),
        r is Some ==> exists|
            server: ServerVars,
            previous: Option<Vec<u8>>,
            arg: ArgumentType,
            return_value: Option<CacheableObject>,
        |
            #![trigger call_ensures(read_server, (), Some(server)), call_ensures(read_previous_function, (), previous), call_ensures(read_first_argument, (), Some(arg)), call_ensures(read_return_value, (), return_value)]
            call_ensures(read_server, (), Some(server)) && call_ensures(
                read_previous_function,
                (),
                previous,
            ) && call_ensures(read_first_argument, (), Some(arg)) && call_ensures(
                read_return_value,
                (),
                return_value,
            ) && is_object_event(r->0, server, opt_bytes(previous), arg, return_value),
{
    let server = match read_server() {
        Some(s) => s,
        None => return None,
    };
    let request_id = get_request_id(&server);
    let previous = read_previous_function();
    let caller = get_caller_name(previous);
    let arg = match read_first_argument() {
        Some(a) => a,
        None => return None,
    };
    let arg_type = get_arg_type_name(arg);
    let return_value = read_return_value();
    let meta = read_cache_metadata(&return_value);
    Some(
        ProbeEvent::DrupalCreateFromObject {
            request_id,
            caller,
            cache_max_age: meta.cache_max_age,
            arg_type,
            cache_tags: meta.cache_tags,
            cache_contexts: meta.cache_contexts,
        },
    )
}

} // verus!
