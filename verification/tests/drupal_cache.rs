use compass::drupal_cache::{
    cacheablemetadata_createfromobject_observer_end, cacheablemetadata_createfromrenderarray_observer_end,
    extract_string_array_property, get_arg_type_name, get_caller_name, read_cache_metadata,
    ArgumentType, CacheMetadata, CacheProperty, CacheableObject,
};
use compass::probe::ProbeEvent;
use compass::server::ServerVars;

fn b(s: &str) -> Vec<u8> {
    s.as_bytes().to_vec()
}

fn server() -> ServerVars {
    ServerVars { x_request_id: Some(b("r-1")), ..ServerVars::default() }
}

fn metadata() -> CacheableObject {
    CacheableObject {
        cache_max_age: Some(3600),
        cache_tags: Some(vec![Some(b("node:1")), None, Some(b("config:system.site"))]),
        cache_contexts: Some(vec![Some(b("url.path")), Some(b("user.roles"))]),
    }
}

#[test]
fn caller_is_previous_frame_or_no_caller() {
    assert_eq!(get_caller_name(Some(b("Drupal\\node\\NodeViewBuilder::view"))), b("Drupal\\node\\NodeViewBuilder::view"));
    assert_eq!(get_caller_name(None), b("(no caller)"));
}

#[test]
fn arg_type_is_class_or_base_type() {
    assert_eq!(get_arg_type_name(ArgumentType::Object { class_name: Some(b("Drupal\\node\\Entity\\Node")) }), Some(b("Drupal\\node\\Entity\\Node")));
    assert_eq!(get_arg_type_name(ArgumentType::Object { class_name: None }), None);
    assert_eq!(get_arg_type_name(ArgumentType::Base { base_name: b("array") }), Some(b("array")));
}

#[test]
fn array_property_is_space_joined() {
    let value = Some(metadata());
    assert_eq!(extract_string_array_property(&value, CacheProperty::CacheTags), b("node:1 config:system.site"));
    assert_eq!(extract_string_array_property(&value, CacheProperty::CacheContexts), b("url.path user.roles"));
}

#[test]
fn array_property_missing_is_empty() {
    assert_eq!(extract_string_array_property(&None, CacheProperty::CacheTags), Vec::<u8>::new());
    let value = Some(CacheableObject { cache_max_age: None, cache_tags: None, cache_contexts: Some(Vec::new()) });
    assert_eq!(extract_string_array_property(&value, CacheProperty::CacheTags), Vec::<u8>::new());
    assert_eq!(extract_string_array_property(&value, CacheProperty::CacheContexts), Vec::<u8>::new());
}

#[test]
fn metadata_defaults_when_not_an_object() {
    assert_eq!(
        read_cache_metadata(&None),
        CacheMetadata { cache_max_age: -1, cache_tags: Vec::new(), cache_contexts: Vec::new() }
    );
    let value = Some(CacheableObject { cache_max_age: None, cache_tags: None, cache_contexts: None });
    assert_eq!(read_cache_metadata(&value).cache_max_age, -1);
}

#[test]
fn metadata_with_nul_tag_empties_the_tags() {
    let value = Some(CacheableObject {
        cache_max_age: Some(0),
        cache_tags: Some(vec![Some(b("a\0b")), Some(b("c"))]),
        cache_contexts: Some(vec![Some(b("url"))]),
    });
    assert_eq!(
        read_cache_metadata(&value),
        CacheMetadata { cache_max_age: 0, cache_tags: Vec::new(), cache_contexts: b("url") }
    );
}

#[test]
fn render_array_event() {
    let event = cacheablemetadata_createfromrenderarray_observer_end(
        || Some(server()),
        || Some(b("caller")),
        || true,
        || Some(metadata()),
    );
    assert_eq!(
        event,
        Some(ProbeEvent::DrupalCreateFromRenderArray {
            request_id: b("r-1"),
            caller: b("caller"),
            cache_max_age: 3600,
            cache_tags: b("node:1 config:system.site"),
            cache_contexts: b("url.path user.roles"),
        })
    );
}

#[test]
fn render_array_event_needs_server_and_frame() {
    assert_eq!(
        cacheablemetadata_createfromrenderarray_observer_end(
            || None,
            || -> Option<Vec<u8>> { panic!("caller read without $_SERVER") },
            || -> bool { panic!("frame read without $_SERVER") },
            || -> Option<CacheableObject> { panic!("return value read without $_SERVER") },
        ),
        None
    );
    assert_eq!(
        cacheablemetadata_createfromrenderarray_observer_end(
            || Some(server()),
            || None,
            || false,
            || -> Option<CacheableObject> { panic!("return value read without a frame") },
        ),
        None
    );
}

#[test]
fn render_array_event_at_top_level_with_no_object() {
    let event = cacheablemetadata_createfromrenderarray_observer_end(
        || Some(ServerVars::default()),
        || None,
        || true,
        || None,
    );
    assert_eq!(
        event,
        Some(ProbeEvent::DrupalCreateFromRenderArray {
            request_id: b("UNKNOWN"),
            caller: b("(no caller)"),
            cache_max_age: -1,
            cache_tags: Vec::new(),
            cache_contexts: Vec::new(),
        })
    );
}

#[test]
fn object_event() {
    let event = cacheablemetadata_createfromobject_observer_end(
        || Some(server()),
        || Some(b("caller")),
        || Some(ArgumentType::Object { class_name: Some(b("Drupal\\Core\\Access\\AccessResultAllowed")) }),
        || Some(metadata()),
    );
    assert_eq!(
        event,
        Some(ProbeEvent::DrupalCreateFromObject {
            request_id: b("r-1"),
            caller: b("caller"),
            cache_max_age: 3600,
            arg_type: Some(b("Drupal\\Core\\Access\\AccessResultAllowed")),
            cache_tags: b("node:1 config:system.site"),
            cache_contexts: b("url.path user.roles"),
        })
    );
}

#[test]
fn object_event_needs_server_and_frame() {
    assert_eq!(
        cacheablemetadata_createfromobject_observer_end(
            || None,
            || -> Option<Vec<u8>> { panic!("caller read without $_SERVER") },
            || -> Option<ArgumentType> { panic!("argument read without $_SERVER") },
            || -> Option<CacheableObject> { panic!("return value read without $_SERVER") },
        ),
        None
    );
    assert_eq!(
        cacheablemetadata_createfromobject_observer_end(
            || Some(server()),
            || None,
            || None,
            || -> Option<CacheableObject> { panic!("return value read without a frame") },
        ),
        None
    );
}

#[test]
fn object_event_with_scalar_argument() {
    let event = cacheablemetadata_createfromobject_observer_end(
        || Some(server()),
        || None,
        || Some(ArgumentType::Base { base_name: b("string") }),
        || None,
    );
    assert!(matches!(
        event,
        Some(ProbeEvent::DrupalCreateFromObject { cache_max_age: -1, arg_type: Some(ref t), .. }) if t == &b("string")
    ));
}
