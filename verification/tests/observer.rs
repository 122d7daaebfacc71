use compass::observer::{
    handlers, observer_instrument, BeginHandler, EndHandler, ObserverHandlers, CREATE_FROM_OBJECT,
    CREATE_FROM_RENDER_ARRAY,
};

fn none() -> ObserverHandlers {
    ObserverHandlers { begin: None, end: None }
}

fn name(s: &str) -> Option<Vec<u8>> {
    Some(s.as_bytes().to_vec())
}

#[test]
fn nothing_observed_without_canary_or_fpm() {
    let unread = || -> Option<Vec<u8>> { panic!("name read while not observing") };
    assert_eq!(observer_instrument(false, true, false, unread), none());
    assert_eq!(observer_instrument(true, false, false, unread), none());
    assert_eq!(observer_instrument(false, false, false, unread), none());
}

#[test]
fn unreadable_frame_is_not_observed() {
    assert_eq!(observer_instrument(true, true, false, || None), none());
}

#[test]
fn drupal_factories_get_an_end_handler_only() {
    assert_eq!(
        observer_instrument(true, true, false, || name("Drupal\\Core\\Cache\\CacheableMetadata::createFromObject")),
        ObserverHandlers { begin: None, end: Some(EndHandler::CreateFromObjectEnd) }
    );
    assert_eq!(
        observer_instrument(true, true, false, || name(CREATE_FROM_RENDER_ARRAY)),
        ObserverHandlers { begin: None, end: Some(EndHandler::CreateFromRenderArrayEnd) }
    );
    assert_eq!(CREATE_FROM_OBJECT, "Drupal\\Core\\Cache\\CacheableMetadata::createFromObject");
}

#[test]
fn other_functions_are_timed() {
    let timed = ObserverHandlers { begin: Some(BeginHandler::FunctionBegin), end: Some(EndHandler::FpmFunctionEnd) };
    assert_eq!(observer_instrument(true, true, false, || name("strlen")), timed);
    assert_eq!(observer_instrument(true, true, false, || name("Drupal\\Core\\Cache\\CacheableMetadata::createFromObjectX")), timed);
    assert_eq!(observer_instrument(true, true, false, || name("")), timed);
}

#[test]
fn handlers_pairs_its_arguments() {
    assert_eq!(handlers(None, Some(EndHandler::FpmFunctionEnd)), ObserverHandlers { begin: None, end: Some(EndHandler::FpmFunctionEnd) });
}

#[test]
fn cli_functions_are_timed_when_the_canary_is_traced() {
    let timed = ObserverHandlers { begin: Some(BeginHandler::FunctionBegin), end: Some(EndHandler::CliFunctionEnd) };
    assert_eq!(observer_instrument(true, false, true, || name("strlen")), timed);
    assert_eq!(observer_instrument(true, false, true, || name(CREATE_FROM_OBJECT)), timed);
    assert_eq!(observer_instrument(true, false, true, || None), none());
    let unread = || -> Option<Vec<u8>> { panic!("name read while not observing") };
    assert_eq!(observer_instrument(false, false, true, unread), none());
}
