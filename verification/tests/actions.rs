use skeletal_input::actions::{
    action_set_localized_name, action_set_name, ActionKind, SkeletalInputBindings,
};
use skeletal_input::messages::Hand;

#[test]
fn all_kinds_in_creation_order() {
    assert_eq!(
        ActionKind::all(),
        vec![
            ActionKind::ThumbTouch,
            ActionKind::IndexTouch,
            ActionKind::IndexCurl,
            ActionKind::RestCurl,
        ]
    );
}

#[test]
fn action_names() {
    assert_eq!(ActionKind::ThumbTouch.name(), "thumb-touch");
    assert_eq!(ActionKind::IndexTouch.name(), "index-touch");
    assert_eq!(ActionKind::IndexCurl.name(), "index-curl");
    assert_eq!(ActionKind::RestCurl.name(), "rest-curl");
    assert_eq!(ActionKind::ThumbTouch.localized_name(), "Thumb Touch");
    assert_eq!(ActionKind::IndexTouch.localized_name(), "Index Touch");
    assert_eq!(ActionKind::IndexCurl.localized_name(), "Index Curl");
    assert_eq!(ActionKind::RestCurl.localized_name(), "Rest Curl");
}

#[test]
fn touch_actions_are_boolean_and_curls_are_not() {
    assert!(ActionKind::ThumbTouch.is_boolean());
    assert!(ActionKind::IndexTouch.is_boolean());
    assert!(!ActionKind::IndexCurl.is_boolean());
    assert!(!ActionKind::RestCurl.is_boolean());
}

#[test]
fn action_set_names() {
    assert_eq!(action_set_name(), "xrizer-skeletal-input");
    assert_eq!(action_set_localized_name(), "XRizer Skeletal Input");
}

#[test]
fn binding_pairs_keep_order_and_tags() {
    let bindings = SkeletalInputBindings {
        thumb_touch: vec![11, 12],
        index_touch: vec![],
        index_curl: vec![31],
        rest_curl: vec![41, 42, 43],
    };
    assert_eq!(
        bindings.binding_pairs(),
        vec![
            (ActionKind::ThumbTouch, 11),
            (ActionKind::ThumbTouch, 12),
            (ActionKind::IndexCurl, 31),
            (ActionKind::RestCurl, 41),
            (ActionKind::RestCurl, 42),
            (ActionKind::RestCurl, 43),
        ]
    );
}

#[test]
fn binding_pairs_of_empty_lists_is_empty() {
    let bindings = SkeletalInputBindings {
        thumb_touch: vec![],
        index_touch: vec![],
        index_curl: vec![],
        rest_curl: vec![],
    };
    assert_eq!(bindings.binding_pairs(), vec![]);
}

#[test]
fn hand_flag_is_left() {
    assert!(Hand::Left.is_left());
    assert!(!Hand::Right.is_left());
}
