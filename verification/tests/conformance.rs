//! The configuration contract.

use graphql_strip_sensitive_literals::StripOptions;

// The default and an explicit `false` are the same configuration. This pins
// the equality so the two cannot drift.
#[test]
fn default_equals_explicit_false() {
    let explicit_false = StripOptions::builder().hide_list_and_object_literals(false).build();
    assert_eq!(StripOptions::default(), explicit_false);
}

#[test]
fn unset_builder_equals_default() {
    assert_eq!(StripOptions::builder().build(), StripOptions::default());
    assert!(!StripOptions::default().hide_list_and_object_literals);
}

#[test]
fn builder_sets_hide() {
    let hide = StripOptions::builder().hide_list_and_object_literals(true).build();
    assert!(hide.hide_list_and_object_literals);
    assert_eq!(hide, StripOptions { hide_list_and_object_literals: true });
    // The last setting wins.
    let back = StripOptions::builder()
        .hide_list_and_object_literals(true)
        .hide_list_and_object_literals(false)
        .build();
    assert_eq!(back, StripOptions::default());
}
