//! Configuration for [`strip_sensitive_literals`](crate::strip_sensitive_literals).

use vstd::prelude::*;

verus! {

/// Controls how aggressively literals are redacted.
///
/// The default redacts scalar literals only. Scalars are integers, floats, and
/// strings. List and object literals keep their shape and the redactor recurses
/// into their elements.
///
/// Set [`hide_list_and_object_literals`](Self::hide_list_and_object_literals) to
/// `true` to also empty every list and object literal. An empty list or object
/// reveals nothing about the data it held, including its length and its keys.
///
/// An absent option and an explicit `false` behave the same. Only `true` turns
/// list and object emptying on.
#[derive(Clone, Copy, Debug, PartialEq, Eq, Structural, Hash)]
pub struct StripOptions {
    /// Empty every list and object literal when `true`.
    ///
    /// A list becomes `[]` and an object becomes `{}`. The redactor drops the
    /// contents and does not recurse into them. Default is `false`, which keeps
    /// the structure and redacts the nested scalars instead.
    pub hide_list_and_object_literals: bool,
}

impl Default for StripOptions {
    /// Scalars only: lists and objects keep their shape.
    fn default() -> (options: Self)
        ensures
            options == (StripOptions { hide_list_and_object_literals: false }),
    {
        StripOptions { hide_list_and_object_literals: false }
    }
}

/// Step-by-step construction of [`StripOptions`]; an option that is never
/// set takes its default.
#[derive(Clone, Copy, Debug)]
pub struct StripOptionsBuilder {
    hide_list_and_object_literals: Option<bool>,
}

impl StripOptionsBuilder {
    /// The setting of `hide_list_and_object_literals`, `None` while unset.
    pub closed spec fn hide_setting(self) -> Option<bool> {
        self.hide_list_and_object_literals
    }

    /// The options that [`build`](Self::build) gives for this builder: an
    /// unset option is `false`.
    pub open spec fn spec_build(self) -> StripOptions {
        StripOptions { hide_list_and_object_literals: self.hide_setting() == Some(true) }
    }

    /// Set whether list and object literals are emptied.
    pub fn hide_list_and_object_literals(self, hide: bool) -> (builder: Self)
        ensures
            builder.hide_setting() == Some(hide),
    {
        StripOptionsBuilder { hide_list_and_object_literals: Some(hide) }
    }

    /// The options, with every unset option at its default.
    pub fn build(self) -> (options: StripOptions)
        ensures
            options == self.spec_build(),
    {
        let hide = match self.hide_list_and_object_literals {
            Some(h) => h,
            None => false,
        };
        StripOptions { hide_list_and_object_literals: hide }
    }
}

impl StripOptions {
    /// A builder with no option set.
    pub fn builder() -> (builder: StripOptionsBuilder)
        ensures
            builder.hide_setting() == None::<bool>,
    {
        StripOptionsBuilder { hide_list_and_object_literals: None }
    }
}

} // verus!
