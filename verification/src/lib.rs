//! Redact sensitive literals from a GraphQL document before logging or usage
//! reporting.
//!
//! GraphQL operations often inline user data as literal values. A query like
//! `user(email: "a@b.com")` carries the email in the operation text. If that
//! text is logged or sent to a usage-reporting service, the data leaks. This
//! crate rewrites those literals to fixed placeholders so the operation shape
//! stays useful while the data is gone.
//!
//! [`strip_sensitive_literals`] returns a redacted copy of a document.
//! Scalar literals are replaced:
//!
//! - integers and floats become `0`
//! - strings become `""`
//!
//! With [`StripOptions::hide_list_and_object_literals`] set, list literals
//! become `[]` and object literals become `{}`.
//!
//! Everything else is left as it is. Field names, aliases, variable names and
//! types, fragment names, directives, and the `Boolean`, `Null`, `Enum`, and
//! variable values stay untouched. Booleans, nulls, and enums are not treated
//! as sensitive.
//!
//! The walk covers the whole document. Operations and fragments are redacted.
//! Type-system definitions are too, so literals in field-argument defaults,
//! input-field defaults, directive arguments and descriptions collapse the
//! same way.
//!
//! Layout: [`ast`] holds the document types, [`model`] their mathematical
//! views, [`redact`] states what redaction does to each node, and [`laws`]
//! proves what holds of redaction as a whole.

pub mod ast;
mod copy;
pub mod laws;
pub mod model;
mod options;
pub mod redact;
mod strip;

pub use options::{StripOptions, StripOptionsBuilder};

use vstd::prelude::*;

use crate::ast::Document;
use crate::laws::document_redacted;
use crate::redact::redact_document;

verus! {

/// Return a redacted copy of `ast`.
///
/// Scalar literals are replaced with fixed placeholders. Integers and floats
/// become `0`, strings become `""`, and descriptions become empty. When
/// `options.hide_list_and_object_literals` is set, list literals become `[]`
/// and object literals become `{}`. In the default mode lists and objects keep
/// their shape and their nested scalars are redacted instead.
///
/// Non-literal nodes are preserved. So are `Boolean`, `Null`, `Enum`, and
/// variable values, which are not treated as sensitive.
///
/// No literal data is left in the result ([`laws::document_redacted`]), and
/// documents that differ only in literal content give the same result
/// ([`laws::lemma_redacted_documents_indistinguishable`]).
///
/// The input is not modified. The returned [`Document`] is a fresh owned tree.
/// Applying the function twice gives the same result as applying it once
/// ([`laws::lemma_strip_idempotent`]).
#[must_use]
pub fn strip_sensitive_literals(ast: &Document, options: StripOptions) -> (redacted: Document)
    ensures
        redacted@ == redact_document(ast@, options),
        document_redacted(redacted@, options),
{
    let redacted = strip::strip(ast, options);
    proof {
        laws::lemma_strip_removes_literals(ast@, options);
    }
    redacted
}

} // verus!
