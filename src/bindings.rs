use vstd::prelude::*;

use crate::rpc::ReadFailure;
use crate::transport::is_uuid_v4_text;

verus! {

/// The error type of `serde_json`, carried through without looking inside.
#[verifier::external_type_specification]
#[verifier::external_body]
pub struct ExJsonError(serde_json::Error);

/// The category that `serde_json::Error::classify` gives an error, which
/// depends on the error's own code alone.
pub uninterp spec fn category_of(e: serde_json::Error) -> ReadFailure;

/// Relies on `serde_json::Error::classify`: which of its four categories
/// the error falls in; each category becomes the variant of the same name.
#[verifier::external_body]
pub(crate) fn failure_category(e: &serde_json::Error) -> (r: ReadFailure)
    ensures
        r == category_of(*e),
{
    match e.classify() {
        serde_json::error::Category::Io => ReadFailure::Io,
        serde_json::error::Category::Syntax => ReadFailure::Syntax,
        serde_json::error::Category::Data => ReadFailure::Data,
        serde_json::error::Category::Eof => ReadFailure::Eof,
    }
}

/// Relies on the `Display` impl of `serde_json::Error`: the error's report,
/// kept as the cause of the transport's error.
#[verifier::external_body]
pub(crate) fn failure_text(e: &serde_json::Error) -> String {
    e.to_string()
}

/// Relies on `uuid::Uuid::new_v4` and the `Display` impl of `uuid::Uuid`: a
/// random version 4 UUID, written in lowercase hyphenated form. `new_v4`
/// panics only when the operating system gives no random bytes.
#[verifier::external_body]
pub(crate) fn fresh_uuid() -> (r: String)
    ensures
        is_uuid_v4_text(r@),
{
    uuid::Uuid::new_v4().to_string()
}

} // verus!
