//! Media types, parsed with the `mime` crate.

use vstd::prelude::*;

verus! {

/// A parsed media type: its top-level type, its subtype, and its
/// canonical text.
#[derive(Clone, Debug, PartialEq, Eq)]
pub struct MediaType {
    pub top_level: String,
    pub subtype: String,
    pub text: String,
}

/// What `parse_media_type` gives for a text: `None` where `mime` refuses
/// it, else the top-level type, the subtype and the canonical text.
pub uninterp spec fn mime_parts(s: Seq<char>) -> Option<(Seq<char>, Seq<char>, Seq<char>)>;

/// Parses `s` with `mime::Mime`'s `FromStr`, and reads the result with
/// `Mime::type_`, `Mime::subtype` and its `Display` text. The contract
/// claims only that the outcome is a function of the text, named
/// `mime_parts`.
#[verifier::external_body]
pub fn parse_media_type(s: &str) -> (r: Option<MediaType>)
    ensures
        r is Some == mime_parts(s@) is Some,
        r matches Some(m) ==> (m.top_level@, m.subtype@, m.text@) == mime_parts(s@)->0,
{
    let m: mime::Mime = s.parse().ok()?;
    Some(MediaType {
        top_level: m.type_().as_str().to_string(),
        subtype: m.subtype().as_str().to_string(),
        text: m.to_string(),
    })
}

} // verus!
