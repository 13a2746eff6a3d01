//! Addresses of event pictures, as the `url` crate accepts and writes them.

use vstd::prelude::*;

verus! {

/// The serialization of the absolute URL that a text parses to, if it parses.
pub uninterp spec fn url_serialization(text: Seq<char>) -> Option<Seq<char>>;

/// Whether a text is the serialization of some URL.
pub open spec fn is_serialized_url(text: Seq<char>) -> bool {
    exists|raw: Seq<char>| url_serialization(raw) == Some(text)
}

/// `url::Url::parse`, the URL then turned into its serialization by
/// `String::from`: the result is `url_serialization`.
#[verifier::external_body]
pub(crate) fn serialize_url(text: &str) -> (serialization: Option<String>)
    ensures
        match serialization {
            Some(written) => url_serialization(text@) == Some(written@),
            None => url_serialization(text@) is None,
        },
{
    match url::Url::parse(text) {
        Ok(url) => Some(String::from(url)),
        Err(_) => None,
    }
}

/// An absolute URL that the parser has accepted, held as its serialization.
#[derive(Debug, PartialEq, Eq)]
pub struct PictureUrl {
    serialization: String,
}

impl View for PictureUrl {
    type V = Seq<char>;

    closed spec fn view(&self) -> Seq<char> {
        self.serialization@
    }
}

impl PictureUrl {
    #[verifier::type_invariant]
    spec fn well_formed(self) -> bool {
        is_serialized_url(self.serialization@)
    }

    /// The URL that `raw` parses to; `None` where it does not parse.
    pub fn parse(raw: &str) -> (parsed: Option<PictureUrl>)
        ensures
            match parsed {
                Some(url) => url_serialization(raw@) == Some(url@),
                None => url_serialization(raw@) is None,
            },
    {
        match serialize_url(raw) {
            Some(serialization) => Some(PictureUrl { serialization }),
            None => None,
        }
    }

    /// The serialization of the URL.
    pub fn as_str(&self) -> (text: &str)
        ensures
            text@ == self@,
            is_serialized_url(self@),
    {
        proof {
            use_type_invariant(self);
        }
        self.serialization.as_str()
    }
}

impl Clone for PictureUrl {
    fn clone(&self) -> (copy: PictureUrl)
        ensures
            copy@ == self@,
    {
        proof {
            use_type_invariant(self);
        }
        PictureUrl { serialization: self.serialization.clone() }
    }
}

} // verus!
