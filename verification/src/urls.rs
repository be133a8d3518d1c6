//! Absolute URLs, held by their serialization.

use vstd::prelude::*;

verus! {

/// The serialization of the URL that `input` parses into, or `None` where
/// `input` is no absolute URL.
pub uninterp spec fn url_serialization(input: Seq<char>) -> Option<Seq<char>>;

/// Whether `text` is the serialization of some URL.
pub open spec fn is_url_serialization(text: Seq<char>) -> bool {
    exists|input: Seq<char>| url_serialization(input) == Some(text)
}

/// Calls `url::Url::parse` and, where it succeeds, takes the serialization
/// out of the parsed URL. The result depends on the input alone.
#[verifier::external_body]
fn parse_serialization(input: &str) -> (r: Option<String>)
    ensures
        match r {
            Some(text) => url_serialization(input@) == Some(text@),
            None => url_serialization(input@) is None,
        },
{
    url::Url::parse(input).ok().map(String::from)
}

/// An absolute URL.
#[derive(Debug)]
pub struct Url {
    text: String,
}

impl View for Url {
    type V = Seq<char>;

    closed spec fn view(&self) -> Seq<char> {
        self.text@
    }
}

impl Url {
    #[verifier::type_invariant]
    spec fn parsed(self) -> bool {
        is_url_serialization(self.text@)
    }

    /// Parses an absolute URL. The URL is kept in its serialized form, which
    /// may differ from `input`.
    pub fn parse(input: &str) -> (r: Option<Url>)
        ensures
            match r {
                Some(url) => url_serialization(input@) == Some(url@),
                None => url_serialization(input@) is None,
            },
    {
        match parse_serialization(input) {
            Some(text) => Some(Url { text }),
            None => None,
        }
    }

    /// The serialization of the URL.
    pub fn as_str(&self) -> (r: &str)
        ensures
            r@ == self@,
            is_url_serialization(r@),
    {
        proof {
            use_type_invariant(self);
        }
        self.text.as_str()
    }
}

impl Clone for Url {
    fn clone(&self) -> (r: Url)
        ensures
            r@ == self@,
    {
        proof {
            use_type_invariant(self);
        }
        Url { text: self.text.clone() }
    }
}

} // verus!
