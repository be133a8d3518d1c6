//! Token and collection metadata for a non-fungible token contract, the rules
//! by which a resolver caches it, and the replies a server gives for it.

pub mod generators;
pub mod open_sea;
pub mod prelude;
pub mod server;
pub mod token_id;
pub mod urls;

use crate::open_sea::{
    attributes_view, clone_attributes, clone_text, optional_text, ContractMetadata,
    OpenSeaAttribute, OpenSeaAttributeView,
};
use crate::token_id::TokenId;
use crate::urls::{url_serialization, Url};
use std::convert::Infallible;
use std::str::FromStr;
use vstd::prelude::*;
use vstd::std_specs::convert::FromSpecImpl;

verus! {

/// The image of a token or a collection: a URL to it, or the image data as a
/// text.
#[derive(Debug)]
pub enum NftImage {
    /// Image URL
    Url {
        /// The URL
        image: Url,
    },
    /// Image data
    Data {
        /// The image file as a text
        image_data: String,
    },
}

/// What an [`NftImage`] holds.
pub enum NftImageView {
    /// Image URL
    Url { image: Seq<char> },
    /// Image data
    Data { image_data: Seq<char> },
}

impl View for NftImage {
    type V = NftImageView;

    open spec fn view(&self) -> NftImageView {
        match *self {
            NftImage::Url { image } => NftImageView::Url { image: image@ },
            NftImage::Data { image_data } => NftImageView::Data { image_data: image_data@ },
        }
    }
}

impl Clone for NftImage {
    fn clone(&self) -> (r: NftImage)
        ensures
            r@ == self@,
    {
        match self {
            NftImage::Url { image } => NftImage::Url { image: image.clone() },
            NftImage::Data { image_data } => NftImage::Data { image_data: image_data.clone() },
        }
    }
}

/// The image that the text `s` stands for: the URL that it parses into, or,
/// where it is no URL, the text itself as image data.
pub open spec fn image_of_text(s: Seq<char>) -> NftImageView {
    match url_serialization(s) {
        Some(image) => NftImageView::Url { image },
        None => NftImageView::Data { image_data: s },
    }
}

impl FromStr for NftImage {
    type Err = Infallible;

    /// Reads an image from a text: a URL where the text parses as one, image
    /// data otherwise.
    fn from_str(s: &str) -> (r: Result<NftImage, Infallible>)
        ensures
            r matches Ok(image) && image@ == image_of_text(s@),
    {
        match Url::parse(s) {
            Some(image) => Ok(NftImage::from(image)),
            None => Ok(NftImage::from(s)),
        }
    }
}

impl From<Url> for NftImage {
    fn from(image: Url) -> (r: NftImage)
        ensures
            r@ == (NftImageView::Url { image: image@ }),
    {
        NftImage::Url { image }
    }
}

impl<'a> From<&'a str> for NftImage {
    fn from(image_data: &'a str) -> (r: NftImage)
        ensures
            r@ == (NftImageView::Data { image_data: image_data@ }),
    {
        NftImage::Data { image_data: image_data.to_owned() }
    }
}

/// No spec function makes an owned text out of a borrowed one, so `from` has
/// no spec function of its own: what it returns is stated in its `ensures`.
impl<'a> FromSpecImpl<&'a str> for NftImage {
    open spec fn obeys_from_spec() -> bool {
        false
    }

    open spec fn from_spec(image_data: &'a str) -> NftImage {
        arbitrary()
    }
}

impl FromSpecImpl<Url> for NftImage {
    open spec fn obeys_from_spec() -> bool {
        true
    }

    open spec fn from_spec(image: Url) -> NftImage {
        NftImage::Url { image }
    }
}

/// The metadata of one token.
#[derive(Debug)]
pub struct NftMetadata {
    /// The token name
    pub name: String,
    /// The token description
    pub description: String,
    /// An external URL related to the token
    pub external_url: Url,
    /// The token image link or data
    pub image: NftImage,
    /// The attributes of the token, in the order of their display
    pub attributes: Vec<OpenSeaAttribute>,
    /// The background color to be displayed on the marketplace
    pub background_color: Option<String>,
    /// The animation URL to be displayed on the marketplace
    pub animation_url: Option<Url>,
    /// The video link to be displayed on the marketplace
    pub youtube_url: Option<Url>,
}

/// What an [`NftMetadata`] holds.
pub struct NftMetadataView {
    /// The token name
    pub name: Seq<char>,
    /// The token description
    pub description: Seq<char>,
    /// An external URL related to the token
    pub external_url: Seq<char>,
    /// The token image link or data
    pub image: NftImageView,
    /// The attributes of the token, in the order of their display
    pub attributes: Seq<OpenSeaAttributeView>,
    /// The background color to be displayed on the marketplace
    pub background_color: Option<Seq<char>>,
    /// The animation URL to be displayed on the marketplace
    pub animation_url: Option<Seq<char>>,
    /// The video link to be displayed on the marketplace
    pub youtube_url: Option<Seq<char>>,
}

/// The view of an optional URL.
pub open spec fn optional_url(url: Option<Url>) -> Option<Seq<char>> {
    match url {
        Some(u) => Some(u@),
        None => None,
    }
}

/// Copies an optional URL.
fn clone_url(url: &Option<Url>) -> (r: Option<Url>)
    ensures
        optional_url(r) == optional_url(*url),
{
    match url {
        Some(u) => Some(u.clone()),
        None => None,
    }
}

impl View for NftMetadata {
    type V = NftMetadataView;

    open spec fn view(&self) -> NftMetadataView {
        NftMetadataView {
            name: self.name@,
            description: self.description@,
            external_url: self.external_url@,
            image: self.image@,
            attributes: attributes_view(self.attributes@),
            background_color: optional_text(self.background_color),
            animation_url: optional_url(self.animation_url),
            youtube_url: optional_url(self.youtube_url),
        }
    }
}

impl Clone for NftMetadata {
    fn clone(&self) -> (r: NftMetadata)
        ensures
            r@ == self@,
    {
        NftMetadata {
            name: self.name.clone(),
            description: self.description.clone(),
            external_url: self.external_url.clone(),
            image: self.image.clone(),
            attributes: clone_attributes(&self.attributes),
            background_color: clone_text(&self.background_color),
            animation_url: clone_url(&self.animation_url),
            youtube_url: clone_url(&self.youtube_url),
        }
    }
}

/// A source of token and collection metadata. Tokens are named by the
/// 256-bit id that the contract gives them.
///
/// A generator may ask an outside service, a database, the local filesystem,
/// or any other source.
pub trait MetadataGenerator {
    /// What a failed lookup reports.
    type Error;

    /// Whether a lookup of `token_id` may end in `outcome`. A generator
    /// says here what its lookups can return; one that does not say admits
    /// every outcome.
    open spec fn may_find(
        &self,
        token_id: TokenId,
        outcome: Result<Option<NftMetadata>, Self::Error>,
    ) -> bool {
        true
    }

    /// Whether a lookup of the collection metadata may end in `found`. A
    /// generator that does not say admits every outcome.
    open spec fn may_find_contract(&self, found: Option<ContractMetadata>) -> bool {
        true
    }

    /// The metadata of one token: found, not found (`Ok(None)`), or a
    /// failure of the lookup.
    fn metadata_for(&self, token_id: TokenId) -> (outcome: Result<
        Option<NftMetadata>,
        Self::Error,
    >)
        ensures
            self.may_find(token_id, outcome),
    ;

    /// The metadata of the collection, if there is any.
    fn contract_metadata(&self) -> (found: Option<ContractMetadata>)
        ensures
            self.may_find_contract(found),
    ;
}

} // verus!
