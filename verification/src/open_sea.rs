//! Marketplace extensions of the metadata schema: attributes of a token and
//! the metadata of a whole collection.

use crate::urls::Url;
use crate::{NftImage, NftImageView};
use vstd::prelude::*;
use vstd::std_specs::convert::FromSpecImpl;

verus! {

/// The display hint that a marketplace applies to a numeric attribute.
#[derive(Clone, Copy, Debug, PartialEq, Eq, Structural)]
pub enum OpenSeaDisplayType {
    /// Date
    Date,
    /// Number
    Number,
    /// BoostPercentage
    BoostPercentage,
    /// BoostNumber
    BoostNumber,
}

/// A double-precision number, held by the 64 bits of its IEEE 754 encoding.
#[derive(Clone, Copy, Debug, PartialEq, Eq, Structural)]
pub struct Float64 {
    /// The bits of the encoding.
    pub bits: u64,
}

impl Float64 {
    /// The number whose encoding is `bits`.
    pub fn from_bits(bits: u64) -> (r: Float64)
        ensures
            r.bits == bits,
    {
        Float64 { bits }
    }

    /// The bits of the encoding.
    pub fn to_bits(&self) -> (r: u64)
        ensures
            r == self.bits,
    {
        self.bits
    }
}

/// The value of an attribute.
#[derive(Debug)]
#[allow(inconsistent_fields)]
pub enum OpenSeaAttributeValue {
    /// A text.
    String {
        /// The value
        value: String,
    },
    /// An integer with display type and maximum.
    Integer {
        /// The value
        value: i64,
        /// The display type on the marketplace
        display_type: Option<OpenSeaDisplayType>,
        /// The maximum value for display on the marketplace
        max_value: Option<i64>,
    },
    /// A floating-point number with display type and maximum.
    Float {
        /// The value
        value: Float64,
        /// The display type on the marketplace
        display_type: Option<OpenSeaDisplayType>,
        /// The maximum value for display on the marketplace
        max_value: Option<Float64>,
    },
}

/// What an [`OpenSeaAttributeValue`] holds.
#[allow(inconsistent_fields)]
pub enum OpenSeaAttributeValueView {
    /// A text.
    String { value: Seq<char> },
    /// An integer with display type and maximum.
    Integer { value: i64, display_type: Option<OpenSeaDisplayType>, max_value: Option<i64> },
    /// A floating-point number with display type and maximum.
    Float { value: Float64, display_type: Option<OpenSeaDisplayType>, max_value: Option<Float64> },
}

impl View for OpenSeaAttributeValue {
    type V = OpenSeaAttributeValueView;

    open spec fn view(&self) -> OpenSeaAttributeValueView {
        match *self {
            OpenSeaAttributeValue::String { value } => OpenSeaAttributeValueView::String {
                value: value@,
            },
            OpenSeaAttributeValue::Integer {
                value,
                display_type,
                max_value,
            } => OpenSeaAttributeValueView::Integer { value, display_type, max_value },
            OpenSeaAttributeValue::Float {
                value,
                display_type,
                max_value,
            } => OpenSeaAttributeValueView::Float { value, display_type, max_value },
        }
    }
}

impl Clone for OpenSeaAttributeValue {
    fn clone(&self) -> (r: OpenSeaAttributeValue)
        ensures
            r@ == self@,
    {
        match self {
            OpenSeaAttributeValue::String { value } => OpenSeaAttributeValue::String {
                value: value.clone(),
            },
            OpenSeaAttributeValue::Integer {
                value,
                display_type,
                max_value,
            } => OpenSeaAttributeValue::Integer {
                value: *value,
                display_type: *display_type,
                max_value: *max_value,
            },
            OpenSeaAttributeValue::Float {
                value,
                display_type,
                max_value,
            } => OpenSeaAttributeValue::Float {
                value: *value,
                display_type: *display_type,
                max_value: *max_value,
            },
        }
    }
}

impl<'a> From<&'a str> for OpenSeaAttributeValue {
    fn from(t: &'a str) -> (r: OpenSeaAttributeValue)
        ensures
            r@ == (OpenSeaAttributeValueView::String { value: t@ }),
    {
        OpenSeaAttributeValue::String { value: t.to_owned() }
    }
}

/// No spec function makes an owned text out of a borrowed one, so `from` has
/// no spec function of its own: what it returns is stated in its `ensures`.
impl<'a> FromSpecImpl<&'a str> for OpenSeaAttributeValue {
    open spec fn obeys_from_spec() -> bool {
        false
    }

    open spec fn from_spec(t: &'a str) -> OpenSeaAttributeValue {
        arbitrary()
    }
}


/// The view of an optional text.
pub open spec fn optional_text(text: Option<String>) -> Option<Seq<char>> {
    match text {
        Some(t) => Some(t@),
        None => None,
    }
}

/// The view of an optional borrowed text.
pub open spec fn optional_str(text: Option<&str>) -> Option<Seq<char>> {
    match text {
        Some(t) => Some(t@),
        None => None,
    }
}

/// An attribute of a token: a value, and the name of the trait it belongs to
/// where it has one.
#[derive(Debug)]
pub struct OpenSeaAttribute {
    /// The attribute name (if any)
    pub trait_type: Option<String>,
    /// The attribute value
    pub value: OpenSeaAttributeValue,
}

/// What an [`OpenSeaAttribute`] holds.
pub struct OpenSeaAttributeView {
    /// The attribute name (if any)
    pub trait_type: Option<Seq<char>>,
    /// The attribute value
    pub value: OpenSeaAttributeValueView,
}

impl View for OpenSeaAttribute {
    type V = OpenSeaAttributeView;

    open spec fn view(&self) -> OpenSeaAttributeView {
        OpenSeaAttributeView { trait_type: optional_text(self.trait_type), value: self.value@ }
    }
}

/// Copies an optional borrowed text into an owned one.
fn owned_text(text: Option<&str>) -> (r: Option<String>)
    ensures
        optional_text(r) == optional_str(text),
{
    match text {
        Some(t) => Some(t.to_owned()),
        None => None,
    }
}

/// Copies an optional text.
pub(crate) fn clone_text(text: &Option<String>) -> (r: Option<String>)
    ensures
        optional_text(r) == optional_text(*text),
{
    match text {
        Some(t) => Some(t.clone()),
        None => None,
    }
}

impl OpenSeaAttribute {
    /// A text attribute.
    pub fn string(trait_type: Option<&str>, value: &str) -> (r: OpenSeaAttribute)
        ensures
            r@ == (OpenSeaAttributeView {
                trait_type: optional_str(trait_type),
                value: OpenSeaAttributeValueView::String { value: value@ },
            }),
    {
        OpenSeaAttribute {
            trait_type: owned_text(trait_type),
            value: OpenSeaAttributeValue::String { value: value.to_owned() },
        }
    }

    /// A floating-point attribute without a display type.
    pub fn float(trait_type: Option<&str>, value: Float64, max_value: Option<Float64>) -> (r:
        OpenSeaAttribute)
        ensures
            r@ == (OpenSeaAttributeView {
                trait_type: optional_str(trait_type),
                value: OpenSeaAttributeValueView::Float { value, display_type: None, max_value },
            }),
    {
        OpenSeaAttribute {
            trait_type: owned_text(trait_type),
            value: OpenSeaAttributeValue::Float { value, display_type: None, max_value },
        }
    }

    /// An integer attribute without a display type.
    pub fn integer(trait_type: Option<&str>, value: i64, max_value: Option<i64>) -> (r:
        OpenSeaAttribute)
        ensures
            r@ == (OpenSeaAttributeView {
                trait_type: optional_str(trait_type),
                value: OpenSeaAttributeValueView::Integer { value, display_type: None, max_value },
            }),
    {
        OpenSeaAttribute {
            trait_type: owned_text(trait_type),
            value: OpenSeaAttributeValue::Integer { value, display_type: None, max_value },
        }
    }
}

impl Clone for OpenSeaAttribute {
    fn clone(&self) -> (r: OpenSeaAttribute)
        ensures
            r@ == self@,
    {
        OpenSeaAttribute { trait_type: clone_text(&self.trait_type), value: self.value.clone() }
    }
}

/// The views of a list of attributes, in their order.
pub open spec fn attributes_view(attributes: Seq<OpenSeaAttribute>) -> Seq<OpenSeaAttributeView> {
    attributes.map_values(|a: OpenSeaAttribute| a@)
}

/// Copies a list of attributes.
pub(crate) fn clone_attributes(attributes: &Vec<OpenSeaAttribute>) -> (r: Vec<OpenSeaAttribute>)
    ensures
        attributes_view(r@) == attributes_view(attributes@),
{
    let mut copy: Vec<OpenSeaAttribute> = Vec::new();
    let mut i: usize = 0;
    while i < attributes.len()
        invariant
            i <= attributes.len(),
            copy.len() == i,
            forall|k: int| 0 <= k < i ==> copy@[k]@ == attributes@[k]@,
        decreases attributes.len() - i,
    {
        copy.push(attributes[i].clone());
        i = i + 1;
    }
    assert(attributes_view(copy@) =~= attributes_view(attributes@));
    copy
}

/// The 20 bytes of a blockchain account address.
#[derive(Clone, Copy, Debug)]
pub struct Address {
    /// The bytes of the address, first byte first.
    pub bytes: [u8; 20],
}

/// The metadata of a whole collection.
#[derive(Debug)]
pub struct ContractMetadata {
    /// The collection name
    pub name: String,
    /// The collection description
    pub description: String,
    /// The collection image
    pub image: NftImage,
    /// An external link for the collection
    pub external_link: Url,
    /// The seller fee, in basis points
    pub seller_fee_basis_points: usize,
    /// The recipient of the seller fee
    pub fee_recipient: Address,
}

/// What a [`ContractMetadata`] holds.
pub struct ContractMetadataView {
    /// The collection name
    pub name: Seq<char>,
    /// The collection description
    pub description: Seq<char>,
    /// The collection image
    pub image: NftImageView,
    /// An external link for the collection
    pub external_link: Seq<char>,
    /// The seller fee, in basis points
    pub seller_fee_basis_points: usize,
    /// The recipient of the seller fee
    pub fee_recipient: Address,
}

impl View for ContractMetadata {
    type V = ContractMetadataView;

    open spec fn view(&self) -> ContractMetadataView {
        ContractMetadataView {
            name: self.name@,
            description: self.description@,
            image: self.image@,
            external_link: self.external_link@,
            seller_fee_basis_points: self.seller_fee_basis_points,
            fee_recipient: self.fee_recipient,
        }
    }
}

impl Clone for ContractMetadata {
    fn clone(&self) -> (r: ContractMetadata)
        ensures
            r@ == self@,
    {
        ContractMetadata {
            name: self.name.clone(),
            description: self.description.clone(),
            image: self.image.clone(),
            external_link: self.external_link.clone(),
            seller_fee_basis_points: self.seller_fee_basis_points,
            fee_recipient: self.fee_recipient,
        }
    }
}

} // verus!
