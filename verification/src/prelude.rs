//! The names that most users of the library need.

pub use crate::open_sea::{
    Address, ContractMetadata, Float64, OpenSeaAttribute, OpenSeaAttributeValue,
    OpenSeaDisplayType,
};
pub use crate::token_id::TokenId;
pub use crate::urls::Url;
pub use crate::{MetadataGenerator, NftImage, NftMetadata};
