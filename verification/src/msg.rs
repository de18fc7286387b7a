//! The messages that callers send to the minter, and the token metadata that
//! the minter attaches to what it mints.

use vstd::prelude::*;

verus! {

/// One attribute of a token, as marketplaces show it.
#[derive(Clone, Debug, PartialEq, Eq)]
pub struct Trait {
    pub display_type: Option<String>,
    pub trait_type: String,
    pub value: String,
}

/// What a [`Trait`] holds, as plain text.
pub struct TraitView {
    pub display_type: Option<Seq<char>>,
    pub trait_type: Seq<char>,
    pub value: Seq<char>,
}

impl DeepView for Trait {
    type V = TraitView;

    open spec fn deep_view(&self) -> TraitView {
        TraitView {
            display_type: self.display_type.deep_view(),
            trait_type: self.trait_type@,
            value: self.value@,
        }
    }
}

/// The metadata stored with a token. Every field is optional.
#[derive(Clone, Debug, PartialEq, Eq)]
pub struct Metadata {
    pub image: Option<String>,
    pub image_data: Option<String>,
    pub external_url: Option<String>,
    pub description: Option<String>,
    pub name: Option<String>,
    pub attributes: Option<Vec<Trait>>,
    pub background_color: Option<String>,
    pub animation_url: Option<String>,
    pub youtube_url: Option<String>,
}

/// What a [`Metadata`] holds, as plain text.
pub struct MetadataView {
    pub image: Option<Seq<char>>,
    pub image_data: Option<Seq<char>>,
    pub external_url: Option<Seq<char>>,
    pub description: Option<Seq<char>>,
    pub name: Option<Seq<char>>,
    pub attributes: Option<Seq<TraitView>>,
    pub background_color: Option<Seq<char>>,
    pub animation_url: Option<Seq<char>>,
    pub youtube_url: Option<Seq<char>>,
}

impl MetadataView {
    /// Metadata with no field set.
    pub open spec fn empty() -> MetadataView {
        MetadataView {
            image: None,
            image_data: None,
            external_url: None,
            description: None,
            name: None,
            attributes: None,
            background_color: None,
            animation_url: None,
            youtube_url: None,
        }
    }

    /// Metadata that names an image and nothing else.
    pub open spec fn with_image(image: Seq<char>) -> MetadataView {
        MetadataView { image: Some(image), ..MetadataView::empty() }
    }
}

impl DeepView for Metadata {
    type V = MetadataView;

    open spec fn deep_view(&self) -> MetadataView {
        MetadataView {
            image: self.image.deep_view(),
            image_data: self.image_data.deep_view(),
            external_url: self.external_url.deep_view(),
            description: self.description.deep_view(),
            name: self.name.deep_view(),
            attributes: self.attributes.deep_view(),
            background_color: self.background_color.deep_view(),
            animation_url: self.animation_url.deep_view(),
            youtube_url: self.youtube_url.deep_view(),
        }
    }
}

impl Default for Metadata {
    fn default() -> (metadata: Metadata)
        ensures
            metadata.deep_view() == MetadataView::empty(),
    {
        Metadata {
            image: None,
            image_data: None,
            external_url: None,
            description: None,
            name: None,
            attributes: None,
            background_color: None,
            animation_url: None,
            youtube_url: None,
        }
    }
}

/// Sets the minter up: which code the child token contract runs, and the name
/// and symbol of the collection.
#[derive(Clone, Debug, PartialEq, Eq)]
pub struct InstantiateMsg {
    pub cw721_code_id: u64,
    pub name: String,
    pub symbol: String,
}

/// What the minter can be asked to do.
#[derive(Clone, Copy, Debug, PartialEq, Eq)]
pub enum ExecuteMsg {
    /// Draw one token from the pool and mint it to the sender.
    MintToken {},
}

/// What the minter can be asked about.
#[derive(Clone, Copy, Debug, PartialEq, Eq)]
pub enum QueryMsg {
    /// The address of the child token contract, empty until it is known.
    Token {},
    /// The identifiers that can still be drawn.
    AvailableIds {},
}

/// Sent on migration. It carries nothing.
#[derive(Clone, Copy, Debug, PartialEq, Eq)]
pub struct MigrateMsg {}

} // verus!
