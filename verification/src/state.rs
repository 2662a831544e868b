//! Data model of the registry: the per-collection wrap record, the optional
//! metadata override supplied at registration time, and the descriptive
//! metadata carried by individual assets.

use vstd::prelude::*;

verus! {

/// Descriptive metadata of a single asset, as reported by the external
/// collection service. The registry carries these values through without
/// reading them.
#[derive(Clone, Debug, PartialEq, Eq)]
pub struct Metadata {
    pub image: Option<String>,
    pub image_data: Option<String>,
    pub external_url: Option<String>,
    pub description: Option<String>,
    pub name: Option<String>,
    pub attributes: Option<Vec<Trait>>,
    pub background_color: Option<String>,
    pub animation_url: Option<String>,
    pub youtube_url: Option<String>,
    pub royalty_percentage: Option<u64>,
    pub royalty_payment_address: Option<String>,
}

impl Default for Metadata {
    /// Metadata with every field absent.
    fn default() -> (r: Metadata)
        ensures
            r.image is None,
            r.image_data is None,
            r.external_url is None,
            r.description is None,
            r.name is None,
            r.attributes is None,
            r.background_color is None,
            r.animation_url is None,
            r.youtube_url is None,
            r.royalty_percentage is None,
            r.royalty_payment_address is None,
    {
        Metadata {
            image: None,
            image_data: None,
            external_url: None,
            description: None,
            name: None,
            attributes: None,
            background_color: None,
            animation_url: None,
            youtube_url: None,
            royalty_percentage: None,
            royalty_payment_address: None,
        }
    }
}

/// The per-asset extension carried by the external collection service's
/// asset data.
pub type Extension = Option<Metadata>;

/// One named attribute of an asset's metadata.
#[derive(Clone, Debug, PartialEq, Eq)]
pub struct Trait {
    pub display_type: Option<String>,
    pub trait_type: String,
    pub value: String,
}

/// Optional overrides supplied at registration time. Where a field is set it
/// takes precedence over the value read from the original collection.
#[derive(Debug, PartialEq, Eq)]
pub struct MirroredData {
    pub collection_name: Option<String>,
    pub collection_symbol: Option<String>,
    pub base_uri: Option<String>,
}

/// Mathematical model of a [`MirroredData`] value.
#[verifier::ext_equal]
pub struct MirroredDataView {
    pub collection_name: Option<Seq<char>>,
    pub collection_symbol: Option<Seq<char>>,
    pub base_uri: Option<Seq<char>>,
}

impl View for MirroredData {
    type V = MirroredDataView;

    open spec fn view(&self) -> MirroredDataView {
        MirroredDataView {
            collection_name: self.collection_name.deep_view(),
            collection_symbol: self.collection_symbol.deep_view(),
            base_uri: self.base_uri.deep_view(),
        }
    }
}

impl DeepView for MirroredData {
    type V = MirroredDataView;

    open spec fn deep_view(&self) -> MirroredDataView {
        self.view()
    }
}

impl Clone for MirroredData {
    fn clone(&self) -> (r: Self)
        ensures
            r@ == self@,
    {
        MirroredData {
            collection_name: clone_opt_string(&self.collection_name),
            collection_symbol: clone_opt_string(&self.collection_symbol),
            base_uri: clone_opt_string(&self.base_uri),
        }
    }
}

/// The registry entry for one original collection: the identity of the
/// original, the identity of the mirror once created, the metadata override,
/// and whether activation has completed.
#[derive(Debug, PartialEq, Eq)]
pub struct WrapData {
    pub original_collection: String,
    pub mirrored_collection: String,
    pub mirrored_data: MirroredData,
    pub active: bool,
}

/// Mathematical model of a [`WrapData`] value.
#[verifier::ext_equal]
pub struct WrapDataView {
    pub original_collection: Seq<char>,
    pub mirrored_collection: Seq<char>,
    pub mirrored_data: MirroredDataView,
    pub active: bool,
}

impl View for WrapData {
    type V = WrapDataView;

    open spec fn view(&self) -> WrapDataView {
        WrapDataView {
            original_collection: self.original_collection@,
            mirrored_collection: self.mirrored_collection@,
            mirrored_data: self.mirrored_data@,
            active: self.active,
        }
    }
}

impl DeepView for WrapData {
    type V = WrapDataView;

    open spec fn deep_view(&self) -> WrapDataView {
        self.view()
    }
}

impl Clone for WrapData {
    fn clone(&self) -> (r: Self)
        ensures
            r@ == self@,
    {
        WrapData {
            original_collection: self.original_collection.clone(),
            mirrored_collection: self.mirrored_collection.clone(),
            mirrored_data: self.mirrored_data.clone(),
            active: self.active,
        }
    }
}

/// Clones an optional string, keeping its view.
pub fn clone_opt_string(s: &Option<String>) -> (r: Option<String>)
    ensures
        r.deep_view() == s.deep_view(),
{
    match s {
        Some(v) => Some(v.clone()),
        None => None,
    }
}

} // verus!
