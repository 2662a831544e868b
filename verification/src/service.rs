//! Answers of the external collection service. The service itself is a
//! remote capability: the caller asks it the questions an operation needs
//! and hands the answers in as plain values. A `None` stands for a query
//! that errored.

use vstd::prelude::*;

use crate::state::Extension;

verus! {

/// Descriptive metadata of a collection, as the service reports it.
#[derive(Clone, Debug, PartialEq, Eq)]
pub struct ContractInfo {
    pub name: String,
    pub symbol: String,
}

/// Mathematical model of a [`ContractInfo`] value.
#[verifier::ext_equal]
pub struct ContractInfoView {
    pub name: Seq<char>,
    pub symbol: Seq<char>,
}

impl View for ContractInfo {
    type V = ContractInfoView;

    open spec fn view(&self) -> ContractInfoView {
        ContractInfoView { name: self.name@, symbol: self.symbol@ }
    }
}

impl DeepView for ContractInfo {
    type V = ContractInfoView;

    open spec fn deep_view(&self) -> ContractInfoView {
        self.view()
    }
}

/// Descriptive data of one asset, as the service reports it. The extension
/// is carried through unread.
#[derive(Clone, Debug, PartialEq, Eq)]
pub struct NftInfo {
    pub token_uri: Option<String>,
    pub extension: Extension,
}

/// Mathematical model of an [`NftInfo`] value: the descriptive reference.
/// The extension is advisory and carries no weight in the contracts.
#[verifier::ext_equal]
pub struct NftInfoView {
    pub token_uri: Option<Seq<char>>,
}

impl View for NftInfo {
    type V = NftInfoView;

    open spec fn view(&self) -> NftInfoView {
        NftInfoView { token_uri: self.token_uri.deep_view() }
    }
}

impl DeepView for NftInfo {
    type V = NftInfoView;

    open spec fn deep_view(&self) -> NftInfoView {
        self.view()
    }
}

/// The service's answers about one asset: who holds it, and its descriptive
/// data. A `None` is a query that errored.
#[derive(Clone, Debug, PartialEq, Eq)]
pub struct AssetAnswer {
    pub owner: Option<String>,
    pub info: Option<NftInfo>,
}

/// Mathematical model of an [`AssetAnswer`] value.
#[verifier::ext_equal]
pub struct AssetAnswerView {
    pub owner: Option<Seq<char>>,
    pub info: Option<NftInfoView>,
}

impl View for AssetAnswer {
    type V = AssetAnswerView;

    open spec fn view(&self) -> AssetAnswerView {
        AssetAnswerView { owner: self.owner.deep_view(), info: self.info.deep_view() }
    }
}

impl DeepView for AssetAnswer {
    type V = AssetAnswerView;

    open spec fn deep_view(&self) -> AssetAnswerView {
        self.view()
    }
}

/// Every answer an [`crate::msg::ExecuteMsg`] might need: the collection
/// metadata a registration reads, and the per-asset answers a wrap or
/// unwrap reads, one per requested asset id, in order.
#[derive(Clone, Debug, PartialEq, Eq)]
pub struct ServiceAnswers {
    pub contract_info: Option<ContractInfo>,
    pub assets: Vec<AssetAnswer>,
}

} // verus!
