//! The error taxonomy of the registry. Any error aborts the enclosing
//! operation: the caller gets no requests to perform and the store is left as
//! it was.

use vstd::prelude::*;

verus! {

/// Why an operation was refused.
#[derive(Clone, Debug, PartialEq, Eq)]
pub enum ContractError {
    /// The caller is not the controlling authority, or the metadata query a
    /// registration needs failed. The two cases share one kind on purpose.
    Unauthorized {},
    /// Kept for compatibility with the wider interface; never produced here.
    NotEnoughFunds {},
    /// Kept for compatibility with the wider interface; never produced here.
    ExpectedReceivedNotMatched {},
    /// The operation targets a collection that is not registered.
    CollectionNotAllowed {},
    /// The collection is registered but its mirror has not been activated.
    CollectionDeactivated {},
    /// The ownership check for this asset failed, or could not be confirmed.
    /// A failed query is treated the same as a foreign owner on purpose.
    NotOwnedBySender { val: String },
    /// A downstream query outside the ownership-check path failed.
    CustomError { val: String },
    /// A continuation referenced a correlation token no record carries.
    NotFound {},
}

/// Mathematical model of a [`ContractError`] value.
#[verifier::ext_equal]
pub enum ErrorView {
    Unauthorized,
    NotEnoughFunds,
    ExpectedReceivedNotMatched,
    CollectionNotAllowed,
    CollectionDeactivated,
    NotOwnedBySender { val: Seq<char> },
    CustomError { val: Seq<char> },
    NotFound,
}

impl View for ContractError {
    type V = ErrorView;

    open spec fn view(&self) -> ErrorView {
        match self {
            ContractError::Unauthorized {} => ErrorView::Unauthorized,
            ContractError::NotEnoughFunds {} => ErrorView::NotEnoughFunds,
            ContractError::ExpectedReceivedNotMatched {} => ErrorView::ExpectedReceivedNotMatched,
            ContractError::CollectionNotAllowed {} => ErrorView::CollectionNotAllowed,
            ContractError::CollectionDeactivated {} => ErrorView::CollectionDeactivated,
            ContractError::NotOwnedBySender { val } => ErrorView::NotOwnedBySender { val: val@ },
            ContractError::CustomError { val } => ErrorView::CustomError { val: val@ },
            ContractError::NotFound {} => ErrorView::NotFound,
        }
    }
}

} // verus!
