use vstd::prelude::*;

verus! {

/// Every way in which an operation on the registry can fail.
#[derive(Clone, Copy, Debug, PartialEq, Eq, Structural)]
pub enum ErrorCode {
    /// The product identifier is longer than the stored text may be.
    StringTooLong,
    /// The caller is the company but not the owner of the record.
    Unauthorized,
    /// A purchase named another product than the record holds.
    InvalidProductId,
    /// The record has been sold already.
    ProductAlreadyBought,
    /// The caller is not the configured company.
    UnauthorizedCompany,
    /// No record is bound to the slot.
    NotFound,
    /// The slot of the owner holds a record already.
    SlotAlreadyBound,
}

impl ErrorCode {
    /// The message that goes with the error.
    pub fn message(&self) -> (r: &'static str) {
        match self {
            ErrorCode::StringTooLong => "Product ID exceeds maximum length of 500 characters",
            ErrorCode::Unauthorized => "Only the owner can perform this action",
            ErrorCode::InvalidProductId => "Invalid product ID provided",
            ErrorCode::ProductAlreadyBought => "Product has already been bought",
            ErrorCode::UnauthorizedCompany => "Only authorized company can add products",
            ErrorCode::NotFound => "No product is stored in this slot",
            ErrorCode::SlotAlreadyBound => "This owner already has a product stored",
        }
    }
}

} // verus!
