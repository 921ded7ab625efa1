//! Who may create and who may delete records.
use vstd::prelude::*;

use crate::error::ErrorCode;
use crate::identity::{base58_of, key_text, Identity};

verus! {

/// Whether `caller` is the configured company: its key, written in base58,
/// is the configured text.
pub open spec fn is_company(company: Seq<char>, caller: Seq<u8>) -> bool {
    base58_of(caller) == company
}

/// The answer to a request to create a record.
pub open spec fn create_permission(company: Seq<char>, caller: Seq<u8>) -> Result<(), ErrorCode> {
    if is_company(company, caller) {
        Ok(())
    } else {
        Err(ErrorCode::UnauthorizedCompany)
    }
}

/// The answer to a request to delete a record owned by `owner`: the
/// company check comes first, the owner check only after it.
pub open spec fn delete_permission(company: Seq<char>, caller: Seq<u8>, owner: Seq<u8>) -> Result<
    (),
    ErrorCode,
> {
    if !is_company(company, caller) {
        Err(ErrorCode::UnauthorizedCompany)
    } else if caller != owner {
        Err(ErrorCode::Unauthorized)
    } else {
        Ok(())
    }
}

/// Compares the text form of a caller's key with the configured company.
pub fn check_company(caller_text: &String, company: &String) -> (r: Result<(), ErrorCode>)
    ensures
        r == (if caller_text@ == company@ {
            Ok(())
        } else {
            Err(ErrorCode::UnauthorizedCompany)
        }),
{
    if *caller_text == *company {
        Ok(())
    } else {
        Err(ErrorCode::UnauthorizedCompany)
    }
}

/// Decides whether `caller` may create a record.
pub fn authorize_create(caller: &Identity, company: &String) -> (r: Result<(), ErrorCode>)
    ensures
        r == create_permission(company@, caller@),
{
    let text = key_text(caller);
    check_company(&text, company)
}

/// Decides whether `caller` may delete a record owned by `owner`.
pub fn authorize_delete(caller: &Identity, owner: &Identity, company: &String) -> (r: Result<
    (),
    ErrorCode,
>)
    ensures
        r == delete_permission(company@, caller@, owner@),
{
    match authorize_create(caller, company) {
        Err(e) => Err(e),
        Ok(()) => {
            if caller.same_as(owner) {
                Ok(())
            } else {
                Err(ErrorCode::Unauthorized)
            }
        },
    }
}

} // verus!
