//! The four requests that callers send: list a product, read it, buy it,
//! delete it. Each passes the authorization policy first, then acts on the
//! registry.
use vstd::prelude::*;

use crate::error::ErrorCode;
use crate::identity::Identity;
use crate::lifecycle::{listed_record, ProductAccount, Record, Status, MAX_PRODUCT_ID_LEN};
use crate::policy::{authorize_create, authorize_delete, create_permission, delete_permission};
use crate::registry::{after_buy, buy_result, ProductRegistry};

verus! {

/// A request to list a product: the signing caller, whose slot receives the
/// record, and the time of the request.
pub struct AddProduct {
    pub owner: Identity,
    pub now: i64,
}

/// A request to read the record in a slot.
pub struct ValidateProduct {
    pub product_account: Identity,
}

/// A request to buy the record in a slot, at a time.
pub struct BuyProduct {
    pub product_account: Identity,
    pub now: i64,
}

/// A request by the signing `owner` to delete the record in a slot.
pub struct DeleteProduct {
    pub product_account: Identity,
    pub owner: Identity,
}

/// What a request to list `product_id` by `caller` returns.
pub open spec fn create_result(
    m: Map<Seq<u8>, Record>,
    company: Seq<char>,
    caller: Seq<u8>,
    product_id: Seq<char>,
) -> Result<(), ErrorCode> {
    if create_permission(company, caller) is Err {
        create_permission(company, caller)
    } else if product_id.len() > MAX_PRODUCT_ID_LEN {
        Err(ErrorCode::StringTooLong)
    } else if m.contains_key(caller) {
        Err(ErrorCode::SlotAlreadyBound)
    } else {
        Ok(())
    }
}

/// The slots after a request to list `product_id` by `caller` at `now`.
pub open spec fn after_create(
    m: Map<Seq<u8>, Record>,
    company: Seq<char>,
    caller: Seq<u8>,
    product_id: Seq<char>,
    now: i64,
) -> Map<Seq<u8>, Record> {
    if create_result(m, company, caller, product_id) is Ok {
        m.insert(caller, listed_record(product_id, caller, now))
    } else {
        m
    }
}

/// What a read of `slot` returns: the identifier and status of its record.
pub open spec fn read_result(m: Map<Seq<u8>, Record>, slot: Seq<u8>) -> Result<
    (Seq<char>, Status),
    ErrorCode,
> {
    if m.contains_key(slot) {
        Ok((m[slot].product_id, m[slot].status))
    } else {
        Err(ErrorCode::NotFound)
    }
}

/// A read's answer with the identifier as its characters.
pub open spec fn read_view(r: Result<(String, Status), ErrorCode>) -> Result<
    (Seq<char>, Status),
    ErrorCode,
> {
    match r {
        Ok((id, status)) => Ok((id@, status)),
        Err(e) => Err(e),
    }
}

/// What a request by `caller` to delete the record in `slot` returns.
pub open spec fn delete_result(
    m: Map<Seq<u8>, Record>,
    company: Seq<char>,
    caller: Seq<u8>,
    slot: Seq<u8>,
) -> Result<(), ErrorCode> {
    if create_permission(company, caller) is Err {
        create_permission(company, caller)
    } else if !m.contains_key(slot) {
        Err(ErrorCode::NotFound)
    } else {
        delete_permission(company, caller, m[slot].owner)
    }
}

/// The slots after a request by `caller` to delete the record in `slot`.
pub open spec fn after_delete(
    m: Map<Seq<u8>, Record>,
    company: Seq<char>,
    caller: Seq<u8>,
    slot: Seq<u8>,
) -> Map<Seq<u8>, Record> {
    if delete_result(m, company, caller, slot) is Ok {
        m.remove(slot)
    } else {
        m
    }
}

/// Lists `product_id` in the caller's slot, if the caller is the company,
/// the identifier is short enough and the slot is free.
pub fn add_product(registry: &mut ProductRegistry, ctx: &AddProduct, product_id: String) -> (r:
    Result<(), ErrorCode>)
    requires
        old(registry).wf(),
    ensures
        final(registry).wf(),
        final(registry).company() == old(registry).company(),
        r == create_result(old(registry)@, old(registry).company(), ctx.owner@, product_id@),
        final(registry)@ == after_create(
            old(registry)@,
            old(registry).company(),
            ctx.owner@,
            product_id@,
            ctx.now,
        ),
{
    match authorize_create(&ctx.owner, registry.company_text()) {
        Err(e) => {
            return Err(e);
        },
        Ok(()) => {},
    }
    if product_id.as_str().unicode_len() > MAX_PRODUCT_ID_LEN {
        return Err(ErrorCode::StringTooLong);
    }
    let account = ProductAccount::listed(product_id, ctx.owner, ctx.now);
    registry.bind(account)
}

/// Reads the identifier and status of the record in a slot.
pub fn validate_product(registry: &ProductRegistry, ctx: &ValidateProduct) -> (r: Result<
    (String, Status),
    ErrorCode,
>)
    requires
        registry.wf(),
    ensures
        read_view(r) == read_result(registry@, ctx.product_account@),
{
    match registry.account(&ctx.product_account) {
        None => Err(ErrorCode::NotFound),
        Some(account) => Ok(account.validate()),
    }
}

/// Buys the record in a slot, presenting `product_id`.
pub fn buy_product(registry: &mut ProductRegistry, ctx: &BuyProduct, product_id: String) -> (r:
    Result<(), ErrorCode>)
    requires
        old(registry).wf(),
        old(registry)@.contains_key(ctx.product_account@) ==> old(registry)@[ctx.product_account@].updated_at
            <= ctx.now,
    ensures
        final(registry).wf(),
        final(registry).company() == old(registry).company(),
        r == buy_result(old(registry)@, ctx.product_account@, product_id@),
        final(registry)@ == after_buy(old(registry)@, ctx.product_account@, product_id@, ctx.now),
{
    registry.purchase(&ctx.product_account, &product_id, ctx.now)
}

/// Deletes the record in a slot, if the caller is the company and owns it.
pub fn delete_product(registry: &mut ProductRegistry, ctx: &DeleteProduct) -> (r: Result<
    (),
    ErrorCode,
>)
    requires
        old(registry).wf(),
    ensures
        final(registry).wf(),
        final(registry).company() == old(registry).company(),
        r == delete_result(
            old(registry)@,
            old(registry).company(),
            ctx.owner@,
            ctx.product_account@,
        ),
        final(registry)@ == after_delete(
            old(registry)@,
            old(registry).company(),
            ctx.owner@,
            ctx.product_account@,
        ),
{
    match authorize_create(&ctx.owner, registry.company_text()) {
        Err(e) => {
            return Err(e);
        },
        Ok(()) => {},
    }
    let record_owner = match registry.account(&ctx.product_account) {
        None => {
            return Err(ErrorCode::NotFound);
        },
        Some(account) => account.owner,
    };
    match authorize_delete(&ctx.owner, &record_owner, registry.company_text()) {
        Err(e) => {
            return Err(e);
        },
        Ok(()) => {},
    }
    registry.unbind(&ctx.product_account);
    Ok(())
}

} // verus!
