//! Properties that hold across calls of the registry's operations, stated
//! over the same spec functions that the operations' contracts use.
use vstd::prelude::*;

use crate::error::ErrorCode;
use crate::instructions::{after_delete, create_result, delete_result, read_result};
use crate::lifecycle::{after_purchase, purchase_result, Record, Status, MAX_PRODUCT_ID_LEN};
use crate::policy::is_company;
use crate::registry::{after_buy, buy_result};

verus! {

/// How many of the purchase `attempts` (identifier presented, time) made one
/// after another on `rec` succeed.
pub open spec fn purchase_successes(rec: Record, attempts: Seq<(Seq<char>, i64)>) -> nat
    decreases attempts.len(),
{
    if attempts.len() == 0 {
        0
    } else {
        let id = attempts[0].0;
        let now = attempts[0].1;
        let rest = purchase_successes(after_purchase(rec, id, now), attempts.drop_first());
        if purchase_result(rec, id) is Ok {
            rest + 1
        } else {
            rest
        }
    }
}

/// A purchase succeeds on a record at most once: whatever the attempts, at
/// most one succeeds, and none does once the record is sold.
pub proof fn law_single_purchase(rec: Record, attempts: Seq<(Seq<char>, i64)>)
    ensures
        purchase_successes(rec, attempts) <= 1,
        rec.status == Status::Sold ==> purchase_successes(rec, attempts) == 0,
    decreases attempts.len(),
{
    if attempts.len() > 0 {
        let id = attempts[0].0;
        let now = attempts[0].1;
        let next = after_purchase(rec, id, now);
        law_single_purchase(next, attempts.drop_first());
        if purchase_result(rec, id) is Ok {
            assert(next.status == Status::Sold);
        }
    }
}

/// Creation succeeds exactly for the company, given an identifier that fits
/// and a free slot; deletion succeeds exactly for the company deleting a
/// record it owns; any other caller is refused as not the company, whatever
/// the payload.
pub proof fn law_authorization(
    m: Map<Seq<u8>, Record>,
    company: Seq<char>,
    caller: Seq<u8>,
    product_id: Seq<char>,
    slot: Seq<u8>,
)
    ensures
        create_result(m, company, caller, product_id) is Ok <==> is_company(company, caller)
            && product_id.len() <= MAX_PRODUCT_ID_LEN && !m.contains_key(caller),
        product_id.len() <= MAX_PRODUCT_ID_LEN && !m.contains_key(caller) ==> (create_result(
            m,
            company,
            caller,
            product_id,
        ) is Ok <==> is_company(company, caller)),
        delete_result(m, company, caller, slot) is Ok <==> is_company(company, caller)
            && m.contains_key(slot) && m[slot].owner == caller,
        !is_company(company, caller) ==> create_result(m, company, caller, product_id) == Err::<
            (),
            ErrorCode,
        >(ErrorCode::UnauthorizedCompany),
        !is_company(company, caller) ==> delete_result(m, company, caller, slot) == Err::<
            (),
            ErrorCode,
        >(ErrorCode::UnauthorizedCompany),
{
}

/// An identifier of 500 characters is accepted; one of 501 is refused as
/// too long.
pub proof fn law_length_boundary(
    m: Map<Seq<u8>, Record>,
    company: Seq<char>,
    caller: Seq<u8>,
    product_id: Seq<char>,
)
    requires
        is_company(company, caller),
    ensures
        product_id.len() == 500 && !m.contains_key(caller) ==> create_result(
            m,
            company,
            caller,
            product_id,
        ) is Ok,
        product_id.len() == 501 ==> create_result(m, company, caller, product_id) == Err::<
            (),
            ErrorCode,
        >(ErrorCode::StringTooLong),
{
}

/// A purchase that presents another identifier than the stored one is
/// refused as invalid and leaves the record as it was.
pub proof fn law_mismatch_rejected(
    m: Map<Seq<u8>, Record>,
    slot: Seq<u8>,
    product_id: Seq<char>,
    now: i64,
)
    requires
        m.contains_key(slot),
        m[slot].product_id != product_id,
    ensures
        buy_result(m, slot, product_id) == Err::<(), ErrorCode>(ErrorCode::InvalidProductId),
        after_buy(m, slot, product_id, now)[slot].status == m[slot].status,
        after_buy(m, slot, product_id, now) == m,
{
    assert(after_buy(m, slot, product_id, now) =~= m);
}

/// A second purchase of a sold record, presenting its identifier, is
/// refused as already bought and leaves its update time as it was.
pub proof fn law_repurchase_rejected(
    m: Map<Seq<u8>, Record>,
    slot: Seq<u8>,
    product_id: Seq<char>,
    now: i64,
)
    requires
        m.contains_key(slot),
        m[slot].status == Status::Sold,
        m[slot].product_id == product_id,
    ensures
        buy_result(m, slot, product_id) == Err::<(), ErrorCode>(ErrorCode::ProductAlreadyBought),
        after_buy(m, slot, product_id, now)[slot].updated_at == m[slot].updated_at,
        after_buy(m, slot, product_id, now) == m,
{
    assert(after_buy(m, slot, product_id, now) =~= m);
}

/// After a deletion succeeds, the slot is empty: reads and purchases of it
/// are refused as not found, and a purchase changes nothing.
pub proof fn law_absent_after_delete(
    m: Map<Seq<u8>, Record>,
    company: Seq<char>,
    caller: Seq<u8>,
    slot: Seq<u8>,
    product_id: Seq<char>,
    now: i64,
)
    requires
        delete_result(m, company, caller, slot) is Ok,
    ensures
        read_result(after_delete(m, company, caller, slot), slot) == Err::<
            (Seq<char>, Status),
            ErrorCode,
        >(ErrorCode::NotFound),
        buy_result(after_delete(m, company, caller, slot), slot, product_id) == Err::<
            (),
            ErrorCode,
        >(ErrorCode::NotFound),
        after_buy(after_delete(m, company, caller, slot), slot, product_id, now) == after_delete(
            m,
            company,
            caller,
            slot,
        ),
{
}

} // verus!
