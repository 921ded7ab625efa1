//! A product record and the one-way move from listed to sold.
use vstd::prelude::*;

use crate::error::ErrorCode;
use crate::identity::Identity;

verus! {

/// The most characters a product identifier may have.
pub const MAX_PRODUCT_ID_LEN: usize = 500;

/// Where a record stands in its life.
#[derive(Clone, Copy, Debug, PartialEq, Eq, Structural)]
pub enum Status {
    Listed,
    Sold,
}

/// What a record holds, as plain mathematical values.
pub struct Record {
    pub product_id: Seq<char>,
    pub status: Status,
    pub owner: Seq<u8>,
    pub created_at: i64,
    pub updated_at: i64,
}

impl Record {
    /// What a stored record always satisfies.
    pub open spec fn wf(self) -> bool {
        &&& self.product_id.len() <= MAX_PRODUCT_ID_LEN
        &&& self.owner.len() == 32
        &&& self.created_at <= self.updated_at
    }
}

/// A fresh record, listed at time `now`.
pub open spec fn listed_record(product_id: Seq<char>, owner: Seq<u8>, now: i64) -> Record {
    Record { product_id, status: Status::Listed, owner, created_at: now, updated_at: now }
}

/// What a purchase of `product_id` returns when tried on `rec`.
pub open spec fn purchase_result(rec: Record, product_id: Seq<char>) -> Result<(), ErrorCode> {
    if rec.product_id != product_id {
        Err(ErrorCode::InvalidProductId)
    } else if rec.status == Status::Sold {
        Err(ErrorCode::ProductAlreadyBought)
    } else {
        Ok(())
    }
}

/// The record after a purchase of `product_id` at time `now`: sold and
/// stamped where the purchase succeeds, untouched where it fails.
pub open spec fn after_purchase(rec: Record, product_id: Seq<char>, now: i64) -> Record {
    if purchase_result(rec, product_id) is Ok {
        Record { status: Status::Sold, updated_at: now, ..rec }
    } else {
        rec
    }
}

/// A stored product record.
#[derive(Debug)]
pub struct ProductAccount {
    pub product_id: String,
    pub status: Status,
    pub owner: Identity,
    pub created_at: i64,
    pub updated_at: i64,
}

impl View for ProductAccount {
    type V = Record;

    open spec fn view(&self) -> Record {
        Record {
            product_id: self.product_id@,
            status: self.status,
            owner: self.owner@,
            created_at: self.created_at,
            updated_at: self.updated_at,
        }
    }
}

impl ProductAccount {
    /// A record of `product_id`, listed by `owner` at time `now`.
    pub fn listed(product_id: String, owner: Identity, now: i64) -> (r: ProductAccount)
        ensures
            r@ == listed_record(product_id@, owner@, now),
    {
        ProductAccount { product_id, status: Status::Listed, owner, created_at: now, updated_at: now }
    }

    /// The record's identifier and status, as a read hands them out.
    pub fn validate(&self) -> (r: (String, Status))
        ensures
            r.0@ == self@.product_id,
            r.1 == self@.status,
    {
        (self.product_id.clone(), self.status)
    }

    /// Marks the record sold, if `product_id` is the one it holds and it is
    /// still listed.
    pub fn purchase(&mut self, product_id: &String, now: i64) -> (r: Result<(), ErrorCode>)
        ensures
            r == purchase_result(old(self)@, product_id@),
            final(self)@ == after_purchase(old(self)@, product_id@, now),
    {
        if !(self.product_id == *product_id) {
            return Err(ErrorCode::InvalidProductId);
        }
        match self.status {
            Status::Sold => Err(ErrorCode::ProductAlreadyBought),
            Status::Listed => {
                self.status = Status::Sold;
                self.updated_at = now;
                Ok(())
            },
        }
    }
}

} // verus!
