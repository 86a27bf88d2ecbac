//! The billing result that provisioning operations return.

use vstd::prelude::*;

use crate::error::Error;
use crate::error::shape_error;
use crate::json::JsonValue;
use crate::json::jv_field_str;
use crate::json::spec_field_str;

verus! {

/// What the remote service answers when an order is placed: the order
/// and the account it created or changed.
#[derive(Debug)]
pub struct BillingResource {
    pub order_id: String,
    pub account_id: String,
}

pub struct BillingResourceView {
    pub order_id: Seq<char>,
    pub account_id: Seq<char>,
}

impl View for BillingResource {
    type V = BillingResourceView;

    open spec fn view(&self) -> BillingResourceView {
        BillingResourceView { order_id: self.order_id@, account_id: self.account_id@ }
    }
}

/// How a decoded `data` value reads as a billing result: a string
/// `order_id` and a string `account_id`, both required.
pub open spec fn spec_parse_billing_resource(v: JsonValue) -> Option<BillingResourceView> {
    match (spec_field_str(v, "order_id"@), spec_field_str(v, "account_id"@)) {
        (Some(order_id), Some(account_id)) => Some(
            BillingResourceView { order_id, account_id },
        ),
        _ => None,
    }
}

/// Reads a decoded `data` value as a billing result.
pub fn parse_billing_resource(v: &JsonValue) -> (r: Result<BillingResource, Error>)
    ensures
        match r {
            Ok(b) => spec_parse_billing_resource(*v) == Some(b@),
            Err(e) => spec_parse_billing_resource(*v) is None && e matches Error::InvalidArgument(
                _,
            ),
        },
{
    let order_id = match jv_field_str(v, "order_id") {
        Some(x) => x,
        None => {
            return Err(shape_error("billing result"));
        },
    };
    let account_id = match jv_field_str(v, "account_id") {
        Some(x) => x,
        None => {
            return Err(shape_error("billing result"));
        },
    };
    Ok(BillingResource { order_id, account_id })
}

} // verus!
