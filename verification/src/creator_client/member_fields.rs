//! Field names for member resources.

use vstd::prelude::*;

verus! {

pub const CAMPAIGN_LIFETIME_SUPPORT_CENTS: &'static str = "campaign_lifetime_support_cents";

pub const CURRENTLY_ENTITLED_AMOUNT_CENTS: &'static str = "currently_entitled_amount_cents";

pub const EMAIL: &'static str = "email";

pub const FULL_NAME: &'static str = "full_name";

pub const IS_FOLLOWER: &'static str = "is_follower";

pub const LAST_CHARGE_DATE: &'static str = "last_charge_date";

pub const LAST_CHARGE_STATUS: &'static str = "last_charge_status";

pub const LIFETIME_SUPPORT_CENTS: &'static str = "lifetime_support_cents";

pub const NEXT_CHARGE_DATE: &'static str = "next_charge_date";

pub const NOTE: &'static str = "note";

pub const PATRON_STATUS: &'static str = "patron_status";

pub const PLEDGE_RELATIONSHIP_START: &'static str = "pledge_relationship_start";

pub const WILL_PAY_AMOUNT_CENTS: &'static str = "will_pay_amount_cents";

} // verus!
