//! A user's active subscription: its details as shown to the user, and what
//! cancelling it needs.
use crate::text::{owned, str_eq};
use vstd::prelude::*;

verus! {

/// Billing period.
#[derive(Debug, Clone, Copy, PartialEq, Eq, Structural)]
pub enum SubscriptionPeriod {
    Monthly,
    Yearly,
}

/// Subscription state.
#[derive(Debug, Clone, Copy, PartialEq, Eq, Structural)]
pub enum SubscriptionStatus {
    Active,
    Cancelled,
    Expired,
}

/// Subscription details shown to the user.
#[derive(Debug)]
pub struct SubscriptionDetails {
    pub subscription_id: String,
    pub tier: String,
    pub period: SubscriptionPeriod,
    pub amount: i64,
    pub status: SubscriptionStatus,
    pub next_billing_date: Option<String>,
    pub created_at: String,
}

/// The fields of a subscriptions row, each when present as a string.
#[derive(Debug)]
pub struct SubscriptionRow {
    pub id: Option<String>,
    pub billing_key: Option<String>,
    pub period: Option<String>,
    pub status: Option<String>,
    pub next_billing_date: Option<String>,
    pub created_at: Option<String>,
}

/// Period of a stored period name; anything but YEARLY counts as monthly.
pub open spec fn period_of(s: Seq<char>) -> SubscriptionPeriod {
    if s == "YEARLY"@ {
        SubscriptionPeriod::Yearly
    } else {
        SubscriptionPeriod::Monthly
    }
}

/// Status of a stored status name; anything unknown counts as active.
pub open spec fn status_of(s: Seq<char>) -> SubscriptionStatus {
    if s == "cancelled"@ {
        SubscriptionStatus::Cancelled
    } else if s == "expired"@ {
        SubscriptionStatus::Expired
    } else {
        SubscriptionStatus::Active
    }
}

/// Price of a period in won.
pub open spec fn period_amount(p: SubscriptionPeriod) -> i64 {
    match p {
        SubscriptionPeriod::Monthly => 9900,
        SubscriptionPeriod::Yearly => 99000,
    }
}

impl SubscriptionPeriod {
    /// The period of a stored period name.
    pub fn from_name(s: &str) -> (p: Self)
        ensures
            p == period_of(s@),
    {
        if str_eq(s, "YEARLY") {
            SubscriptionPeriod::Yearly
        } else {
            SubscriptionPeriod::Monthly
        }
    }

    /// Price of the period.
    pub fn amount(&self) -> (a: i64)
        ensures
            a == period_amount(*self),
    {
        match self {
            SubscriptionPeriod::Monthly => 9900,
            SubscriptionPeriod::Yearly => 99000,
        }
    }
}

impl SubscriptionStatus {
    /// The status of a stored status name.
    pub fn from_name(s: &str) -> (r: Self)
        ensures
            r == status_of(s@),
    {
        if str_eq(s, "cancelled") {
            SubscriptionStatus::Cancelled
        } else if str_eq(s, "expired") {
            SubscriptionStatus::Expired
        } else {
            SubscriptionStatus::Active
        }
    }
}

/// The active subscription among the rows the query returned: the first row;
/// an error when the result was not a list, or was empty.
pub fn first_active_subscription(rows: &Option<Vec<SubscriptionRow>>) -> (r: Result<&SubscriptionRow, String>)
    ensures
        match *rows {
            None => r matches Err(m) && m@ == "Invalid subscription data format"@,
            Some(v) => if v@.len() == 0 {
                r matches Err(m) && m@ == "No active subscription found"@
            } else {
                r matches Ok(row) && *row == v@[0]
            },
        },
{
    match rows {
        None => Err(owned("Invalid subscription data format")),
        Some(v) => {
            if v.len() == 0 {
                Err(owned("No active subscription found"))
            } else {
                Ok(&v[0])
            }
        },
    }
}

fn copy_string(s: &String) -> (r: String)
    ensures
        r@ == s@,
{
    owned(s.as_str())
}

fn copy_option(o: &Option<String>) -> (r: Option<String>)
    ensures
        match *o {
            Some(s) => r matches Some(t) && t@ == s@,
            None => r is None,
        },
{
    match o {
        Some(s) => Some(owned(s.as_str())),
        None => None,
    }
}

/// Details of a subscription row once the user's license tier is known (PRO
/// when the license has none): the row's id, period, status, next billing
/// date and creation time, and the period's price. A row without an id,
/// period, status or creation time is refused, in that order.
pub fn subscription_details(row: &SubscriptionRow, license_tier: Option<String>) -> (r: Result<
    SubscriptionDetails,
    String,
>)
    ensures
        row.id is None ==> (r matches Err(m) && m@ == "Missing subscription ID"@),
        row.id is Some && row.period is None ==> (r matches Err(m) && m@ == "Missing period"@),
        row.id is Some && row.period is Some && row.status is None ==> (r matches Err(m) && m@
            == "Missing status"@),
        row.id is Some && row.period is Some && row.status is Some && row.created_at is None ==> (
        r matches Err(m) && m@ == "Missing created_at"@),
        (row.id is Some && row.period is Some && row.status is Some && row.created_at is Some)
            ==> (r matches Ok(d) && d.subscription_id@ == row.id.unwrap()@ && d.period == period_of(
            row.period.unwrap()@,
        ) && d.status == status_of(row.status.unwrap()@) && d.amount == period_amount(d.period)
            && d.created_at@ == row.created_at.unwrap()@ && d.tier@ == (match license_tier {
            Some(t) => t@,
            None => "PRO"@,
        }) && (match row.next_billing_date {
            Some(n) => d.next_billing_date matches Some(x) && x@ == n@,
            None => d.next_billing_date is None,
        })),
{
    let subscription_id = match &row.id {
        Some(s) => copy_string(s),
        None => {
            return Err(owned("Missing subscription ID"));
        },
    };
    let period = match &row.period {
        Some(s) => SubscriptionPeriod::from_name(s.as_str()),
        None => {
            return Err(owned("Missing period"));
        },
    };
    let status = match &row.status {
        Some(s) => SubscriptionStatus::from_name(s.as_str()),
        None => {
            return Err(owned("Missing status"));
        },
    };
    let next_billing_date = copy_option(&row.next_billing_date);
    let created_at = match &row.created_at {
        Some(s) => copy_string(s),
        None => {
            return Err(owned("Missing created_at"));
        },
    };
    let amount = period.amount();
    let tier = match license_tier {
        Some(t) => t,
        None => owned("PRO"),
    };
    Ok(SubscriptionDetails {
        subscription_id,
        tier,
        period,
        amount,
        status,
        next_billing_date,
        created_at,
    })
}

/// What cancelling a subscription needs: its billing key (an error when the
/// row has none) and the date the license then expires, the row's next
/// billing date or `today`.
pub fn cancellation_target(row: &SubscriptionRow, today: &str) -> (r: Result<(String, String), String>)
    ensures
        row.billing_key is None ==> (r matches Err(m) && m@ == "Missing billing key"@),
        row.billing_key matches Some(k) ==> (r matches Ok((key, expires)) && key@ == k@ && expires@
            == (match row.next_billing_date {
            Some(d) => d@,
            None => today@,
        })),
{
    let key = match &row.billing_key {
        Some(k) => copy_string(k),
        None => {
            return Err(owned("Missing billing key"));
        },
    };
    let expires = match &row.next_billing_date {
        Some(d) => copy_string(d),
        None => owned(today),
    };
    Ok((key, expires))
}

} // verus!
