//! Bridge Payments: the endpoints of payments, payment methods, addresses,
//! customers, subscriptions and organizations, and the options of their
//! requests.

pub mod types;

pub use types::{
    AddOrganizationMember, Address, CancelSubscription, ConvertGuest, CreateAddress, CreateCustomer,
    CreateOrganization, CreatePaymentIntent, CreateSubscription, Customer, GuestConversionResult,
    GuestData, Metadata, Organization, OrganizationMember, PageParams, Payment, PaymentIntent,
    PaymentMethod, Subscription, UpdateAddress, UpdateCustomer, UpdateOrganization,
    UpdateOrganizationMemberRole, UpdatePaymentMethod,
};

use vstd::prelude::*;

use crate::error::{FlowfullError, Result};
use crate::headers::{header_insert, valid_header_name, valid_header_value};
use crate::request::{bad_header_name_message, RequestOptions};
use crate::text::{ascii_lower, concat, decimal, owned, u64_to_decimal};

verus! {

/// The collection of payment intents.
pub const PAYMENT_INTENTS: &'static str = "/bridge-payment/payments/intents";

/// The collection of payments.
pub const PAYMENTS: &'static str = "/bridge-payment/payments";

/// The collection of saved payment methods.
pub const PAYMENT_METHODS: &'static str = "/bridge-payment/payment-methods";

/// The collection of addresses.
pub const ADDRESSES: &'static str = "/bridge-payment/addresses";

/// The collection of customers.
pub const CUSTOMERS: &'static str = "/bridge-payment/customers";

/// The collection of subscriptions.
pub const SUBSCRIPTIONS: &'static str = "/bridge-payment/subscriptions";

/// The collection of organizations.
pub const ORGANIZATIONS: &'static str = "/bridge-payment/organizations";

/// The endpoint that turns a guest's payments into the user's.
pub const GUEST_CONVERT: &'static str = "/bridge-payment/guest/convert";

/// The endpoint of one item of a collection: the collection, a `/` and the
/// id as it is.
pub fn item_path(collection: &str, id: &str) -> (r: String)
    ensures
        r@ == collection@ + "/"@ + id@,
{
    let head = concat(collection, "/");
    concat(head.as_str(), id)
}

/// The endpoint of an action on one item: the item's endpoint, a `/` and the
/// action (`cancel` for a subscription, `members` or `leave` for an
/// organization).
pub fn item_action_path(collection: &str, id: &str, action: &str) -> (r: String)
    ensures
        r@ == collection@ + "/"@ + id@ + "/"@ + action@,
{
    let item = item_path(collection, id);
    item_path(item.as_str(), action)
}

/// The endpoint of one member of an organization.
pub fn org_member_path(organization_id: &str, member_id: &str) -> (r: String)
    ensures
        r@ == "/bridge-payment/organizations/"@ + organization_id@ + "/members/"@ + member_id@,
{
    proof {
        reveal_strlit("/bridge-payment/organizations");
        reveal_strlit("/bridge-payment/organizations/");
        reveal_strlit("/");
        reveal_strlit("members");
        reveal_strlit("/members/");
    }
    let members = item_action_path(ORGANIZATIONS, organization_id, "members");
    let r = item_path(members.as_str(), member_id);
    assert(r@ =~= "/bridge-payment/organizations/"@ + organization_id@ + "/members/"@ + member_id@);
    r
}

/// The query of a listing: `page` when a page is given, then `limit` when a
/// page size is given, each in decimal.
pub open spec fn page_pairs(params: PageParams) -> Seq<(Seq<char>, Seq<char>)> {
    let page = match params.page {
        Some(p) => seq![("page"@, decimal(p as nat))],
        None => Seq::empty(),
    };
    let limit = match params.limit {
        Some(l) => seq![("limit"@, decimal(l as nat))],
        None => Seq::empty(),
    };
    page + limit
}

/// The views of a list of text pairs.
pub open spec fn text_pairs_view(v: Seq<(String, String)>) -> Seq<(Seq<char>, Seq<char>)> {
    v.map_values(|p: (String, String)| (p.0@, p.1@))
}

/// The options of a listing request: the query of `params`, and nothing
/// else.
pub fn list_options(params: &PageParams) -> (r: RequestOptions)
    ensures
        text_pairs_view(r.query@) == page_pairs(*params),
        r.headers@ == Seq::<(Seq<char>, Seq<char>)>::empty(),
        r.include_session.is_none(),
        r.session_id.is_none(),
        r.timeout.is_none(),
{
    let mut options = RequestOptions::new();
    if let Some(page) = params.page {
        options.query.push((owned("page"), u64_to_decimal(page)));
    }
    if let Some(limit) = params.limit {
        options.query.push((owned("limit"), u64_to_decimal(limit)));
    }
    assert(text_pairs_view(options.query@) =~= page_pairs(*params));
    options
}

/// The options of a guest's request: the guest token in the
/// `X-Guest-Token` header. A token that is not a valid header value is a
/// configuration error.
pub fn guest_options(guest_token: &str) -> (r: Result<RequestOptions>)
    ensures
        match r {
            Ok(o) => valid_header_value(guest_token@)
                && o.headers@ == seq![("x-guest-token"@, guest_token@)]
                && o.query@.len() == 0 && o.include_session.is_none()
                && o.session_id.is_none() && o.timeout.is_none(),
            Err(FlowfullError::Config(m)) => !valid_header_value(guest_token@)
                && m@ == "invalid header value for request option: "@ + "failed to parse header value"@,
            Err(_) => false,
        },
{
    proof {
        reveal_strlit("X-Guest-Token");
        reveal_strlit("x-guest-token");
    }
    let r = RequestOptions::new().header("X-Guest-Token", guest_token);
    proof {
        assert(valid_header_name("X-Guest-Token"@));
        assert(ascii_lower("X-Guest-Token"@) =~= "x-guest-token"@);
        assert(header_insert(Seq::empty(), "x-guest-token"@, guest_token@) =~= seq![("x-guest-token"@, guest_token@)]);
    }
    r
}

/// A listing's query carries the page whenever one is given, whatever the
/// page size, and the page size whenever one is given: `page` first and
/// `limit` last, each in decimal, and no other pair.
pub proof fn lemma_listing_carries_page_and_limit(params: PageParams)
    ensures
        page_pairs(params).len() == (if params.page.is_some() { 1int } else { 0int })
            + (if params.limit.is_some() { 1int } else { 0int }),
        params.page matches Some(p) ==> page_pairs(params)[0] == ("page"@, decimal(p as nat)),
        params.limit matches Some(l) ==> page_pairs(params).last() == ("limit"@, decimal(l as nat)),
{
}

} // verus!
