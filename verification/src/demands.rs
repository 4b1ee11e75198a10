//! Rules of the demand board: who may quote, what a quote must hold, and
//! when a creator may accept one.
use vstd::prelude::*;
use crate::error::{AppError, is_bad_request, bad_request};
use crate::models::UserRow;
use crate::text::{char_count, concat2, owned, push_str, str_eq, trim, trim_seq};

verus! {

/// A provider's quote for a demand.
pub struct ProposalInput {
    /// In cents.
    pub amount: i64,
    pub cycle: String,
    pub deliverables: String,
    pub message: Option<String>,
}

/// The refusal for a quote, if any.
pub open spec fn proposal_error(input: ProposalInput) -> Option<Seq<char>> {
    let cycle = trim_seq(input.cycle@);
    let deliverables = trim_seq(input.deliverables@);
    if input.amount < 100 || input.amount > 100_000_000 {
        Some("proposal amount is invalid"@)
    } else if cycle.len() < 2 || cycle.len() > 40 {
        Some("proposal cycle is invalid"@)
    } else if deliverables.len() < 4 || deliverables.len() > 500 {
        Some("proposal deliverables are invalid"@)
    } else if input.message matches Some(m) && m@.len() > 500 {
        Some("proposal message is too long"@)
    } else {
        None
    }
}

/// `validate_proposal`: an amount from 1 to 1,000,000 yuan, a cycle of 2 to 40
/// characters, deliverables of 4 to 500 and a message of at most 500.
pub fn validate_proposal(input: &ProposalInput) -> (r: Result<(), AppError>)
    ensures
        proposal_error(*input) is None ==> r is Ok,
        proposal_error(*input) matches Some(m) ==> (r matches Err(e) && is_bad_request(e, m)),
{
    if input.amount < 100 || input.amount > 100_000_000 {
        return Err(bad_request("proposal amount is invalid"));
    }
    let cycle = trim(input.cycle.as_str());
    let cycle_len = char_count(cycle.as_str());
    if cycle_len < 2 || cycle_len > 40 {
        return Err(bad_request("proposal cycle is invalid"));
    }
    let deliverables = trim(input.deliverables.as_str());
    let deliverables_len = char_count(deliverables.as_str());
    if deliverables_len < 4 || deliverables_len > 500 {
        return Err(bad_request("proposal deliverables are invalid"));
    }
    match &input.message {
        Some(m) => {
            if char_count(m.as_str()) > 500 {
                return Err(bad_request("proposal message is too long"));
            }
        },
        None => {},
    }
    Ok(())
}

/// `require_approved`: only users whose onboarding was approved may act.
pub fn require_approved(user: &UserRow) -> (r: Result<(), AppError>)
    ensures
        user.onboarding_status@ == "approved"@ ==> r is Ok,
        user.onboarding_status@ != "approved"@ ==> (r matches Err(e) && is_bad_request(
            e,
            "onboarding approval required"@,
        )),
{
    crate::api::require_approved(user)
}

/// `require_provider`: only promotion providers may act.
pub fn require_provider(user: &UserRow) -> (r: Result<(), AppError>)
    ensures
        user.role@ == "provider"@ ==> r is Ok,
        user.role@ != "provider"@ ==> (r matches Err(e) && is_bad_request(
            e,
            "provider role required"@,
        )),
{
    if !str_eq(user.role.as_str(), "provider") {
        return Err(bad_request("provider role required"));
    }
    Ok(())
}

/// `require_creator`: only creators may act.
pub fn require_creator(user: &UserRow) -> (r: Result<(), AppError>)
    ensures
        user.role@ == "client"@ ==> r is Ok,
        user.role@ != "client"@ ==> (r matches Err(e) && is_bad_request(e, "creator role required"@)),
{
    crate::api::require_creator(user)
}

/// The demand board query, before its filter.
pub const DEMAND_SELECT: &'static str = "SELECT m.id, m.user_id AS creator_user_id, u.organization AS creator_name,
         u.avatar AS creator_avatar, s.name AS song_name, m.target_keys AS target_keys_json,
         b.label AS budget_label, m.goal, m.cycle, m.status,
         (SELECT COUNT(*) FROM demand_proposals dp
          WHERE dp.match_request_id = m.id AND dp.status != 'withdrawn') AS proposal_count,
         m.created_at
         FROM match_requests m
         JOIN users u ON u.id = m.user_id
         JOIN songs s ON s.id = m.song_id
         JOIN budget_options b ON b.id = m.budget_id
         ";

/// `demand_query`: the demand board query with a filter and an order.
pub fn demand_query(filter: &str, order: &str) -> (q: String)
    ensures
        q@ == DEMAND_SELECT@ + filter@ + "\n         ORDER BY "@ + order@,
{
    let mut q = owned(DEMAND_SELECT);
    push_str(&mut q, filter);
    push_str(&mut q, "\n         ORDER BY ");
    push_str(&mut q, order);
    q
}

/// `submit_proposal`'s rules once the demand, the provider's public profile
/// and the provider's earlier quote are known: no quote on one's own demand,
/// only from a published provider profile, and no change to an accepted
/// quote.
pub fn check_quote_allowed(
    creator_user_id: &str,
    user_id: &str,
    has_public_profile: bool,
    existing_status: Option<&str>,
) -> (r: Result<(), AppError>)
    ensures
        creator_user_id@ == user_id@ ==> (r matches Err(e) && is_bad_request(
            e,
            "providers cannot quote their own demand"@,
        )),
        creator_user_id@ != user_id@ && !has_public_profile ==> (r matches Err(e) && is_bad_request(
            e,
            "approved provider profile required"@,
        )),
        creator_user_id@ != user_id@ && has_public_profile && (existing_status matches Some(s)
            && s@ == "accepted"@) ==> (r matches Err(e) && is_bad_request(
            e,
            "accepted proposal cannot be changed"@,
        )),
        creator_user_id@ != user_id@ && has_public_profile && !(existing_status matches Some(s)
            && s@ == "accepted"@) ==> r is Ok,
{
    if str_eq(creator_user_id, user_id) {
        return Err(bad_request("providers cannot quote their own demand"));
    }
    if !has_public_profile {
        return Err(bad_request("approved provider profile required"));
    }
    match existing_status {
        Some(s) => {
            if str_eq(s, "accepted") {
                return Err(bad_request("accepted proposal cannot be changed"));
            }
        },
        None => {},
    }
    Ok(())
}

/// The texts a quote is stored with: its cycle, deliverables and message,
/// trimmed (no message is an empty one).
pub fn quote_texts(input: &ProposalInput) -> (t: (String, String, String))
    ensures
        t.0@ == trim_seq(input.cycle@),
        t.1@ == trim_seq(input.deliverables@),
        t.2@ == (match &input.message {
            Some(m) => trim_seq(m@),
            None => Seq::empty(),
        }),
{
    let message = match &input.message {
        Some(m) => trim(m.as_str()),
        None => String::new(),
    };
    (trim(input.cycle.as_str()), trim(input.deliverables.as_str()), message)
}

/// The notice a creator receives for a new quote.
pub fn quote_notice(organization: &str) -> (n: String)
    ensures
        n@ == organization@ + "已提交推广报价，可前往需求中心查看。"@,
{
    concat2(organization, "已提交推广报价，可前往需求中心查看。")
}

/// The demand board a user sees: a creator their own demands, newest first;
/// a provider the open demands of others and those they quoted, open ones
/// first.  Other roles see none.
pub fn demand_board_query(user: &UserRow) -> (r: Result<String, AppError>)
    ensures
        user.role@ == "client"@ ==> (r matches Ok(q) && q@ == DEMAND_SELECT@ + "WHERE m.user_id = ?"@
            + "\n         ORDER BY "@ + "m.created_at DESC"@),
        user.role@ == "provider"@ ==> (r matches Ok(q) && q@ == DEMAND_SELECT@ + PROVIDER_BOARD_FILTER@
            + "\n         ORDER BY "@ + PROVIDER_BOARD_ORDER@),
        user.role@ != "client"@ && user.role@ != "provider"@ ==> (r matches Err(e) && is_bad_request(
            e,
            "provider role required"@,
        )),
{
    proof {
        reveal_strlit("client");
        reveal_strlit("provider");
        assert("client"@ != "provider"@) by {
            assert("client"@[0] != "provider"@[0]);
        }
    }
    if str_eq(user.role.as_str(), "client") {
        return Ok(demand_query("WHERE m.user_id = ?", "m.created_at DESC"));
    }
    require_provider(user)?;
    Ok(demand_query(PROVIDER_BOARD_FILTER, PROVIDER_BOARD_ORDER))
}

/// A provider's board: others' open demands and those the provider quoted.
pub const PROVIDER_BOARD_FILTER: &'static str = "WHERE m.user_id != ? AND (
               m.status = 'open'
               OR EXISTS (
                 SELECT 1 FROM demand_proposals own
                 WHERE own.match_request_id = m.id AND own.provider_user_id = ?
               )
             )";

/// A provider's board order: open demands first, newest first.
pub const PROVIDER_BOARD_ORDER: &'static str = "CASE WHEN m.status = 'open' THEN 0 ELSE 1 END, m.created_at DESC";

/// `accept_proposal`'s decision: `Ok(true)` when the quote was already
/// accepted (the call only reopens the conversation), `Ok(false)` when a
/// pending quote on an open demand is to be accepted now.
pub fn acceptance_state(proposal_status: &str, demand_status: &str) -> (r: Result<bool, AppError>)
    ensures
        (proposal_status@ == "accepted"@ && demand_status@ == "following"@) ==> r == Ok::<
            bool,
            AppError,
        >(true),
        !(proposal_status@ == "accepted"@ && demand_status@ == "following"@) && (proposal_status@
            == "pending"@ && demand_status@ == "open"@) ==> r == Ok::<bool, AppError>(false),
        !(proposal_status@ == "accepted"@ && demand_status@ == "following"@) && !(proposal_status@
            == "pending"@ && demand_status@ == "open"@) ==> (r matches Err(e) && is_bad_request(
            e,
            "proposal is no longer available"@,
        )),
{
    let already = str_eq(proposal_status, "accepted") && str_eq(demand_status, "following");
    if !already && (!str_eq(proposal_status, "pending") || !str_eq(demand_status, "open")) {
        return Err(bad_request("proposal is no longer available"));
    }
    Ok(already)
}

/// Which quotes a user sees on a demand: the creator sees all, a provider
/// only their own.
pub fn proposal_filter(user_id: &str, creator_user_id: &str) -> (f: &'static str)
    ensures
        f@ == (if user_id@ == creator_user_id@ {
            "dp.match_request_id = ?"@
        } else {
            "dp.match_request_id = ? AND dp.provider_user_id = ?"@
        }),
{
    if str_eq(user_id, creator_user_id) {
        "dp.match_request_id = ?"
    } else {
        "dp.match_request_id = ? AND dp.provider_user_id = ?"
    }
}

} // verus!
