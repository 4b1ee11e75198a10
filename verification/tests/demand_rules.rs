use xingtui::demands::{
    acceptance_state, check_quote_allowed, demand_board_query, demand_query, proposal_filter,
    quote_notice, quote_texts, require_provider, validate_proposal, ProposalInput, DEMAND_SELECT,
    PROVIDER_BOARD_FILTER, PROVIDER_BOARD_ORDER,
};
use xingtui::error::AppError;
use xingtui::models::UserRow;

fn refusal<T>(r: Result<T, AppError>) -> String {
    match r {
        Err(AppError::BadRequest(m)) => m,
        Err(other) => panic!("unexpected error {other:?}"),
        Ok(_) => panic!("expected a refusal"),
    }
}

fn quote(amount: i64, cycle: &str, deliverables: &str, message: Option<&str>) -> ProposalInput {
    ProposalInput {
        amount,
        cycle: cycle.to_string(),
        deliverables: deliverables.to_string(),
        message: message.map(|m| m.to_string()),
    }
}

#[test]
fn quotes_are_validated() {
    assert!(validate_proposal(&quote(100, "7天", "三条短视频", None)).is_ok());
    assert!(validate_proposal(&quote(100_000_000, " 两周 ", "四条视频", Some("期待合作"))).is_ok());
    assert_eq!(refusal(validate_proposal(&quote(99, "7天", "三条短视频", None))), "proposal amount is invalid");
    assert_eq!(refusal(validate_proposal(&quote(100_000_001, "7天", "三条短视频", None))), "proposal amount is invalid");
    assert_eq!(refusal(validate_proposal(&quote(500, " 7 ", "三条短视频", None))), "proposal cycle is invalid");
    assert_eq!(refusal(validate_proposal(&quote(500, "7天", " 三条 ", None))), "proposal deliverables are invalid");
    let long = "话".repeat(501);
    assert_eq!(refusal(validate_proposal(&quote(500, "7天", "三条短视频", Some(&long)))), "proposal message is too long");
    let limit = "话".repeat(500);
    assert!(validate_proposal(&quote(500, "7天", "三条短视频", Some(&limit))).is_ok());
}

#[test]
fn only_providers_quote_and_never_on_their_own_demand() {
    let provider = UserRow {
        id: "p1".to_string(),
        display_name: String::new(),
        organization: "推广社".to_string(),
        role: "provider".to_string(),
        avatar: String::new(),
        description: String::new(),
        verified: true,
        onboarding_status: "approved".to_string(),
        review_note: String::new(),
    };
    assert!(require_provider(&provider).is_ok());
    let creator = UserRow { role: "client".to_string(), ..provider };
    assert_eq!(refusal(require_provider(&creator)), "provider role required");
    assert_eq!(refusal(check_quote_allowed("p1", "p1", true, None)), "providers cannot quote their own demand");
    assert_eq!(refusal(check_quote_allowed("c1", "p1", false, None)), "approved provider profile required");
    assert_eq!(refusal(check_quote_allowed("c1", "p1", true, Some("accepted"))), "accepted proposal cannot be changed");
    assert!(check_quote_allowed("c1", "p1", true, Some("pending")).is_ok());
    assert!(check_quote_allowed("c1", "p1", true, None).is_ok());

}

#[test]
fn accepting_a_quote() {
    assert_eq!(acceptance_state("pending", "open").unwrap(), false);
    assert_eq!(acceptance_state("accepted", "following").unwrap(), true);
    assert_eq!(refusal(acceptance_state("pending", "following")), "proposal is no longer available");
    assert_eq!(refusal(acceptance_state("withdrawn", "open")), "proposal is no longer available");
    assert_eq!(proposal_filter("c1", "c1"), "dp.match_request_id = ?");
    assert_eq!(proposal_filter("p1", "c1"), "dp.match_request_id = ? AND dp.provider_user_id = ?");
}

#[test]
fn demand_board_query_text() {
    let q = demand_query("WHERE m.status = 'open'", "m.created_at DESC");
    assert_eq!(q, format!("{DEMAND_SELECT}WHERE m.status = 'open'\n         ORDER BY m.created_at DESC"));
}

fn member(role: &str) -> UserRow {
    UserRow {
        id: "u1".to_string(),
        display_name: String::new(),
        organization: "星推".to_string(),
        role: role.to_string(),
        avatar: String::new(),
        description: String::new(),
        verified: true,
        onboarding_status: "approved".to_string(),
        review_note: String::new(),
    }
}

#[test]
fn each_role_sees_its_own_board() {
    assert_eq!(
        demand_board_query(&member("client")).unwrap(),
        format!("{DEMAND_SELECT}WHERE m.user_id = ?\n         ORDER BY m.created_at DESC")
    );
    assert_eq!(
        demand_board_query(&member("provider")).unwrap(),
        format!("{DEMAND_SELECT}{PROVIDER_BOARD_FILTER}\n         ORDER BY {PROVIDER_BOARD_ORDER}")
    );
    assert_eq!(refusal(demand_board_query(&member("admin"))), "provider role required");
}

#[test]
fn quotes_are_stored_trimmed() {
    let (cycle, deliverables, message) = quote_texts(&quote(500, " 两周 ", " 四条视频 ", Some("  期待 ")));
    assert_eq!((cycle.as_str(), deliverables.as_str(), message.as_str()), ("两周", "四条视频", "期待"));
    assert_eq!(quote_texts(&quote(500, "7天", "视频四条", None)).2, "");
    assert_eq!(quote_notice("推广社"), "推广社已提交推广报价，可前往需求中心查看。");
}
