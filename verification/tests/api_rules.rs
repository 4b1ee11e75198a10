use xingtui::api::{
    ai_plan_order, bearer_token, describe_contact_method, filter, format_money, header_subtitle,
    home_metrics, message_content, normalize_tags, notification_icon_class,
    onboarding_status_text, opposite_role, profile_stats, profile_update, relative_label,
    relative_time, require_approved, require_creator, role_change, role_label, session_role,
    target_labels, validate_match, validate_onboarding, validate_session_role,
    verification_items, withdrawal_balance, RoleChange,
};
use xingtui::api::{can_connect, check_withdrawal_amount, contact_action_title, plaza_order, PARTNER_WELCOME};
use xingtui::error::AppError;
use xingtui::models::{CreateMatch, SubmitOnboarding, UserRow};
use xingtui::api::{check_match_references, match_summary};
use xingtui::api::{check_plan_saver, plans_insight, profile_display_name, profile_tags};
use xingtui::api::{contact_preview, with_partner_tags, with_plan_tags};
use xingtui::models::{Partner, Plan};

fn refusal<T>(r: Result<T, AppError>) -> String {
    match r {
        Err(AppError::BadRequest(m)) => m,
        Err(other) => panic!("unexpected error {other:?}"),
        Ok(_) => panic!("expected a refusal"),
    }
}

fn user(role: &str, status: &str, note: &str) -> UserRow {
    UserRow {
        id: "u1".to_string(),
        display_name: "小星".to_string(),
        organization: "星推".to_string(),
        role: role.to_string(),
        avatar: "星".to_string(),
        description: String::new(),
        verified: status == "approved",
        onboarding_status: status.to_string(),
        review_note: note.to_string(),
    }
}

fn strings(v: &[&str]) -> Vec<String> {
    v.iter().map(|s| s.to_string()).collect()
}

fn application(tags: &[&str], work: Option<&str>) -> SubmitOnboarding {
    SubmitOnboarding {
        entity_name: "  星光工作室 ".to_string(),
        contact_name: "李四".to_string(),
        contact_method: "wx_123".to_string(),
        description: " 独立音乐人 ".to_string(),
        tags: strings(tags),
        work_title: work.map(|w| w.to_string()),
        work_url: work.map(|_| " https://music.example/1 ".to_string()),
        audience_size: None,
        cooperation_budget: Some("  ".to_string()),
    }
}

#[test]
fn roles_and_approval_gate_actions() {
    assert!(require_approved(&user("client", "approved", "")).is_ok());
    assert_eq!(refusal(require_approved(&user("client", "pending", ""))), "onboarding approval required");
    assert!(require_creator(&user("client", "approved", "")).is_ok());
    assert_eq!(refusal(require_creator(&user("provider", "approved", ""))), "creator role required");
    assert_eq!(opposite_role("provider"), "client");
    assert_eq!(opposite_role("client"), "provider");
    assert!(validate_session_role("client").is_ok());
    assert_eq!(refusal(validate_session_role("admin")), "role must be provider or client");
    assert_eq!(session_role(None), "provider");
    assert_eq!(session_role(Some("client")), "client");
}

#[test]
fn role_changes_are_limited_to_drafts() {
    assert!(matches!(role_change("client", &user("client", "pending", "")), Ok(RoleChange::Unchanged)));
    assert!(matches!(role_change("provider", &user("client", "draft", "")), Ok(RoleChange::Reset)));
    assert_eq!(
        refusal(role_change("provider", &user("client", "approved", ""))),
        "submitted role cannot be changed"
    );
    assert_eq!(refusal(role_change("guest", &user("client", "draft", ""))), "role must be provider or client");
}

#[test]
fn tags_are_trimmed_deduplicated_of_blanks_and_capped() {
    assert_eq!(normalize_tags(&strings(&[" 抖音 ", "", "  ", "B站"])), strings(&["抖音", "B站"]));
    let many = strings(&["1", "2", "3", "4", "5", "6", "7", "8", "9", "10"]);
    assert_eq!(normalize_tags(&many), strings(&["1", "2", "3", "4", "5", "6", "7", "8"]));
    assert!(normalize_tags(&vec![]).is_empty());
}

#[test]
fn onboarding_applications_are_checked_and_trimmed() {
    let form = validate_onboarding(&application(&[" 说唱 "], Some(" 夏夜 ")), "client").unwrap();
    assert_eq!(form.entity_name, "星光工作室");
    assert_eq!(form.description, "独立音乐人");
    assert_eq!(form.tags, strings(&["说唱"]));
    assert_eq!(form.work_title, "夏夜");
    assert_eq!(form.work_url, "https://music.example/1");
    assert_eq!(form.audience_size, "");
    assert_eq!(form.cooperation_budget, "");
    assert_eq!(
        refusal(validate_onboarding(&application(&["说唱"], None), "client")),
        "creator work information is required"
    );
    assert!(validate_onboarding(&application(&["投放"], None), "provider").is_ok());
    assert_eq!(
        refusal(validate_onboarding(&application(&[" "], None), "provider")),
        "at least one specialty is required"
    );
    let mut blank = application(&["投放"], None);
    blank.contact_name = " ".to_string();
    assert_eq!(refusal(validate_onboarding(&blank, "provider")), "onboarding required fields are missing");
}

#[test]
fn demands_need_targets_a_goal_and_a_known_cycle() {
    let mut input = CreateMatch {
        song_id: "s1".to_string(),
        target_keys: strings(&["douyin"]),
        budget_id: "b1".to_string(),
        goal: "  提升新歌播放量与口碑  ".to_string(),
        cycle: "14 天".to_string(),
    };
    assert_eq!(validate_match(&input).unwrap(), "提升新歌播放量与口碑");
    input.cycle = "10 天".to_string();
    assert_eq!(refusal(validate_match(&input)), "invalid campaign cycle");
    input.cycle = "7 天".to_string();
    input.goal = "  太短了  ".to_string();
    assert_eq!(refusal(validate_match(&input)), "goal must contain between 8 and 300 characters");
    input.goal = "一二三四五六七八".to_string();
    assert!(validate_match(&input).is_ok());
    input.goal = "字".repeat(301);
    assert_eq!(refusal(validate_match(&input)), "goal must contain between 8 and 300 characters");
    input.target_keys.clear();
    assert_eq!(refusal(validate_match(&input)), "at least one target must be selected");
}

#[test]
fn withdrawals_never_overdraw() {
    assert_eq!(withdrawal_balance(300, 1000).unwrap(), 700);
    assert_eq!(withdrawal_balance(1000, 1000).unwrap(), 0);
    assert_eq!(refusal(withdrawal_balance(1001, 1000)), "insufficient wallet balance");
    assert_eq!(refusal(withdrawal_balance(0, 1000)), "amount must be positive");
    assert_eq!(refusal(withdrawal_balance(-5, 1000)), "amount must be positive");
    let left = withdrawal_balance(250, 900).unwrap();
    assert_eq!(left - (-250), 900);
}

#[test]
fn contact_methods_are_described_without_revealing_them() {
    assert_eq!(describe_contact_method("me@example.com"), "邮箱联系方式已提交平台审核");
    assert_eq!(describe_contact_method("wx: abc8"), "手机号或微信联系方式已提交平台审核");
    assert_eq!(describe_contact_method("微信同名"), "联系方式已提交平台审核");
}

#[test]
fn money_is_shown_in_whole_yuan() {
    assert_eq!(format_money(0), "¥0");
    assert_eq!(format_money(12345), "¥123");
    assert_eq!(format_money(150), "¥2");
    assert_eq!(format_money(250), "¥2");
    assert_eq!(format_money(251), "¥3");
    assert_eq!(format_money(-50), "¥-0");
    assert_eq!(format_money(-150), "¥-2");
    assert_eq!(format_money(987_654_321), "¥9876543");
}

#[test]
fn ages_are_labelled() {
    assert_eq!(relative_label(-3), "刚刚");
    assert_eq!(relative_label(59), "刚刚");
    assert_eq!(relative_label(60), "1分钟前");
    assert_eq!(relative_label(3599), "59分钟前");
    assert_eq!(relative_label(3600), "1小时前");
    assert_eq!(relative_label(86_399), "23小时前");
    assert_eq!(relative_label(86_400), "昨天");
    assert_eq!(relative_label(172_799), "昨天");
    assert_eq!(relative_label(172_800), "2天前");
    assert_eq!(relative_time("not a time"), "not a time");
    assert_eq!(relative_time("2000-01-01 00:00:00").chars().last(), Some('前'));
    assert_eq!(relative_time("2999-01-01 00:00:00"), "刚刚");
}

#[test]
fn bearer_tokens_are_read_from_the_header() {
    assert_eq!(bearer_token(None), None);
    assert_eq!(bearer_token(Some("Bearer abc.def")), Some("abc.def".to_string()));
    assert_eq!(bearer_token(Some("Bearer ")), Some(String::new()));
    assert_eq!(bearer_token(Some("bearer abc")), None);
    assert_eq!(bearer_token(Some("Basic abc")), None);
}

#[test]
fn home_and_profile_pages() {
    let provider = home_metrics("provider", 4, 2, 9, 123456);
    let shown: Vec<(&str, &str)> = provider.iter().map(|m| (m.value.as_str(), m.label.as_str())).collect();
    assert_eq!(shown, vec![("4", "合作会话"), ("2", "待处理消息"), ("¥1235", "累计收益")]);
    let creator = home_metrics("client", 4, 2, 9, 0);
    let shown: Vec<(&str, &str)> = creator.iter().map(|m| (m.value.as_str(), m.label.as_str())).collect();
    assert_eq!(shown, vec![("9", "推广任务"), ("4", "合作伙伴"), ("2", "待处理消息")]);
    let stats = profile_stats("provider", false, 3, 1, 7);
    let shown: Vec<(&str, &str)> = stats.iter().map(|m| (m.value.as_str(), m.label.as_str())).collect();
    assert_eq!(shown, vec![("3", "创作者会话"), ("1", "完成合作"), ("审核中", "入驻状态")]);
    let stats = profile_stats("client", true, 3, 1, 7);
    let shown: Vec<(&str, &str)> = stats.iter().map(|m| (m.value.as_str(), m.label.as_str())).collect();
    assert_eq!(shown, vec![("7", "推广需求"), ("3", "推广伙伴"), ("已通过", "创作者认证")]);
    assert_eq!(role_label("provider"), "推广服务方");
    assert_eq!(role_label("client"), "音乐创作者");
    assert_eq!(header_subtitle("client"), "音乐创作者工作台");
    assert_eq!(header_subtitle("provider"), "推广服务方工作台");
}

#[test]
fn onboarding_states_are_explained() {
    let (title, body) = onboarding_status_text(&user("provider", "approved", ""));
    assert_eq!(title, "入驻已通过");
    assert_eq!(body, "现在可以发现创作者项目并发起真实合作。");
    assert_eq!(onboarding_status_text(&user("client", "pending", "")).0, "入驻资料审核中");
    assert_eq!(onboarding_status_text(&user("client", "rejected", "缺作品")).1, "缺作品");
    assert_eq!(onboarding_status_text(&user("client", "rejected", "")).1, "请修改资料后重新提交审核。");
    assert_eq!(onboarding_status_text(&user("client", "draft", "")).0, "完成入驻后再开始合作");
}

#[test]
fn profile_edits_and_messages_are_trimmed() {
    assert_eq!(
        profile_update(Some("  新机构 "), "旧机构", None, " 旧简介 ").unwrap(),
        ("新机构".to_string(), "旧简介".to_string())
    );
    assert_eq!(refusal(profile_update(Some("   "), "旧机构", None, "")), "organization is required");
    assert_eq!(
        profile_update(None, "旧机构", Some(""), "旧简介").unwrap(),
        ("旧机构".to_string(), String::new())
    );
    assert_eq!(message_content("  你好 ").unwrap(), "你好");
    assert_eq!(refusal(message_content(" \n ")), "message content is required");
}

#[test]
fn page_details() {
    let f = filter("all", "全部");
    assert_eq!((f.key.as_str(), f.label.as_str()), ("all", "全部"));
    assert_eq!(verification_items("provider", true), strings(&["平台入驻已审核", "服务资料可追溯", "联系方式已留存"]));
    assert_eq!(verification_items("client", true), strings(&["创作者入驻已审核", "代表作品已提交", "联系方式已留存"]));
    assert_eq!(verification_items("provider", false), strings(&["平台公开资料已审核", "主页当前处于可展示状态"]));
    assert_eq!(notification_icon_class("wallet"), "gold");
    assert_eq!(notification_icon_class("system"), "mint");
    assert_eq!(ai_plan_order(Some(true)), "RANDOM()");
    assert_eq!(ai_plan_order(Some(false)), "score DESC");
    assert_eq!(ai_plan_order(None), "score DESC");
    let table = vec![
        ("douyin".to_string(), "抖音".to_string()),
        ("bili".to_string(), "B站".to_string()),
        ("douyin".to_string(), "抖音短视频".to_string()),
    ];
    assert_eq!(
        target_labels(&strings(&["bili", "douyin", "weibo"]), &table),
        strings(&["B站", "抖音短视频", "weibo"])
    );
}

#[test]
fn demand_references_and_results() {
    assert!(check_match_references(true, true).is_ok());
    assert_eq!(refusal(check_match_references(false, true)), "invalid song or budget");
    assert_eq!(refusal(check_match_references(true, false)), "invalid song or budget");
    assert_eq!(match_summary(3).unwrap(), "匹配已完成，找到 3 位已审核推广方");
    assert_eq!(refusal(match_summary(0)), "no approved providers available");
}

#[test]
fn plans_and_profiles() {
    assert!(check_plan_saver(&user("provider", "approved", "")).is_ok());
    assert_eq!(refusal(check_plan_saver(&user("client", "approved", ""))), "creator wallet is not available");
    assert_eq!(plans_insight(6), "当前共有 6 个可用推广方案");
    assert_eq!(plans_insight(0), "当前共有 0 个可用推广方案");
    let many = strings(&[" 1 ", "2", "", "3", "4", "5", "6", "7", "8", "9"]);
    assert_eq!(profile_tags(&many), strings(&["1", "2", "3", "4", "5", "6", "7", "8", "9"]));
    assert_eq!(profile_display_name(Some("  小星 ")), Some("小星".to_string()));
    assert_eq!(profile_display_name(Some("  ")), None);
    assert_eq!(profile_display_name(None), None);
}

#[test]
fn partner_pages_show_contact_state_and_tags() {
    assert_eq!(contact_preview(Some("a@b.c")), ("邮箱联系方式已提交平台审核".to_string(), true));
    assert_eq!(contact_preview(Some("138")), ("手机号或微信联系方式已提交平台审核".to_string(), true));
    assert_eq!(contact_preview(None), ("该主页暂未配置可解锁联系方式".to_string(), false));
    let partner = Partner {
        id: "p1".to_string(),
        partner_type: "provider".to_string(),
        avatar: "A".to_string(),
        avatar_class: "mint".to_string(),
        name: "推广社".to_string(),
        identity: "机构".to_string(),
        description: "d".to_string(),
        tags: vec![],
        tags_json: "[\"抖音\",\"B站\"]".to_string(),
        match_score: 90,
        result_text: String::new(),
        active: true,
    };
    let tagged = with_partner_tags(partner);
    assert_eq!(tagged.tags, strings(&["抖音", "B站"]));
    assert_eq!(tagged.name, "推广社");
    let plan = Plan {
        id: "pl".to_string(),
        icon_class: String::new(),
        color_class: String::new(),
        title: "t".to_string(),
        plan_type: String::new(),
        description: String::new(),
        tags: strings(&["stale"]),
        tags_json: "not json".to_string(),
        budget_amount: 1,
        score: 2,
        active: false,
    };
    let tagged = with_plan_tags(plan);
    assert!(tagged.tags.is_empty());
    assert_eq!(tagged.score, 2);
}

#[test]
fn plaza_and_wallet_rules() {
    assert_eq!(plaza_order(Some("latest")), "created_at DESC");
    assert_eq!(plaza_order(Some("all")), "match_score DESC");
    assert_eq!(plaza_order(None), "match_score DESC");
    assert!(can_connect(&user("client", "approved", "")));
    assert!(!can_connect(&user("client", "pending", "")));
    assert_eq!(contact_action_title("推广社"), "联系推广社");
    assert_eq!(PARTNER_WELCOME, "你好，欢迎联系我！我们可以先聊聊合作需求。");
    assert!(check_withdrawal_amount(1).is_ok());
    assert_eq!(refusal(check_withdrawal_amount(0)), "amount must be positive");
}
