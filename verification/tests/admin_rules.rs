use xingtui::admin::{
    admin_cookie, admin_credentials_valid, admin_users_query, approved_profile, csv_document,
    csv_escape, csv_line, ensure_changed, export_file_name, match_status_change, notification_content, review_decision, validate_song, check_target_type_key,
    check_budget_option_id, target_key_pattern, refuse_if_referenced,
    review_note_or_default, review_notification, session_cookie, settlement_processing,
    validate_admin_user_update, validate_budget_option, validate_partner, validate_plan,
    validate_required, validate_review_status, validate_settlement_status,
    validate_target_type, verify_password, yes_no, UpdateAdminUser, ADMIN_USERS_SELECT,
};
use argon2::password_hash::SaltString;
use argon2::{Argon2, PasswordHasher};
use xingtui::admin::{export_layout, CellKind};
use xingtui::error::AppError;
use xingtui::models::{BudgetOptionInput, PartnerInput, PlanInput, TargetTypeInput};

fn refusal<T>(r: Result<T, AppError>) -> String {
    match r {
        Err(AppError::BadRequest(m)) => m,
        Err(AppError::NotFound(m)) => format!("not found: {m}"),
        Err(other) => panic!("unexpected error {other:?}"),
        Ok(_) => panic!("expected a refusal"),
    }
}

fn partner(partner_type: &str, name: &str, description: &str, score: i64) -> PartnerInput {
    PartnerInput {
        partner_type: partner_type.to_string(),
        avatar: "A".to_string(),
        avatar_class: "mint".to_string(),
        name: name.to_string(),
        identity: "推广机构".to_string(),
        description: description.to_string(),
        tags: vec!["抖音".to_string()],
        match_score: score,
        result_text: String::new(),
        active: true,
    }
}

fn plan(title: &str, description: &str, budget: i64, score: i64) -> PlanInput {
    PlanInput {
        icon_class: "ri".to_string(),
        color_class: "mint".to_string(),
        title: title.to_string(),
        plan_type: "短视频".to_string(),
        description: description.to_string(),
        tags: vec![],
        budget_amount: budget,
        score,
        active: true,
    }
}

#[test]
fn required_fields_are_checked_in_order() {
    assert!(validate_required("x", "name").is_ok());
    assert_eq!(refusal(validate_required(" \t\n", "name")), "name is required");
    let target = TargetTypeInput {
        key: "douyin".to_string(),
        icon_class: " ".to_string(),
        title: String::new(),
        description: "d".to_string(),
        sort_order: 1,
    };
    assert_eq!(refusal(validate_target_type(&target)), "icon_class is required");
    let ok = TargetTypeInput {
        key: "douyin".to_string(),
        icon_class: "ri-tiktok".to_string(),
        title: "抖音".to_string(),
        description: "短视频".to_string(),
        sort_order: 0,
    };
    assert!(validate_target_type(&ok).is_ok());
}

#[test]
fn budget_bounds_must_be_ordered() {
    let mut option = BudgetOptionInput {
        id: "b1".to_string(),
        label: "一千以内".to_string(),
        min_amount: Some(500),
        max_amount: Some(100),
        sort_order: 0,
    };
    assert_eq!(refusal(validate_budget_option(&option)), "min amount cannot exceed max amount");
    option.max_amount = Some(500);
    assert!(validate_budget_option(&option).is_ok());
    option.max_amount = None;
    assert!(validate_budget_option(&option).is_ok());
    option.label = "  ".to_string();
    assert_eq!(refusal(validate_budget_option(&option)), "label is required");
}

#[test]
fn partner_and_plan_edits_are_validated() {
    assert_eq!(refusal(validate_partner(&partner("agency", "n", "d", 50))), "invalid partner type");
    assert_eq!(refusal(validate_partner(&partner("provider", "", "d", 50))), "name is required");
    assert_eq!(
        refusal(validate_partner(&partner("client", "n", "d", 101))),
        "match score must be between 0 and 100"
    );
    assert!(validate_partner(&partner("client", "n", "d", 100)).is_ok());
    assert!(validate_partner(&partner("provider", "n", "d", 0)).is_ok());
    assert_eq!(refusal(validate_plan(&plan("t", "d", -1, 50))), "invalid budget or score");
    assert_eq!(refusal(validate_plan(&plan("t", "d", 0, -1))), "invalid budget or score");
    assert_eq!(refusal(validate_plan(&plan("t", " ", 0, 50))), "description is required");
    assert!(validate_plan(&plan("t", "d", 0, 100)).is_ok());
}

#[test]
fn missing_records_are_reported() {
    assert_eq!(refusal(ensure_changed(0, "partner")), "not found: partner not found");
    assert!(ensure_changed(3, "partner").is_ok());
}

#[test]
fn csv_cells_are_quoted_only_when_needed() {
    assert_eq!(csv_escape("plain"), "plain");
    assert_eq!(csv_escape("a,b"), "\"a,b\"");
    assert_eq!(csv_escape("say \"hi\""), "\"say \"\"hi\"\"\"");
    assert_eq!(csv_escape("two\nlines"), "\"two\nlines\"");
    assert_eq!(csv_escape("cr\r"), "\"cr\r\"");
    assert_eq!(csv_escape(""), "");
    assert_eq!(csv_line(&["id", "名称, 备注", "x\"y"]), "id,\"名称, 备注\",\"x\"\"y\"\n");
    assert_eq!(csv_line(&[]), "\n");
}

#[test]
fn csv_documents_hold_a_header_and_one_line_per_row() {
    let rows = vec![
        vec!["u1".to_string(), "星推, 北京".to_string()],
        vec!["u2".to_string(), "是".to_string()],
    ];
    assert_eq!(
        csv_document(&["id", "organization"], &rows),
        "id,organization\nu1,\"星推, 北京\"\nu2,是\n"
    );
    assert_eq!(csv_document(&["id"], &vec![]), "id\n");
    assert_eq!(yes_no(1), "是");
    assert_eq!(yes_no(0), "否");
}

#[test]
fn user_list_query_is_limited_on_the_overview() {
    assert_eq!(admin_users_query(false), ADMIN_USERS_SELECT);
    assert_eq!(admin_users_query(true), format!("{ADMIN_USERS_SELECT} LIMIT 6"));
}

#[test]
fn admin_session_cookie_is_found_among_cookies() {
    assert_eq!(admin_cookie(None), None);
    assert_eq!(admin_cookie(Some("theme=dark; admin_session=abc123")), Some("abc123".to_string()));
    assert_eq!(admin_cookie(Some("  admin_session=tok  ;x=1")), Some("tok".to_string()));
    assert_eq!(admin_cookie(Some("admin_session=first; admin_session=second")), Some("first".to_string()));
    assert_eq!(admin_cookie(Some("other=1; sessionadmin_session=x")), None);
    assert_eq!(admin_cookie(Some("")), None);
    assert_eq!(admin_cookie(Some("admin_session=")), Some(String::new()));
}

#[test]
fn passwords_are_compared_or_checked_by_argon2() {
    assert!(verify_password("secret", "secret"));
    assert!(!verify_password("secret", "Secret"));
    assert!(!verify_password("secret", "$argon2id$not-a-valid-hash"));
    assert!(admin_credentials_valid("admin", "pw", "admin", "pw"));
    assert!(!admin_credentials_valid("root", "pw", "admin", "pw"));
    assert!(!admin_credentials_valid("admin", "no", "admin", "pw"));
    assert_eq!(
        session_cookie("t0k"),
        "admin_session=t0k; Path=/; HttpOnly; SameSite=Strict; Max-Age=43200"
    );
}

#[test]
fn argon2_hashes_accept_their_password() {
    let salt = SaltString::encode_b64(b"somesaltsomesalt").unwrap();
    let hash = Argon2::default().hash_password(b"password", &salt).unwrap().to_string();
    assert!(hash.starts_with("$argon2"));
    assert!(verify_password("password", &hash));
    assert!(!verify_password("wrong", &hash));
    assert!(!verify_password(&hash, &hash));
    assert!(admin_credentials_valid("admin", "password", "admin", &hash));
}

#[test]
fn review_decisions() {
    assert!(validate_review_status("approved").is_ok());
    assert!(validate_review_status("rejected").is_ok());
    assert_eq!(refusal(validate_review_status("pending")), "invalid review status");
    assert_eq!(review_note_or_default("rejected", None), "资料未通过，请补充真实身份、作品或服务案例后重新提交。");
    assert_eq!(review_note_or_default("approved", None), "");
    assert_eq!(review_note_or_default("rejected", Some("缺少作品".to_string())), "缺少作品");
    let provider = approved_profile("provider", "星光传媒", "", "");
    assert_eq!(provider.avatar, "星");
    assert_eq!(provider.identity, "已审核推广服务方");
    assert_eq!(provider.result_text, "可承接推广合作");
    let funded = approved_profile("provider", "光年", "5000 元", "");
    assert_eq!(funded.avatar, "光");
    assert_eq!(funded.result_text, "合作预算 5000 元");
    let creator = approved_profile("client", "", "", "1 万粉丝");
    assert_eq!(creator.avatar, "星");
    assert_eq!(creator.identity, "已审核内容创作者");
    assert_eq!(creator.result_text, "受众规模 1 万粉丝");
    assert_eq!(approved_profile("client", "A", "", "").result_text, "寻找作品推广合作");
    assert_eq!(
        review_notification("approved", "ignored"),
        ("入驻审核通过".to_string(), "你的主页已公开，可以开始真实合作。".to_string())
    );
    assert_eq!(
        review_notification("rejected", "请补充作品"),
        ("入驻资料需补充".to_string(), "请补充作品".to_string())
    );
}

#[test]
fn admin_user_edits_need_contact_details() {
    let mut input = UpdateAdminUser {
        organization: "星推".to_string(),
        contact_name: "张三".to_string(),
        contact_method: "13800000000".to_string(),
        application_description: String::new(),
        tags: vec![],
        work_title: String::new(),
        audience_size: String::new(),
        cooperation_budget: String::new(),
    };
    input.organization = " 星推 ".to_string();
    input.tags = vec![" a ".to_string(), " ".to_string(), "b".to_string()];
    input.work_title = " 夏夜 ".to_string();
    let edit = validate_admin_user_update(&input).unwrap();
    assert_eq!(edit.organization, "星推");
    assert_eq!(edit.tags, vec!["a".to_string(), "b".to_string()]);
    assert_eq!(edit.work_title, "夏夜");
    assert_eq!(edit.contact_method, "13800000000");
    input.contact_method = "   ".to_string();
    assert_eq!(refusal(validate_admin_user_update(&input)), "user required fields are missing");
}

#[test]
fn match_and_settlement_statuses() {
    let following = match_status_change("following").unwrap();
    assert_eq!(following.title, "推广需求进入跟进");
    assert_eq!(following.description, "运营团队已开始跟进你的推广需求。");
    assert!(!following.reject_pending);
    assert_eq!(match_status_change("completed").unwrap().title, "推广需求已完成");
    assert_eq!(match_status_change("open").unwrap().title, "推广需求已重新开放");
    let closed = match_status_change("closed").unwrap();
    assert_eq!(closed.description, "该推广需求已由运营团队关闭。");
    assert!(closed.reject_pending);
    assert_eq!(refusal(match_status_change("archived")), "invalid match status");
    assert!(validate_settlement_status("completed").is_ok());
    assert_eq!(
        refusal(validate_settlement_status("pending")),
        "status must be completed or rejected"
    );
    assert_eq!(refusal(settlement_processing("completed", -100, "rejected")), "settlement is already processed");
    assert_eq!(
        refusal(settlement_processing("pending", 100, "completed")),
        "only withdrawal settlements can be processed"
    );
    assert_eq!(settlement_processing("pending", -100, "rejected").unwrap(), true);
    assert_eq!(settlement_processing("pending", -100, "completed").unwrap(), false);
}

#[test]
fn export_names() {
    assert_eq!(export_file_name("users").unwrap(), "users.csv");
    assert_eq!(export_file_name("demands").unwrap(), "demands.csv");
    assert_eq!(export_file_name("settlements").unwrap(), "settlements.csv");
    assert_eq!(refusal(export_file_name("secrets")), "unknown export type");
}

#[test]
fn reviews_publish_or_withdraw_the_profile() {
    let approved = review_decision("approved", None, "client", "夏夜乐队", "", "2 万粉丝");
    assert!(approved.approved);
    assert!(approved.publish_song);
    assert_eq!(approved.review_note, "");
    let profile = approved.profile.unwrap();
    assert_eq!(profile.avatar, "夏");
    assert_eq!(profile.identity, "已审核内容创作者");
    assert_eq!(profile.result_text, "受众规模 2 万粉丝");
    assert_eq!(approved.notice_title, "入驻审核通过");
    assert_eq!(approved.notice_body, "你的主页已公开，可以开始真实合作。");
    let provider = review_decision("approved", Some("欢迎".to_string()), "provider", "推广社", "3000 元", "");
    assert!(!provider.publish_song);
    assert_eq!(provider.review_note, "欢迎");
    assert_eq!(provider.profile.unwrap().result_text, "合作预算 3000 元");
    let rejected = review_decision("rejected", None, "client", "夏夜乐队", "", "");
    assert!(!rejected.approved);
    assert!(rejected.profile.is_none());
    assert!(!rejected.publish_song);
    assert_eq!(rejected.notice_title, "入驻资料需补充");
    assert_eq!(rejected.notice_body, "资料未通过，请补充真实身份、作品或服务案例后重新提交。");
}

#[test]
fn catalogue_edits_keep_their_keys_and_references() {
    assert_eq!(
        notification_content(" 提醒 ", " 请补充资料 ").unwrap(),
        ("提醒".to_string(), "请补充资料".to_string())
    );
    assert_eq!(refusal(notification_content("提醒", "  ")), "notification content is required");
    let song = xingtui::models::SongInput {
        name: "夏夜".to_string(),
        artist: " ".to_string(),
        cover_class: "violet".to_string(),
        active: true,
    };
    assert_eq!(refusal(validate_song(&song)), "artist is required");
    let target = TargetTypeInput {
        key: "douyin".to_string(),
        icon_class: "i".to_string(),
        title: "t".to_string(),
        description: "d".to_string(),
        sort_order: 0,
    };
    assert!(check_target_type_key("douyin", &target).is_ok());
    assert_eq!(refusal(check_target_type_key("bili", &target)), "target type key cannot be changed");
    let option = BudgetOptionInput {
        id: "b1".to_string(),
        label: "l".to_string(),
        min_amount: None,
        max_amount: None,
        sort_order: 0,
    };
    assert!(check_budget_option_id("b1", &option).is_ok());
    assert_eq!(refusal(check_budget_option_id("b2", &option)), "budget option id cannot be changed");
    assert_eq!(target_key_pattern("douyin"), "%\"douyin\"%");
    assert!(refuse_if_referenced(false, "target type").is_ok());
    assert_eq!(
        refusal(refuse_if_referenced(true, "budget option")),
        "budget option is referenced by match requests"
    );
}

#[test]
fn export_layouts_name_their_columns() {
    let users = export_layout("users").unwrap();
    assert_eq!(users.file_name, "users.csv");
    let names: Vec<&str> = users.columns.iter().map(|(name, _)| *name).collect();
    assert_eq!(names, vec!["id", "display_name", "organization", "role", "verified", "onboarding_status", "created_at"]);
    assert!(matches!(users.columns[4].1, CellKind::Flag));
    assert!(users.query.contains("FROM users"));
    let demands = export_layout("demands").unwrap();
    assert_eq!(demands.columns.len(), 10);
    assert!(matches!(demands.columns[8], ("proposal_count", CellKind::Number)));
    let settlements = export_layout("settlements").unwrap();
    assert!(matches!(settlements.columns[3], ("amount", CellKind::Number)));
    assert!(matches!(export_layout("secrets"), Err(AppError::BadRequest(m)) if m == "unknown export type"));
}
