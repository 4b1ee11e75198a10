use xingtui::agent::{fall_back_to_local, request_step, RequestStep};
use xingtui::agent::{
    action_is_blocked, budget_ceiling, compose_reply, contains_any, final_reply, find_tool,
    follow_up_dedupe_key, follow_up_title, into_runtime_tool, max_tool_calls,
    model_system_prompt, model_turns_exhausted, partner_limit, pipeline_summary,
    plan_local_tools, plan_limit, push_tool_string, run_required_first, safe_tool_error,
    search_keyword, select_tools, short_title, suggestions_for_user, tool_definitions,
    tool_label, tool_matches, validate_agent_prompt, welcome_message, write_refused,
    RuntimeTool, ToolCallOutcome,
};
use xingtui::agent::tool_parameters;
use xingtui::error::AppError;
use xingtui::json::{parse_string_groups, parse_string_list, strings_to_json};
use xingtui::models::AgentTool;
use xingtui::agent::{tool_kind, AgentToolKind};
use xingtui::agent::{ connection_title, failed_tool_title, follow_up_texts, metrics_summary, model_tool_description, partners_summary, plans_summary, saved_plan_texts, tool_prompt, };
use xingtui::admin_agent::{check_tool_name, session_page, tool_columns};
use xingtui::models::{AgentToolInput, SessionListParams};

fn strings(v: &[&str]) -> Vec<String> {
    v.iter().map(|s| s.to_string()).collect()
}

fn tool(name: &str, mode: &str, keywords: &[&str], blocked: &[&str], groups: &[&[&str]], required: &[&str]) -> RuntimeTool {
    RuntimeTool {
        name: name.into(),
        label: format!("{name}-label"),
        description: format!("{name}-description"),
        mode: mode.into(),
        keywords: strings(keywords),
        blocked_keywords: strings(blocked),
        keyword_groups: groups.iter().map(|g| strings(g)).collect(),
        required_tools: strings(required),
    }
}

fn outcome(label: &str, status: &str) -> ToolCallOutcome {
    ToolCallOutcome { name: label.into(), label: label.into(), status: status.into() }
}

#[test]
fn contains_any_finds_keywords() {
    assert!(contains_any("帮我找伙伴", &strings(&["伙伴", "方案"])));
    assert!(!contains_any("帮我找伙伴", &strings(&["方案"])));
    assert!(!contains_any("anything", &[]));
    assert!(contains_any("anything", &strings(&[""])));
}

#[test]
fn negation_shortly_before_a_verb_blocks_the_action() {
    let verbs = strings(&["联系"]);
    assert!(action_is_blocked("请不要联系他", &verbs, &[]));
    assert!(action_is_blocked("如何联系", &verbs, &[]));
    assert!(action_is_blocked("不联系", &verbs, &[]));
    assert!(!action_is_blocked("请联系他", &verbs, &[]));
    // a negation more than ten characters before the verb does not count
    assert!(!action_is_blocked("不要一二三四五六七八九十联系", &verbs, &[]));
    assert!(action_is_blocked("不要一二三四五六七八联系", &verbs, &[]));
    assert!(!action_is_blocked("不要一二三四五六七八九联系", &verbs, &[]));
    // informational phrasing blocks too
    assert!(action_is_blocked("查看联系记录", &verbs, &strings(&["联系记录"])));
    // a later occurrence may be negated
    assert!(action_is_blocked("联系他，但别联系她", &verbs, &[]));
}

#[test]
fn non_overlapping_occurrences_are_the_ones_checked() {
    // "aa" occurs at 0 and 2 in "aaaa" when matched without overlap; the
    // occurrence at 1 is skipped, so the negation "不" before position 1 is not
    // seen through it.
    let verbs = strings(&["aa"]);
    assert!(!action_is_blocked("aaaa", &verbs, &[]));
    assert!(action_is_blocked("不aa", &verbs, &[]));
}

#[test]
fn read_and_write_tools_match_differently() {
    let read = tool("r", "read", &["数据"], &["忽略"], &[&["分析", "渠道"]], &[]);
    assert!(tool_matches(&read, "看看数据"));
    assert!(tool_matches(&read, "分析一下渠道"));
    assert!(!tool_matches(&read, "分析一下"));
    assert!(!tool_matches(&read, "忽略数据"));
    let write = tool("w", "write", &["收藏"], &["已收藏"], &[&["帮我收藏"]], &[]);
    assert!(tool_matches(&write, "帮我收藏这个"));
    assert!(!tool_matches(&write, "收藏"));
    assert!(!tool_matches(&write, "先别帮我收藏"));
    assert!(!tool_matches(&write, "帮我收藏，已收藏的除外"));
}

#[test]
fn selection_is_free_of_duplicates_and_falls_back_to_read_tools() {
    let tools = vec![
        tool("a", "read", &["x"], &[], &[], &[]),
        tool("b", "write", &[], &[], &[&["y"]], &["a", "missing"]),
        tool("c", "write", &[], &[], &[&["y"]], &["a"]),
        tool("d", "read", &["z"], &[], &[], &[]),
    ];
    assert_eq!(select_tools(&tools, "x y"), vec!["a", "b", "c"]);
    assert_eq!(select_tools(&tools, "y"), vec!["a", "b", "c"]);
    assert_eq!(select_tools(&tools, "nothing"), vec!["a", "d"]);
    assert_eq!(select_tools(&[], "x"), Vec::<String>::new());
    assert_eq!(plan_local_tools(&tools, "x y", 2), vec!["a", "b"]);
    assert_eq!(plan_local_tools(&tools, "x y", 0), Vec::<String>::new());
}

#[test]
fn push_tool_string_keeps_names_unique() {
    let mut v = strings(&["a"]);
    push_tool_string(&mut v, "a");
    push_tool_string(&mut v, "b");
    assert_eq!(v, vec!["a", "b"]);
}

#[test]
fn replies_summarise_the_tool_runs() {
    assert_eq!(compose_reply("问题", &[], "暂无结果"), "暂无结果");
    assert_eq!(
        compose_reply("问题", &[outcome("甲", "completed"), outcome("乙", "completed")], "x"),
        "已围绕“问题”完成 甲、乙。结果来自当前业务数据库，你可以继续追问细分渠道、预算或让我直接创建跟进任务。"
    );
    assert_eq!(
        compose_reply("问题", &[outcome("甲", "failed"), outcome("乙", "completed")], "x"),
        "已围绕“问题”执行 甲、乙，其中 1 个工具未完成。已保留成功结果和失败轨迹，你可以调整条件后继续。"
    );
}

#[test]
fn titles_are_the_first_24_characters() {
    assert_eq!(short_title("短标题"), "短标题");
    let long = "一二三四五六七八九十一二三四五六七八九十一二三四五六七";
    assert_eq!(short_title(long).chars().count(), 24);
    assert!(long.starts_with(&short_title(long)));
}

#[test]
fn labels_and_definitions_come_from_the_registry() {
    let tools = vec![tool("a", "read", &[], &[], &[], &[]), tool("a", "write", &[], &[], &[], &[])];
    assert_eq!(tool_label(&tools, "a"), "a-label");
    assert_eq!(tool_label(&tools, "zzz"), "zzz");
    let defs = tool_definitions(&tools);
    assert_eq!(defs.len(), 2);
    assert_eq!(defs[1].mode, "write");
    assert_eq!(defs[0].description, "a-description");
    assert_eq!(find_tool(&tools, "a").map(|t| t.mode.as_str()), Some("read"));
    assert!(find_tool(&tools, "b").is_none());
}

#[test]
fn tool_errors_are_reported_safely() {
    assert_eq!(safe_tool_error(&AppError::NotFound("没有".into())), "没有");
    assert_eq!(safe_tool_error(&AppError::BadRequest("错误".into())), "错误");
    assert_eq!(safe_tool_error(&AppError::Unauthorized), "登录状态已失效");
    assert_eq!(safe_tool_error(&AppError::Database("db".into())), "工具暂时不可用，请稍后重试");
    assert_eq!(safe_tool_error(&AppError::Internal("x".into())), "工具暂时不可用，请稍后重试");
}

#[test]
fn tool_rows_read_their_json_lists() {
    let row = AgentTool {
        name: "t".into(),
        enabled: true,
        label: "T".into(),
        description: "d".into(),
        mode: "read".into(),
        keywords: "[\"甲\",\"乙\"]".into(),
        blocked_keywords: "not json".into(),
        keyword_groups: "[[\"a\",\"b\"],[]]".into(),
        required_tools: "[]".into(),
        sort_order: 1,
    };
    let t = into_runtime_tool(row);
    assert_eq!(t.keywords, vec!["甲", "乙"]);
    assert!(t.blocked_keywords.is_empty());
    assert_eq!(t.keyword_groups, vec![vec!["a".to_string(), "b".to_string()], vec![]]);
    assert!(t.required_tools.is_empty());
    assert_eq!(parse_string_list("[\"x\"]"), vec!["x"]);
    assert!(parse_string_list("{}").is_empty());
    assert!(parse_string_groups("[\"x\"]").is_empty());
    assert_eq!(strings_to_json(&strings(&["a", "b\""])).ok().as_deref(), Some("[\"a\",\"b\\\"\"]"));
}

#[test]
fn suggestions_follow_role_and_settings() {
    let s = suggestions_for_user("[\"自定义\"]", "[\"跟进\"]", 4, "client", false);
    assert_eq!(s, vec!["分析我的作品推广数据", "帮我找短视频推广方", "推荐一个适合新作品的推广方案", "自定义"]);
    assert_eq!(suggestions_for_user("[\"默认\"]", "[]", 0, "provider", true), vec!["继续分析最有潜力的项目"]);
    assert_eq!(suggestions_for_user("bad", "[\"x\"]", 2, "provider", false), vec!["分析我的服务与合作数据", "帮我找合适的创作者项目"]);
    assert_eq!(suggestions_for_user("[]", "[\"a\",\"b\"]", 10, "client", true).len(), 5);
}

#[test]
fn agent_messages_are_checked() {
    assert!(matches!(validate_agent_prompt(false, "hi"), Err(AppError::BadRequest(m)) if m == "agent 已暂停服务"));
    assert!(matches!(validate_agent_prompt(true, "  \n"), Err(AppError::BadRequest(m)) if m == "agent message is required"));
    let long: String = std::iter::repeat('字').take(1001).collect();
    assert!(matches!(validate_agent_prompt(true, &long), Err(AppError::BadRequest(m)) if m == "agent message is too long"));
    let ok: String = std::iter::repeat('字').take(1000).collect();
    assert_eq!(validate_agent_prompt(true, &format!("  {ok}  ")).ok(), Some(ok));
    assert_eq!(max_tool_calls(0), 1);
    assert_eq!(max_tool_calls(-5), 1);
    assert_eq!(max_tool_calls(7), 7);
}

#[test]
fn search_and_plan_parameters() {
    assert_eq!(search_keyword(Some("  品牌 "), "随便"), Some("品牌".to_string()));
    assert_eq!(search_keyword(Some("   "), "找校园和推广"), Some("校园".to_string()));
    assert_eq!(search_keyword(None, "找推广"), Some("推广".to_string()));
    assert_eq!(search_keyword(None, "找人"), None);
    assert_eq!(partner_limit(None), 5);
    assert_eq!(partner_limit(Some(0)), 1);
    assert_eq!(partner_limit(Some(50)), 10);
    assert_eq!(plan_limit(None), 4);
    assert_eq!(plan_limit(Some(9)), 8);
    assert_eq!(budget_ceiling(Some(123), "低预算"), Some(123));
    assert_eq!(budget_ceiling(Some(0), "低预算方案"), Some(500_000));
    assert_eq!(budget_ceiling(None, "预算20000"), Some(2_000_000));
    assert_eq!(budget_ceiling(None, "预算2万"), Some(2_000_000));
    assert_eq!(budget_ceiling(None, "预算随意"), None);
}

#[test]
fn pipeline_and_follow_up_texts() {
    assert_eq!(pipeline_summary(0, 3), "尚未发起智能匹配");
    assert_eq!(pipeline_summary(3, 1), "匹配到沟通转化率 33%");
    assert_eq!(pipeline_summary(2, 5), "匹配到沟通转化率 100%");
    assert_eq!(follow_up_title(Some("  跟进 "), "原始问题"), "跟进");
    assert_eq!(follow_up_title(None, "原始问题"), "原始问题");
    assert_eq!(follow_up_dedupe_key("s", "u", 601, "t"), "follow_up:s:u:2:t");
}

#[test]
fn instructions_and_welcome() {
    let p = model_system_prompt("系统", "client", "星推");
    assert!(p.starts_with("系统\n\n当前用户身份：client。"));
    assert!(p.ends_with("当前用户组织：星推。"));
    assert!(p.contains("禁止编造数据库结果。你负责理解意图"));
    assert_eq!(welcome_message("欢迎 {organization}！{organization}", "星推"), "欢迎 星推！星推");
    assert_eq!(welcome_message("无占位", "星推"), "无占位");
}

#[test]
fn orchestration_decisions() {
    assert!(!model_turns_exhausted(3, 1));
    assert!(model_turns_exhausted(4, 1));
    assert!(!model_turns_exhausted(u64::MAX, u64::MAX));
    let calls = vec![ToolCallOutcome { name: "a".into(), label: "A".into(), status: "completed".into() }];
    assert!(!run_required_first(&calls, 5, "a"));
    assert!(run_required_first(&calls, 5, "b"));
    assert!(!run_required_first(&calls, 1, "b"));
    let w = tool("w", "write", &[], &[], &[&["帮我联系"]], &[]);
    assert!(write_refused(Some(&w), "联系一下"));
    assert!(!write_refused(Some(&w), "帮我联系他"));
    assert!(!write_refused(None, "联系一下"));
    assert_eq!(final_reply(Some("答案".into()), "汇总".into()), "答案");
    assert_eq!(final_reply(Some("  ".into()), "汇总".into()), "汇总");
    assert_eq!(final_reply(None, "汇总".into()), "汇总");
}

#[test]
fn tools_are_dispatched_by_name() {
    assert!(matches!(tool_kind("search_partners"), Ok(AgentToolKind::SearchPartners)));
    assert!(matches!(tool_kind("inspect_collaboration_pipeline"), Ok(AgentToolKind::Pipeline)));
    assert!(matches!(tool_kind("create_follow_up_task"), Ok(AgentToolKind::FollowUpTask)));
    assert!(matches!(tool_kind("save_recommended_plan"), Ok(AgentToolKind::SavePlan)));
    match tool_kind("delete_everything") {
        Err(xingtui::error::AppError::BadRequest(m)) => assert_eq!(m, "unknown agent tool"),
        _ => panic!("an unknown tool is refused"),
    }
}

#[test]
fn tool_result_texts() {
    assert_eq!(model_tool_description("检索伙伴", "read"), "检索伙伴。模式：read。结果直接来自业务数据库。");
    assert_eq!(tool_prompt(Some("  "), "原始问题"), "原始问题");
    assert_eq!(tool_prompt(Some("找推广方"), "原始问题"), "找推广方");
    assert_eq!(tool_prompt(None, "原始问题"), "原始问题");
    assert_eq!(metrics_summary(3, 2, 150), "3 次匹配 · 2 个会话 · ¥1.50");
    assert_eq!(partners_summary(4), "找到 4 位高匹配伙伴");
    assert_eq!(plans_summary(0), "生成 0 个数据驱动方案");
    assert_eq!(failed_tool_title("伙伴检索"), "伙伴检索未完成");
    assert_eq!(connection_title(true, "推广社"), "已联系推广社");
    assert_eq!(connection_title(false, "推广社"), "与推广社的会话已存在");
    assert_eq!(saved_plan_texts(true).0, "方案已收藏");
    assert_eq!(saved_plan_texts(false).1, "无需重复收藏，可继续安排后续执行。");
    assert_eq!(follow_up_texts(true).0, "执行任务已创建");
    assert_eq!(follow_up_texts(false).1, "五分钟内不会重复创建相同任务。");
}

#[test]
fn agent_tool_administration() {
    let input = AgentToolInput {
        name: "search_partners".to_string(),
        enabled: true,
        label: "伙伴检索".to_string(),
        description: "d".to_string(),
        mode: "read".to_string(),
        keywords: vec!["找".to_string(), "伙伴".to_string()],
        blocked_keywords: vec![],
        keyword_groups: vec![vec!["联系".to_string(), "推广方".to_string()], vec![]],
        required_tools: vec!["query_business_metrics".to_string()],
        sort_order: 1,
    };
    let columns = tool_columns(&input).unwrap();
    assert_eq!(columns.keywords, "[\"找\",\"伙伴\"]");
    assert_eq!(columns.blocked_keywords, "[]");
    assert_eq!(columns.keyword_groups, "[[\"联系\",\"推广方\"],[]]");
    assert_eq!(columns.required_tools, "[\"query_business_metrics\"]");
    assert!(check_tool_name("search_partners", &input).is_ok());
    assert!(matches!(
        check_tool_name("recommend_plans", &input),
        Err(xingtui::error::AppError::BadRequest(m)) if m == "tool name mismatch"
    ));
    assert_eq!(session_page(&SessionListParams { limit: None, offset: None }), (50, 0));
    assert_eq!(session_page(&SessionListParams { limit: Some(10), offset: Some(20) }), (10, 20));
}

#[test]
fn tool_argument_schemas_are_json_objects_requiring_a_query() {
    for name in ["search_partners", "recommend_plans", "connect_partner", "save_recommended_plan", "create_follow_up_task", "query_business_metrics", "custom"] {
        let schema: serde_json::Value = serde_json::from_str(tool_parameters(name)).unwrap();
        assert_eq!(schema["type"], "object");
        assert_eq!(schema["required"][0], "query");
        assert_eq!(schema["additionalProperties"], false);
    }
    let search: serde_json::Value = serde_json::from_str(tool_parameters("search_partners")).unwrap();
    assert_eq!(search["properties"]["limit"]["maximum"], 10);
    let plans: serde_json::Value = serde_json::from_str(tool_parameters("recommend_plans")).unwrap();
    assert_eq!(plans["properties"]["limit"]["maximum"], 8);
    assert_eq!(tool_parameters("inspect_collaboration_pipeline"), tool_parameters("anything"));
}

#[test]
fn pipeline_summary_only_divides_when_there_are_matches() {
    assert_eq!(pipeline_summary(0, i64::MAX), "尚未发起智能匹配");
    assert_eq!(pipeline_summary(4, 3), "匹配到沟通转化率 75%");
    assert_eq!(pipeline_summary(2, 5), "匹配到沟通转化率 100%");
}

fn run_of(name: &str, status: &str) -> ToolCallOutcome {
    ToolCallOutcome { name: name.into(), label: name.into(), status: status.into() }
}

#[test]
fn requested_tools_respect_the_budget() {
    let connect = tool("connect_partner", "write", &[], &[], &[&["联系"]], &["search_partners", "x"]);
    let calls = vec![run_of("search_partners", "completed")];
    // The first pending required tool is `x`, at index 1.
    assert!(matches!(request_step(&calls, 3, Some(&connect), "联系他", 0), RequestStep::RunRequired(1)));
    assert!(matches!(request_step(&calls, 3, Some(&connect), "联系他", 2), RequestStep::Run));
    assert!(matches!(request_step(&calls, 3, Some(&connect), "看看", 2), RequestStep::Refuse));
    // A failed run does not count as done.
    let failed = vec![run_of("search_partners", "failed")];
    assert!(matches!(request_step(&failed, 3, Some(&connect), "联系他", 0), RequestStep::RunRequired(0)));
    // With the budget spent nothing more runs.
    assert!(matches!(request_step(&calls, 1, Some(&connect), "联系他", 0), RequestStep::Decline));
    assert!(matches!(request_step(&calls, 1, None, "联系他", 0), RequestStep::Decline));
    assert!(matches!(request_step(&[], 1, None, "联系他", 0), RequestStep::Run));
    assert!(fall_back_to_local(false, false, 0));
    assert!(fall_back_to_local(true, true, 0));
    assert!(!fall_back_to_local(true, true, 1));
    assert!(!fall_back_to_local(true, false, 0));
}
