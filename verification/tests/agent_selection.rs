use xingtui::agent::{select_tools, RuntimeTool};

fn test_tool(
    name: &str,
    keywords: &[&str],
    blocked: &[&str],
    groups: &[&[&str]],
    required: &[&str],
    mode: &str,
) -> RuntimeTool {
    RuntimeTool {
        name: name.into(),
        label: name.into(),
        description: "".into(),
        mode: mode.into(),
        keywords: keywords.iter().map(|s| (*s).into()).collect(),
        blocked_keywords: blocked.iter().map(|s| (*s).into()).collect(),
        keyword_groups: groups
            .iter()
            .map(|g| g.iter().map(|s| (*s).into()).collect())
            .collect(),
        required_tools: required.iter().map(|s| (*s).into()).collect(),
    }
}

fn default_tools() -> Vec<RuntimeTool> {
    vec![
        test_tool(
            "query_business_metrics",
            &["数据", "统计", "趋势", "表现", "多少", "收益"],
            &[],
            &[],
            &[],
            "read",
        ),
        test_tool(
            "inspect_collaboration_pipeline",
            &["漏斗", "转化", "pipeline"],
            &[],
            &[],
            &[],
            "read",
        ),
        test_tool(
            "search_partners",
            &["找", "伙伴", "服务", "需求", "达人", "合作方"],
            &[],
            &[],
            &[],
            "read",
        ),
        test_tool(
            "recommend_plans",
            &["方案", "推广", "预算", "推荐", "投放"],
            &[],
            &[],
            &[],
            "read",
        ),
        test_tool(
            "connect_partner",
            &["联系", "沟通", "合作", "会话", "对接"],
            &["联系过", "已联系", "联系记录", "联系状态", "沟通数据", "沟通记录"],
            &[
                &["帮我联系"],
                &["请联系"],
                &["直接联系"],
                &["立即联系"],
                &["联系最佳"],
                &["联系最合适"],
                &["联系第一"],
                &["联系伙伴"],
                &["联系合作方"],
                &["发起合作"],
                &["开始沟通"],
                &["立即沟通"],
                &["和第一位沟通"],
                &["与第一位沟通"],
                &["建立会话"],
                &["帮我对接"],
                &["直接对接"],
            ],
            &["search_partners"],
            "write",
        ),
        test_tool(
            "save_recommended_plan",
            &["收藏", "保存"],
            &["取消收藏", "已收藏", "收藏了", "收藏多少", "收藏数据", "收藏记录"],
            &[
                &["帮我收藏"],
                &["请收藏"],
                &["收藏最佳"],
                &["收藏这个"],
                &["收藏推荐"],
                &["收藏方案"],
                &["保存方案"],
                &["保存这个"],
                &["加入收藏"],
            ],
            &["recommend_plans"],
            "write",
        ),
        test_tool(
            "create_follow_up_task",
            &["创建", "生成", "添加", "安排", "提醒", "执行"],
            &["任务记录", "已有任务", "有哪些任务", "执行情况", "执行数据"],
            &[
                &["提醒我"],
                &["安排跟进"],
                &["执行方案"],
                &["开始执行"],
                &["直接执行"],
                &["创建", "任务"],
                &["创建", "跟进"],
                &["生成", "任务"],
                &["生成", "跟进"],
                &["添加", "任务"],
                &["添加", "跟进"],
            ],
            &[],
            "write",
        ),
    ]
}

fn select(prompt: &str) -> Vec<String> {
    select_tools(&default_tools(), prompt)
}

#[test]
fn selects_query_tools_for_data_questions() {
    assert_eq!(
        select("分析一下最近数据趋势和合作漏斗"),
        vec!["query_business_metrics", "inspect_collaboration_pipeline"]
    );
}

#[test]
fn keeps_read_tools_before_dependent_actions() {
    assert_eq!(
        select("帮我找短视频服务方并联系最佳伙伴"),
        vec!["search_partners", "connect_partner"]
    );
    assert_eq!(
        select("推荐一个推广方案并保存方案"),
        vec!["recommend_plans", "save_recommended_plan"]
    );
    assert_eq!(
        select("直接联系最合适的人"),
        vec!["search_partners", "connect_partner"]
    );
}

#[test]
fn does_not_execute_negated_or_informational_write_intents() {
    assert_eq!(select("帮我找伙伴，但不要联系"), vec!["search_partners"]);
    assert_eq!(select("推荐方案但不要收藏"), vec!["recommend_plans"]);
    assert_eq!(select("如何联系这些合作方"), vec!["search_partners"]);
    assert!(!select("请不要帮我联系任何人").contains(&"connect_partner".into()));
    assert!(!select("分析沟通数据").contains(&"connect_partner".into()));
    assert!(!select("我收藏了几个方案").contains(&"save_recommended_plan".into()));
    assert!(!select("先不保存这个方案").contains(&"save_recommended_plan".into()));
    assert!(!select("有哪些任务").contains(&"create_follow_up_task".into()));
    assert!(select("请创建本周跟进任务").contains(&"create_follow_up_task".into()));
}
