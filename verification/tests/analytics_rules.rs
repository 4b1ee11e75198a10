use xingtui::analytics::user_trend_at;
use xingtui::analytics::{admin_trend, admin_trend_at, count_for_day};
use xingtui::analytics::{distribution, format_money, funnel, growth, channel_label, tool_label};
use xingtui::analytics::channel_counts;
use xingtui::analytics::{admin_metrics, user_metrics};

#[test]
fn funnel_conversion_stays_in_percentage_range() {
    assert_eq!(funnel("建立沟通", 8, 4).conversion, 100);
    assert_eq!(funnel("建立沟通", 0, 0).conversion, 0);
}

#[test]
fn funnel_conversion_rounds_half_away_from_zero() {
    assert_eq!(funnel("a", 1, 8).conversion, 13);
    assert_eq!(funnel("a", 1, 3).conversion, 33);
    assert_eq!(funnel("a", 2, 3).conversion, 67);
    assert_eq!(funnel("a", -5, 3).conversion, 0);
    assert_eq!(funnel("a", 5, -3).conversion, 0);
}

#[test]
fn growth_reports_percentage_change() {
    assert_eq!(growth(0, 0), 0);
    assert_eq!(growth(3, 0), 100);
    assert_eq!(growth(3, 2), 50);
    assert_eq!(growth(1, 2), -50);
    assert_eq!(growth(1, 3), -67);
}

#[test]
fn distribution_orders_by_value_and_keeps_ties_in_order() {
    let counts = vec![
        ("a".to_string(), 1),
        ("b".to_string(), 3),
        ("c".to_string(), 1),
        ("d".to_string(), 5),
    ];
    let items = distribution(&counts);
    let labels: Vec<&str> = items.iter().map(|i| i.label.as_str()).collect();
    assert_eq!(labels, vec!["d", "b", "a", "c"]);
    let percents: Vec<i64> = items.iter().map(|i| i.percent).collect();
    assert_eq!(percents, vec![50, 30, 10, 10]);
    assert!(distribution(&[]).is_empty());
}

#[test]
fn money_is_shown_in_yuan_with_two_decimals() {
    assert_eq!(format_money(0), "¥0.00");
    assert_eq!(format_money(123456), "¥1234.56");
    assert_eq!(format_money(-5), "¥-0.05");
    assert_eq!(format_money(100), "¥1.00");
}

#[test]
fn labels_for_channels_and_tools() {
    assert_eq!(channel_label("campus"), "校园音乐人");
    assert_eq!(channel_label("other"), "其他渠道");
    assert_eq!(tool_label("search_partners"), "伙伴检索");
    assert_eq!(tool_label("custom_tool"), "custom_tool");
}

#[test]
fn channels_are_counted_in_order_of_first_use() {
    let rows = vec![
        "[\"campus\",\"brand\"]".to_string(),
        "not json".to_string(),
        "[\"brand\",\"unknown\",\"tiktok\"]".to_string(),
        "[]".to_string(),
    ];
    assert_eq!(
        channel_counts(&rows),
        vec![
            ("校园音乐人".to_string(), 1),
            ("品牌营销".to_string(), 2),
            ("其他渠道".to_string(), 2),
        ]
    );
    assert!(channel_counts(&vec![]).is_empty());
}

#[test]
fn overview_metrics() {
    let user = user_metrics(5, 2, 1, 12345, 3, 2);
    let shown: Vec<(&str, &str, i64, &str, i64)> = user
        .iter()
        .map(|m| (m.key.as_str(), m.label.as_str(), m.value, m.display_value.as_str(), m.change))
        .collect();
    assert_eq!(
        shown,
        vec![
            ("matches", "智能匹配", 5, "5", 50),
            ("connections", "合作会话", 2, "2", 0),
            ("saved", "收藏方案", 1, "1", 0),
            ("revenue", "累计收益", 12345, "¥123.45", 0),
        ]
    );
    let admin = admin_metrics(10, 4, 3, 7, 2, 0);
    let keys: Vec<&str> = admin.iter().map(|m| m.key.as_str()).collect();
    assert_eq!(keys, vec!["users", "partners", "matches", "agentCalls", "connections", "revenue"]);
    assert_eq!(admin[3].label, "Agent 工具调用");
    assert_eq!(admin[5].display_value, "¥0.00");
}

fn day_rows(rows: &[(&str, i64)]) -> Vec<(String, i64)> {
    rows.iter().map(|(d, n)| (d.to_string(), *n)).collect()
}

#[test]
fn user_trend_fills_seven_days_oldest_first() {
    // 2024-01-01 12:00:00 UTC.
    let now = 1_704_110_400;
    let matches = day_rows(&[("2024-01-01", 3), ("2023-12-30", 2)]);
    let connections = day_rows(&[("2023-12-26", 1)]);
    let trend = user_trend_at(now, &matches, &connections);
    assert_eq!(trend.len(), 7);
    assert_eq!(trend[0].date, "2023-12-26");
    assert_eq!(trend[0].label, "12/26");
    assert_eq!(trend[0].connections, 1);
    assert_eq!(trend[4].date, "2023-12-30");
    assert_eq!(trend[4].matches, 2);
    assert_eq!(trend[5].matches, 0);
    assert_eq!(trend[6].date, "2024-01-01");
    assert_eq!(trend[6].label, "01/01");
    assert_eq!(trend[6].matches, 3);
}

#[test]
fn admin_trend_covers_fourteen_days() {
    let now = 1_704_110_400;
    let revenue = day_rows(&[("2023-12-19", 500), ("2023-12-19", 700)]);
    let trend = admin_trend_at(now, &[], &[], &[], &revenue);
    assert_eq!(trend.len(), 14);
    assert_eq!(trend[0].date, "2023-12-19");
    assert_eq!(trend[0].revenue, 700);
    assert_eq!(trend[13].date, "2024-01-01");
    assert_eq!(trend[13].users, 0);
    assert_eq!(count_for_day(&revenue, "2023-12-20"), 0);
    assert_eq!(admin_trend(&[], &[], &[], &[]).len(), 14);
}
