use xingtui::reports::{
    clamp_days, csv, default_days, demand_pipeline, export_file_name, format_money,
    pipeline_rows, settlement_summary, since_clause, tool_shares,
};
use xingtui::error::AppError;

fn s(v: &str) -> String {
    v.to_string()
}

#[test]
fn report_periods_are_clamped() {
    assert_eq!(default_days(), 30);
    assert_eq!(clamp_days(0), 1);
    assert_eq!(clamp_days(-7), 1);
    assert_eq!(clamp_days(90), 90);
    assert_eq!(clamp_days(1000), 365);
}

#[test]
fn report_money_has_two_decimals() {
    assert_eq!(format_money(0), "0.00");
    assert_eq!(format_money(12345), "123.45");
    assert_eq!(format_money(-7), "-0.07");
    assert_eq!(format_money(100), "1.00");
}

#[test]
fn report_csv_escapes_cells_but_not_the_header() {
    let doc = csv(
        &vec![s("日期"), s("备注")],
        &vec![vec![s("2024-01-01"), s("a,b")], vec![s("2024-01-02"), s("say \"x\"")]],
    );
    assert_eq!(doc, "日期,备注\n2024-01-01,\"a,b\"\n2024-01-02,\"say \"\"x\"\"\"");
    assert_eq!(csv(&vec![s("a")], &vec![]), "a");
    assert_eq!(csv(&vec![s("a")], &vec![vec![s("cr\r")]]), "a\ncr\r");
}

#[test]
fn settlement_totals_by_status() {
    let rows = vec![(s("completed"), 3, 9000), (s("pending"), 2, -400), (s("rejected"), 1, -100)];
    let summary = settlement_summary(&rows);
    assert_eq!(summary.total_count, 6);
    assert_eq!(summary.completed_count, 3);
    assert_eq!(summary.completed_amount_cents, 9000);
    assert_eq!(summary.pending_count, 2);
    assert_eq!(summary.pending_amount_cents, -400);
    assert_eq!(summary.average_amount_cents, 8500 / 6);
    let empty = settlement_summary(&[]);
    assert_eq!(empty.total_count, 0);
    assert_eq!(empty.average_amount_cents, 0);
    let negative = settlement_summary(&[(s("pending"), 3, -100)]);
    assert_eq!(negative.average_amount_cents, -33);
}

#[test]
fn demand_pipeline_counts() {
    let demands = vec![(s("open"), 4), (s("closed"), 1), (s("following"), 2)];
    let proposals = vec![(s("pending"), 5), (s("accepted"), 2), (s("withdrawn"), 1)];
    let p = demand_pipeline(&demands, &proposals);
    assert_eq!((p.open, p.following, p.completed, p.closed), (4, 2, 0, 1));
    assert_eq!(p.total_proposals, 8);
    assert_eq!(p.accepted_proposals, 2);
    let repeated = demand_pipeline(&[], &[(s("pending"), 5), (s("pending"), 2)]);
    assert_eq!(repeated.total_proposals, 2);
}

#[test]
fn tool_usage_shares() {
    let usage = tool_shares(&[(s("search_partners"), 3), (s("recommend_plans"), 1)]);
    let shown: Vec<(&str, i64, i64)> = usage.iter().map(|u| (u.name.as_str(), u.value, u.percent)).collect();
    assert_eq!(shown, vec![("search_partners", 3, 75), ("recommend_plans", 1, 25)]);
    let thirds = tool_shares(&[(s("a"), 1), (s("b"), 2)]);
    assert_eq!((thirds[0].percent, thirds[1].percent), (33, 67));
    assert!(tool_shares(&[]).is_empty());
}

#[test]
fn report_export_names() {
    assert_eq!(export_file_name("user-growth", 30).unwrap(), "user-growth-30.csv");
    assert_eq!(export_file_name("demand-pipeline", 7).unwrap(), "demand-pipeline.csv");
    assert_eq!(export_file_name("settlements", 365).unwrap(), "settlements-365.csv");
    assert_eq!(export_file_name("partner-performance", 1).unwrap(), "partner-performance-1.csv");
    assert_eq!(export_file_name("ai-usage", 14).unwrap(), "ai-usage-14.csv");
    assert!(matches!(export_file_name("unknown", 30), Err(AppError::BadRequest(m)) if m == "unknown report type"));
}

#[test]
fn periods_and_pipeline_rows() {
    assert_eq!(since_clause(30), "datetime('now', '-30 days')");
    let p = demand_pipeline(&[(s("open"), 2)], &[(s("accepted"), 1)]);
    let rows = pipeline_rows(&p);
    assert_eq!(rows.len(), 6);
    assert_eq!(rows[0], vec![s("open"), s("2")]);
    assert_eq!(rows[4], vec![s("total_proposals"), s("1")]);
    assert_eq!(rows[5], vec![s("accepted_proposals"), s("1")]);
}
