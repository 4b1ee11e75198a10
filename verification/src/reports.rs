//! Operating reports: the reporting period, aggregated counts, and the CSV
//! exports of the report page.
use vstd::prelude::*;
use crate::agent::texts;
use crate::analytics::{clamp, round_div, saturate_i64, yuan_text, yuan_two_decimals};
use crate::error::{AppError, is_bad_request, bad_request};
use crate::text::{chars_of, concat3, int_text, int_to_string, owned, push_char, push_str, str_eq};

verus! {

/// `default_days`: a report covers thirty days unless asked otherwise.
pub fn default_days() -> (d: i64)
    ensures
        d == 30,
{
    30
}

/// `clamp_days`: a report covers one day to one year.
pub fn clamp_days(days: i64) -> (d: i64)
    ensures
        d == clamp(days as int, 1, 365),
        1 <= d <= 365,
{
    if days < 1 {
        1
    } else if days > 365 {
        365
    } else {
        days
    }
}

/// `format_money`: an amount of cents in yuan with two decimals.
pub fn format_money(cents: i64) -> (s: String)
    ensures
        s@ == yuan_text(cents as int),
{
    yuan_two_decimals(cents)
}

/// The SQL lower bound of a reporting period of `days` days.
pub fn since_clause(days: i64) -> (s: String)
    ensures
        s@ == "datetime('now', '-"@ + int_text(days as int) + " days')"@,
{
    let d = int_to_string(days);
    concat3("datetime('now', '-", d.as_str(), " days')")
}

// ---------------------------------------------------------------------------
// CSV
// ---------------------------------------------------------------------------

/// A report cell: quoted, with quotes doubled, where it holds a comma, a
/// quote or a line feed.
pub open spec fn report_cell(s: Seq<char>) -> Seq<char> {
    if s.contains(',') || s.contains('"') || s.contains('\n') {
        seq!['"'] + crate::admin::double_quotes(s) + seq!['"']
    } else {
        s
    }
}

/// A report cell reads back, with a CSV reader, as the value it was made
/// from; a value holding a comma, a quote or a line feed is enclosed in
/// quotes, so it stays one field of one record.
pub proof fn law_report_cell_round_trip(s: Seq<char>)
    ensures
        crate::admin::read_csv_field(report_cell(s)) == s,
        (s.contains(',') || s.contains('"') || s.contains('\n')) ==> report_cell(s).len() >= 2
            && report_cell(s)[0] == '"' && report_cell(s).last() == '"',
        !(s.contains(',') || s.contains('"') || s.contains('\n')) ==> report_cell(s) == s,
{
    let t = report_cell(s);
    if s.contains(',') || s.contains('"') || s.contains('\n') {
        crate::admin::lemma_undouble(s);
        assert(t.subrange(1, t.len() - 1) =~= crate::admin::double_quotes(s));
    } else {
        if s.len() >= 2 && s[0] == '"' {
            assert(s.contains('"'));
        }
    }
}

/// Texts joined with a separator character.
pub open spec fn join_with(items: Seq<Seq<char>>, sep: char) -> Seq<char>
    decreases items.len(),
{
    if items.len() == 0 {
        Seq::empty()
    } else if items.len() == 1 {
        items[0]
    } else {
        join_with(items.drop_last(), sep) + seq![sep] + items.last()
    }
}

/// The report document: the header joined by commas (as given), then each
/// row's cells escaped and joined by commas; lines joined by line feeds.
pub open spec fn report_csv(header: Seq<Seq<char>>, rows: Seq<Seq<Seq<char>>>) -> Seq<char> {
    join_with(
        seq![join_with(header, ',')] + rows.map_values(
            |row: Seq<Seq<char>>| join_with(row.map_values(|c: Seq<char>| report_cell(c)), ','),
        ),
        '\n',
    )
}

fn report_cell_exec(value: &str) -> (cell: String)
    ensures
        cell@ == report_cell(value@),
{
    let v = chars_of(value);
    if crate::text::has_char(v.as_slice(), ',') || crate::text::has_char(v.as_slice(), '"')
        || crate::text::has_char(v.as_slice(), '\n') {
        let escaped = crate::admin::csv_escape(value);
        assert(crate::admin::needs_quoting(value@));
        escaped
    } else {
        owned(value)
    }
}

fn join_cells_exec(cells: &Vec<String>, escape: bool) -> (line: String)
    ensures
        escape ==> line@ == join_with(
            texts(cells@).map_values(|c: Seq<char>| report_cell(c)),
            ',',
        ),
        !escape ==> line@ == join_with(texts(cells@), ','),
{
    let ghost shown = if escape {
        texts(cells@).map_values(|c: Seq<char>| report_cell(c))
    } else {
        texts(cells@)
    };
    let mut out = String::new();
    let n = cells.len();
    for i in 0..n
        invariant
            n == cells@.len(),
            shown == (if escape {
                texts(cells@).map_values(|c: Seq<char>| report_cell(c))
            } else {
                texts(cells@)
            }),
            out@ == join_with(shown.take(i as int), ','),
    {
        assert(shown.take(i + 1).drop_last() =~= shown.take(i as int));
        if i > 0 {
            push_char(&mut out, ',');
        } else {
            assert(shown.take(0) =~= Seq::<Seq<char>>::empty());
        }
        if escape {
            let cell = report_cell_exec(cells[i].as_str());
            push_str(&mut out, cell.as_str());
        } else {
            push_str(&mut out, cells[i].as_str());
        }
    }
    assert(shown.take(n as int) =~= shown);
    out
}

/// `csv`: a report export with its header line.
pub fn csv(header: &Vec<String>, rows: &Vec<Vec<String>>) -> (doc: String)
    ensures
        doc@ == report_csv(texts(header@), rows@.map_values(|r: Vec<String>| texts(r@))),
{
    let ghost row_views = rows@.map_values(|r: Vec<String>| texts(r@));
    let ghost lines = seq![join_with(texts(header@), ',')] + row_views.map_values(
        |row: Seq<Seq<char>>| join_with(row.map_values(|c: Seq<char>| report_cell(c)), ','),
    );
    let mut out = join_cells_exec(header, false);
    assert(lines.take(1) =~= seq![join_with(texts(header@), ',')]);
    let n = rows.len();
    for i in 0..n
        invariant
            n == rows@.len(),
            lines.len() == n + 1,
            row_views == rows@.map_values(|r: Vec<String>| texts(r@)),
            lines == seq![join_with(texts(header@), ',')] + row_views.map_values(
                |row: Seq<Seq<char>>| join_with(row.map_values(|c: Seq<char>| report_cell(c)), ','),
            ),
            out@ == join_with(lines.take(i + 1), '\n'),
    {
        assert(lines.take(i + 2).drop_last() =~= lines.take(i + 1));
        push_char(&mut out, '\n');
        let line = join_cells_exec(&rows[i], true);
        assert(line@ == lines[i + 1]);
        push_str(&mut out, line.as_str());
    }
    assert(lines.take(n + 1) =~= lines);
    out
}

// ---------------------------------------------------------------------------
// Aggregates
// ---------------------------------------------------------------------------

/// Totals of settlements by status.
pub struct SettlementSummary {
    pub total_count: i64,
    pub completed_count: i64,
    pub pending_count: i64,
    pub completed_amount_cents: i64,
    pub pending_amount_cents: i64,
    pub average_amount_cents: i64,
}

/// A settlement group: `(status, count, amount)`.
pub type StatusGroup = (String, i64, i64);

/// Sum of the counts of the groups.
pub open spec fn count_sum(rows: Seq<StatusGroup>) -> int
    decreases rows.len(),
{
    if rows.len() == 0 {
        0
    } else {
        count_sum(rows.drop_last()) + rows.last().1
    }
}

/// Sum of the amounts of the groups.
pub open spec fn amount_sum(rows: Seq<StatusGroup>) -> int
    decreases rows.len(),
{
    if rows.len() == 0 {
        0
    } else {
        amount_sum(rows.drop_last()) + rows.last().2
    }
}

/// The last group with the given status, as `(count, amount)`; zeros where
/// there is none.
pub open spec fn last_group(rows: Seq<StatusGroup>, status: Seq<char>) -> (int, int)
    decreases rows.len(),
{
    if rows.len() == 0 {
        (0, 0)
    } else if rows.last().0@ == status {
        (rows.last().1 as int, rows.last().2 as int)
    } else {
        last_group(rows.drop_last(), status)
    }
}

/// Every running total of counts and amounts, in order, fits an `i64`.
pub open spec fn running_totals_fit(rows: Seq<StatusGroup>) -> bool {
    forall|k: int|
        0 <= k <= rows.len() ==> {
            &&& i64::MIN <= #[trigger] count_sum(rows.take(k)) <= i64::MAX
            &&& i64::MIN <= amount_sum(rows.take(k)) <= i64::MAX
        }
}

/// Integer division truncating toward zero, as `i64 /` does.
pub open spec fn div_trunc(a: int, b: int) -> int {
    if (a >= 0) == (b > 0) {
        if a >= 0 {
            a / b
        } else {
            (-a) / (-b)
        }
    } else {
        if a >= 0 {
            -(a / (-b))
        } else {
            -((-a) / b)
        }
    }
}

/// `build_settlement_summary` over the grouped rows.
pub fn settlement_summary(rows: &[StatusGroup]) -> (s: SettlementSummary)
    requires
        running_totals_fit(rows@),
    ensures
        s.total_count == count_sum(rows@),
        s.completed_count == last_group(rows@, "completed"@).0,
        s.completed_amount_cents == last_group(rows@, "completed"@).1,
        s.pending_count == last_group(rows@, "pending"@).0,
        s.pending_amount_cents == last_group(rows@, "pending"@).1,
        s.average_amount_cents == (if count_sum(rows@) > 0 {
            div_trunc(amount_sum(rows@), count_sum(rows@))
        } else {
            0
        }),
{
    proof {
        reveal_strlit("completed");
        reveal_strlit("pending");
        assert("completed"@[0] != "pending"@[0]);
    }
    let mut completed_count: i64 = 0;
    let mut pending_count: i64 = 0;
    let mut completed_amount: i64 = 0;
    let mut pending_amount: i64 = 0;
    let mut total_count: i64 = 0;
    let mut total_amount: i64 = 0;
    let n = rows.len();
    for i in 0..n
        invariant
            n == rows@.len(),
            "completed"@ != "pending"@,
            running_totals_fit(rows@),
            total_count == count_sum(rows@.take(i as int)),
            total_amount == amount_sum(rows@.take(i as int)),
            (completed_count as int, completed_amount as int) == last_group(
                rows@.take(i as int),
                "completed"@,
            ),
            (pending_count as int, pending_amount as int) == last_group(
                rows@.take(i as int),
                "pending"@,
            ),
    {
        let ghost next = rows@.take(i + 1);
        assert(next.drop_last() =~= rows@.take(i as int));
        assert(next.last() == rows@[i as int]);
        assert(i64::MIN <= count_sum(next) <= i64::MAX);
        let row = &rows[i];
        total_count = total_count + row.1;
        total_amount = total_amount + row.2;
        if str_eq(row.0.as_str(), "completed") {
            completed_count = row.1;
            completed_amount = row.2;
        } else if str_eq(row.0.as_str(), "pending") {
            pending_count = row.1;
            pending_amount = row.2;
        }
    }
    assert(rows@.take(n as int) =~= rows@);
    let average = if total_count > 0 {
        total_amount / total_count
    } else {
        0
    };
    SettlementSummary {
        total_count,
        completed_count,
        pending_count,
        completed_amount_cents: completed_amount,
        pending_amount_cents: pending_amount,
        average_amount_cents: average,
    }
}

/// Counts of demands and quotes by status.
pub struct DemandPipeline {
    pub open: i64,
    pub following: i64,
    pub completed: i64,
    pub closed: i64,
    pub total_proposals: i64,
    pub accepted_proposals: i64,
}

/// A `(status, count)` group.
pub type CountGroup = (String, i64);

/// The count that a map built from the groups holds for `status` (the last
/// group with that status wins); zero where there is none.
pub open spec fn count_for(rows: Seq<CountGroup>, status: Seq<char>) -> int
    decreases rows.len(),
{
    if rows.len() == 0 {
        0
    } else if rows.last().0@ == status {
        rows.last().1 as int
    } else {
        count_for(rows.drop_last(), status)
    }
}

/// The sum of the counts a map built from the groups holds (a later group
/// replaces an earlier one with the same status).
pub open spec fn map_total(rows: Seq<CountGroup>) -> int
    decreases rows.len(),
{
    if rows.len() == 0 {
        0
    } else {
        map_total(rows.drop_last()) - count_for(rows.drop_last(), rows.last().0@) + rows.last().1
    }
}

/// `build_demand_pipeline` over the grouped rows of demands and of quotes.
pub fn demand_pipeline(demands: &[CountGroup], proposals: &[CountGroup]) -> (p: DemandPipeline)
    requires
        forall|k: int|
            0 <= k <= proposals@.len() ==> i64::MIN <= #[trigger] map_total(proposals@.take(k))
                <= i64::MAX,
    ensures
        p.open == count_for(demands@, "open"@),
        p.following == count_for(demands@, "following"@),
        p.completed == count_for(demands@, "completed"@),
        p.closed == count_for(demands@, "closed"@),
        p.total_proposals == map_total(proposals@),
        p.accepted_proposals == count_for(proposals@, "accepted"@),
{
    let open = lookup_count(demands, "open");
    let following = lookup_count(demands, "following");
    let completed = lookup_count(demands, "completed");
    let closed = lookup_count(demands, "closed");
    let accepted = lookup_count(proposals, "accepted");
    let mut total: i64 = 0;
    let n = proposals.len();
    for i in 0..n
        invariant
            n == proposals@.len(),
            forall|k: int|
                0 <= k <= proposals@.len() ==> i64::MIN <= #[trigger] map_total(proposals@.take(k))
                    <= i64::MAX,
            total == map_total(proposals@.take(i as int)),
    {
        let ghost pre = proposals@.take(i as int);
        let ghost next = proposals@.take(i + 1);
        assert(next.drop_last() =~= pre);
        assert(next.last() == proposals@[i as int]);
        let before = lookup_count_prefix(proposals, i, proposals[i].0.as_str());
        assert(i64::MIN <= map_total(next) <= i64::MAX);
        total = ((total as i128) - (before as i128) + (proposals[i].1 as i128)) as i64;
    }
    assert(proposals@.take(n as int) =~= proposals@);
    DemandPipeline {
        open,
        following,
        completed,
        closed,
        total_proposals: total,
        accepted_proposals: accepted,
    }
}

/// A stage of the pipeline export with its count.
fn stage_row(stage: &str, count: i64) -> (row: Vec<String>)
    ensures
        texts(row@) == seq![stage@, int_text(count as int)],
{
    let mut row: Vec<String> = Vec::new();
    row.push(owned(stage));
    row.push(int_to_string(count));
    assert(texts(row@) =~= seq![stage@, int_text(count as int)]);
    row
}

/// The demand pipeline export's rows: each stage with its count.
pub fn pipeline_rows(p: &DemandPipeline) -> (rows: Vec<Vec<String>>)
    ensures
        rows@.map_values(|r: Vec<String>| texts(r@)) == seq![
            seq!["open"@, int_text(p.open as int)],
            seq!["following"@, int_text(p.following as int)],
            seq!["completed"@, int_text(p.completed as int)],
            seq!["closed"@, int_text(p.closed as int)],
            seq!["total_proposals"@, int_text(p.total_proposals as int)],
            seq!["accepted_proposals"@, int_text(p.accepted_proposals as int)],
        ],
{
    let mut rows: Vec<Vec<String>> = Vec::new();
    rows.push(stage_row("open", p.open));
    rows.push(stage_row("following", p.following));
    rows.push(stage_row("completed", p.completed));
    rows.push(stage_row("closed", p.closed));
    rows.push(stage_row("total_proposals", p.total_proposals));
    rows.push(stage_row("accepted_proposals", p.accepted_proposals));
    assert(rows@.map_values(|r: Vec<String>| texts(r@)) =~= seq![
        seq!["open"@, int_text(p.open as int)],
        seq!["following"@, int_text(p.following as int)],
        seq!["completed"@, int_text(p.completed as int)],
        seq!["closed"@, int_text(p.closed as int)],
        seq!["total_proposals"@, int_text(p.total_proposals as int)],
        seq!["accepted_proposals"@, int_text(p.accepted_proposals as int)],
    ]);
    rows
}

/// The count the grouped rows hold for `status` (last group wins).
fn lookup_count(rows: &[CountGroup], status: &str) -> (c: i64)
    ensures
        c == count_for(rows@, status@),
{
    let n = rows.len();
    let c = lookup_count_prefix(rows, n, status);
    assert(rows@.take(n as int) =~= rows@);
    c
}

/// The count the first `n` grouped rows hold for `status`.
fn lookup_count_prefix(rows: &[CountGroup], n: usize, status: &str) -> (c: i64)
    requires
        n <= rows@.len(),
    ensures
        c == count_for(rows@.take(n as int), status@),
{
    let mut c: i64 = 0;
    for i in 0..n
        invariant
            n <= rows@.len(),
            c == count_for(rows@.take(i as int), status@),
    {
        assert(rows@.take(i + 1).drop_last() =~= rows@.take(i as int));
        if str_eq(rows[i].0.as_str(), status) {
            c = rows[i].1;
        }
    }
    c
}

/// A tool's share of the agent's tool runs.
pub struct ToolUsage {
    pub name: String,
    pub value: i64,
    pub percent: i64,
}

/// Sum of the values of `(name, value)` pairs.
pub open spec fn value_sum(rows: Seq<CountGroup>) -> int
    decreases rows.len(),
{
    if rows.len() == 0 {
        0
    } else {
        value_sum(rows.drop_last()) + rows.last().1
    }
}

/// `build_ai_usage`'s top tools: each tool's count and rounded share of all
/// runs (the total taken as at least one).
pub fn tool_shares(rows: &[CountGroup]) -> (usage: Vec<ToolUsage>)
    requires
        forall|k: int|
            0 <= k <= rows@.len() ==> i64::MIN <= #[trigger] value_sum(rows@.take(k)) <= i64::MAX,
    ensures
        usage@.len() == rows@.len(),
        forall|i: int|
            0 <= i < rows@.len() ==> {
                &&& (#[trigger] usage@[i]).name@ == rows@[i].0@
                &&& usage@[i].value == rows@[i].1
                &&& usage@[i].percent == saturate_i64(
                    round_div(
                        100 * rows@[i].1,
                        if value_sum(rows@) > 1 {
                            value_sum(rows@)
                        } else {
                            1
                        },
                    ),
                )
            },
{
    let n = rows.len();
    let mut total: i64 = 0;
    for i in 0..n
        invariant
            n == rows@.len(),
            forall|k: int|
                0 <= k <= rows@.len() ==> i64::MIN <= #[trigger] value_sum(rows@.take(k))
                    <= i64::MAX,
            total == value_sum(rows@.take(i as int)),
    {
        assert(rows@.take(i + 1).drop_last() =~= rows@.take(i as int));
        assert(i64::MIN <= value_sum(rows@.take(i + 1)) <= i64::MAX);
        total = total + rows[i].1;
    }
    assert(rows@.take(n as int) =~= rows@);
    let divisor: i64 = if total > 1 {
        total
    } else {
        1
    };
    let mut usage: Vec<ToolUsage> = Vec::new();
    for i in 0..n
        invariant
            n == rows@.len(),
            divisor == (if value_sum(rows@) > 1 {
                value_sum(rows@)
            } else {
                1
            }),
            usage@.len() == i,
            forall|j: int|
                0 <= j < i ==> {
                    &&& (#[trigger] usage@[j]).name@ == rows@[j].0@
                    &&& usage@[j].value == rows@[j].1
                    &&& usage@[j].percent == saturate_i64(round_div(100 * rows@[j].1, divisor as int))
                },
    {
        let percent = crate::analytics::share_percent(rows[i].1, divisor);
        usage.push(ToolUsage { name: rows[i].0.clone(), value: rows[i].1, percent });
    }
    usage
}

// ---------------------------------------------------------------------------
// Export names
// ---------------------------------------------------------------------------

/// The file name of a report export, or `None` for an unknown report type.
pub open spec fn export_file_name_spec(report_type: Seq<char>, days: int) -> Option<Seq<char>> {
    if report_type == "user-growth"@ {
        Some("user-growth-"@ + int_text(days) + ".csv"@)
    } else if report_type == "demand-pipeline"@ {
        Some("demand-pipeline.csv"@)
    } else if report_type == "settlements"@ {
        Some("settlements-"@ + int_text(days) + ".csv"@)
    } else if report_type == "partner-performance"@ {
        Some("partner-performance-"@ + int_text(days) + ".csv"@)
    } else if report_type == "ai-usage"@ {
        Some("ai-usage-"@ + int_text(days) + ".csv"@)
    } else {
        None
    }
}

/// `export`'s file name for a report type; an unknown type is refused.
pub fn export_file_name(report_type: &str, days: i64) -> (r: Result<String, AppError>)
    ensures
        export_file_name_spec(report_type@, days as int) matches Some(n) ==> (r matches Ok(f)
            && f@ == n),
        export_file_name_spec(report_type@, days as int) is None ==> (r matches Err(e)
            && is_bad_request(e, "unknown report type"@)),
{
    let d = int_to_string(days);
    if str_eq(report_type, "user-growth") {
        Ok(concat3("user-growth-", d.as_str(), ".csv"))
    } else if str_eq(report_type, "demand-pipeline") {
        Ok(owned("demand-pipeline.csv"))
    } else if str_eq(report_type, "settlements") {
        Ok(concat3("settlements-", d.as_str(), ".csv"))
    } else if str_eq(report_type, "partner-performance") {
        Ok(concat3("partner-performance-", d.as_str(), ".csv"))
    } else if str_eq(report_type, "ai-usage") {
        Ok(concat3("ai-usage-", d.as_str(), ".csv"))
    } else {
        Err(bad_request("unknown report type"))
    }
}

} // verus!
