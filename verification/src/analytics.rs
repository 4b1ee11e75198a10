//! Analytics arithmetic: funnel conversion, growth, channel distribution,
//! money display and the opportunity hint.
use vstd::prelude::*;
use crate::api::{chrono_timestamp, now_seconds};
use crate::text::has_prefix;
use crate::text::{digit, digit_char, int_to_string, nat_text, owned, push_nat, string_from_chars};

verus! {

// ---------------------------------------------------------------------------
// Rounded percentages
// ---------------------------------------------------------------------------

/// `n / d` rounded to the nearest integer, exact halves away from zero: the
/// exact rational form of `(n as f64 / d as f64).round()`.  The float form
/// can land on the other side of an exact half when the quotient has no
/// binary representation (29 / 200 * 100 is 14.4999… in `f64`, 15 here).
pub open spec fn round_div(n: int, d: int) -> int
    recommends
        d != 0,
{
    let a = if n < 0 {
        -n
    } else {
        n
    };
    let b = if d < 0 {
        -d
    } else {
        d
    };
    let q = (2 * a + b) / (2 * b);
    if (n < 0) != (d < 0) {
        -q
    } else {
        q
    }
}

/// `x` limited to `[lo, hi]` (`i64::clamp`).
pub open spec fn clamp(x: int, lo: int, hi: int) -> int {
    if x < lo {
        lo
    } else if x > hi {
        hi
    } else {
        x
    }
}

/// `x` saturated into the `i64` range (what `f64 as i64` does).
pub open spec fn saturate_i64(x: int) -> int {
    clamp(x, i64::MIN as int, i64::MAX as int)
}

/// Rounded `100 * n / d`, saturated to `i64`, for `d != 0`.
fn percent_of(n: i64, d: i64) -> (p: i64)
    requires
        d != 0,
    ensures
        p == saturate_i64(round_div(100 * n, d as int)),
{
    let big_n: i128 = 100 * (n as i128);
    let a: i128 = if big_n < 0 {
        -big_n
    } else {
        big_n
    };
    let b: i128 = if d < 0 {
        -(d as i128)
    } else {
        d as i128
    };
    let q: i128 = (2 * a + b) / (2 * b);
    let r: i128 = if (big_n < 0) != (d < 0) {
        -q
    } else {
        q
    };
    if r > i64::MAX as i128 {
        i64::MAX
    } else if r < i64::MIN as i128 {
        i64::MIN
    } else {
        r as i64
    }
}

/// Rounded `100 * n / d`, saturated to `i64`: a share in percent.
pub fn share_percent(n: i64, d: i64) -> (p: i64)
    requires
        d != 0,
    ensures
        p == saturate_i64(round_div(100 * n, d as int)),
{
    percent_of(n, d)
}

// ---------------------------------------------------------------------------
// Funnel and growth
// ---------------------------------------------------------------------------

/// A stage of a conversion funnel.
pub struct FunnelStage {
    pub label: String,
    pub value: i64,
    /// Percentage of the previous stage that reached this one, in `[0, 100]`.
    pub conversion: i64,
}

/// The conversion from a stage of size `previous` to one of size `value`.
pub open spec fn funnel_conversion(value: int, previous: int) -> int {
    if previous > 0 {
        clamp(round_div(100 * value, previous), 0, 100)
    } else {
        0
    }
}

/// `funnel`: a funnel stage with its rounded conversion from the previous one.
pub fn funnel(label: &str, value: i64, previous: i64) -> (stage: FunnelStage)
    ensures
        stage.label@ == label@,
        stage.value == value,
        stage.conversion == funnel_conversion(value as int, previous as int),
{
    let conversion = if previous > 0 {
        let p = percent_of(value, previous);
        if p < 0 {
            0
        } else if p > 100 {
            100
        } else {
            p
        }
    } else {
        0
    };
    FunnelStage { label: owned(label), value, conversion }
}

/// A funnel conversion is always a percentage.
pub proof fn law_funnel_conversion_is_a_percentage(value: int, previous: int)
    ensures
        0 <= funnel_conversion(value, previous) <= 100,
        previous <= 0 ==> funnel_conversion(value, previous) == 0,
        previous > 0 && value >= previous ==> funnel_conversion(value, previous) == 100,
        previous > 0 && value <= 0 ==> funnel_conversion(value, previous) == 0,
{
    if previous > 0 && value >= previous {
        assert(200 * value + previous >= 200 * previous) by (nonlinear_arith)
            requires
                value >= previous,
                previous > 0,
        ;
        assert((200 * value + previous) / (2 * previous) >= 100) by (nonlinear_arith)
            requires
                200 * value + previous >= 200 * previous,
                previous > 0,
        ;
    }
    if previous > 0 && value == 0 {
        assert(previous / (2 * previous) == 0) by (nonlinear_arith)
            requires
                previous > 0,
        ;
    }
    if previous > 0 && value < 0 {
        assert((2 * (-(100 * value)) + previous) / (2 * previous) >= 0) by (nonlinear_arith)
            requires
                value < 0,
                previous > 0,
        ;
    }
}

/// The week-on-week change of `current` against `previous`, in percent.
pub open spec fn growth_spec(current: int, previous: int) -> int {
    if previous == 0 {
        if current > 0 {
            100
        } else {
            0
        }
    } else {
        saturate_i64(round_div(100 * (current - previous), previous))
    }
}

/// `growth`: the rounded percentage change from `previous` to `current`.
pub fn growth(current: i64, previous: i64) -> (g: i64)
    requires
        previous != 0 ==> i64::MIN <= current - previous <= i64::MAX,
    ensures
        g == growth_spec(current as int, previous as int),
{
    if previous == 0 {
        return if current > 0 {
            100
        } else {
            0
        };
    }
    percent_of(current - previous, previous)
}

/// Growth has the sign of the change: no growth is reported for a decline,
/// and no decline for growth.
pub proof fn law_growth_follows_the_change(current: int, previous: int)
    requires
        previous > 0,
    ensures
        current >= previous ==> growth_spec(current, previous) >= 0,
        current <= previous ==> growth_spec(current, previous) <= 0,
        current == previous ==> growth_spec(current, previous) == 0,
{
    let n = 100 * (current - previous);
    if n >= 0 {
        assert((2 * n + previous) / (2 * previous) >= 0) by (nonlinear_arith)
            requires
                n >= 0,
                previous > 0,
        ;
    } else {
        assert((2 * (-n) + previous) / (2 * previous) >= 0) by (nonlinear_arith)
            requires
                n < 0,
                previous > 0,
        ;
    }
    if n == 0 {
        assert(previous / (2 * previous) == 0) by (nonlinear_arith)
            requires
                previous > 0,
        ;
    }
}

// ---------------------------------------------------------------------------
// Distribution
// ---------------------------------------------------------------------------

/// A share of a distribution.
pub struct DistributionItem {
    pub label: String,
    pub value: i64,
    /// Rounded share of the total, in percent.
    pub percent: i64,
}

/// An item as `(label, value, percent)`.
pub open spec fn item_view(item: DistributionItem) -> (Seq<char>, i64, i64) {
    (item.label@, item.value, item.percent)
}

/// The items as `(label, value, percent)`.
pub open spec fn items_view(items: Seq<DistributionItem>) -> Seq<(Seq<char>, i64, i64)> {
    items.map_values(|item: DistributionItem| item_view(item))
}

/// Sum of the counts.
pub open spec fn total_of(counts: Seq<(String, i64)>) -> int
    decreases counts.len(),
{
    if counts.len() == 0 {
        0
    } else {
        total_of(counts.drop_last()) + counts.last().1
    }
}

/// Every running sum of the counts, in order, fits an `i64`.
pub open spec fn running_sums_fit(counts: Seq<(String, i64)>) -> bool {
    forall|k: int|
        0 <= k <= counts.len() ==> i64::MIN <= #[trigger] total_of(counts.take(k)) <= i64::MAX
}

/// Share of `value` in `total`, in percent.
pub open spec fn share(value: int, total: int) -> int {
    if total > 0 {
        saturate_i64(round_div(100 * value, total))
    } else {
        0
    }
}

/// Where a new entry of value `v` goes in a list ordered by decreasing value:
/// after every entry of value at least `v`.
pub open spec fn insert_pos(sorted: Seq<(Seq<char>, i64, i64)>, v: i64) -> nat
    decreases sorted.len(),
{
    if sorted.len() == 0 || sorted[0].1 < v {
        0
    } else {
        1 + insert_pos(sorted.drop_first(), v)
    }
}

/// The entries ordered by decreasing value; entries of equal value keep their
/// order (a stable sort, as `sort_by_key` with `Reverse`).
pub open spec fn sorted_by_value_desc(items: Seq<(Seq<char>, i64, i64)>) -> Seq<
    (Seq<char>, i64, i64),
>
    decreases items.len(),
{
    if items.len() == 0 {
        items
    } else {
        let rest = sorted_by_value_desc(items.drop_last());
        rest.insert(insert_pos(rest, items.last().1) as int, items.last())
    }
}

/// The entries with their shares, before ordering.
pub open spec fn shares_of(counts: Seq<(String, i64)>, total: int) -> Seq<(Seq<char>, i64, i64)> {
    counts.map_values(|c: (String, i64)| (c.0@, c.1, share(c.1 as int, total) as i64))
}

/// The distribution of the counts: shares of the total, largest first.
pub open spec fn distribution_spec(counts: Seq<(String, i64)>) -> Seq<(Seq<char>, i64, i64)> {
    sorted_by_value_desc(shares_of(counts, total_of(counts)))
}

proof fn lemma_insert_pos_bound(sorted: Seq<(Seq<char>, i64, i64)>, v: i64)
    ensures
        insert_pos(sorted, v) <= sorted.len(),
        forall|j: int| 0 <= j < insert_pos(sorted, v) ==> sorted[j].1 >= v,
        insert_pos(sorted, v) < sorted.len() ==> sorted[insert_pos(sorted, v) as int].1 < v,
    decreases sorted.len(),
{
    if sorted.len() > 0 && sorted[0].1 >= v {
        lemma_insert_pos_bound(sorted.drop_first(), v);
        assert forall|j: int| 0 <= j < insert_pos(sorted, v) implies sorted[j].1 >= v by {
            if j > 0 {
                assert(sorted[j] == sorted.drop_first()[j - 1]);
            }
        }
    }
}

/// Inserts `x` in decreasing order of value, after the entries of equal value.
fn insert_by_value_desc(out: &mut Vec<DistributionItem>, x: DistributionItem)
    ensures
        items_view(final(out)@) == items_view(old(out)@).insert(
            insert_pos(items_view(old(out)@), x.value) as int,
            item_view(x),
        ),
{
    let ghost before = items_view(out@);
    let n = out.len();
    let mut k: usize = 0;
    assert(before.subrange(0, n as int) =~= before);
    while k < n && out[k].value >= x.value
        invariant
            n == out@.len(),
            k <= n,
            before == items_view(out@),
            insert_pos(before, x.value) == k + insert_pos(before.subrange(k as int, n as int), x.value),
        decreases n - k,
    {
        let ghost rest = before.subrange(k as int, n as int);
        assert(rest.drop_first() =~= before.subrange(k + 1, n as int));
        assert(rest[0] == item_view(out@[k as int]));
        k = k + 1;
    }
    proof {
        let rest = before.subrange(k as int, n as int);
        if k < n {
            assert(rest[0] == item_view(out@[k as int]));
        }
        assert(insert_pos(rest, x.value) == 0);
        assert(before.subrange(0, n as int) =~= before);
    }
    let ghost xv = item_view(x);
    out.insert(k, x);
    assert(items_view(out@) =~= before.insert(k as int, xv));
}

/// `distribution`: each label's share of the total, largest first.
pub fn distribution(counts: &[(String, i64)]) -> (items: Vec<DistributionItem>)
    requires
        running_sums_fit(counts@),
    ensures
        items_view(items@) == distribution_spec(counts@),
{
    let n = counts.len();
    let mut total: i64 = 0;
    for i in 0..n
        invariant
            n == counts@.len(),
            running_sums_fit(counts@),
            total == total_of(counts@.take(i as int)),
    {
        assert(counts@.take(i + 1).drop_last() =~= counts@.take(i as int));
        assert(i64::MIN <= total_of(counts@.take(i + 1)) <= i64::MAX);
        total = total + counts[i].1;
    }
    assert(counts@.take(n as int) =~= counts@);
    let ghost shares = shares_of(counts@, total as int);
    let mut items: Vec<DistributionItem> = Vec::new();
    for i in 0..n
        invariant
            n == counts@.len(),
            total == total_of(counts@),
            shares == shares_of(counts@, total as int),
            items_view(items@) == sorted_by_value_desc(shares.take(i as int)),
    {
        let value = counts[i].1;
        let percent = if total > 0 {
            percent_of(value, total)
        } else {
            0
        };
        let item = DistributionItem { label: counts[i].0.clone(), value, percent };
        assert(shares.take(i + 1).drop_last() =~= shares.take(i as int));
        assert(shares.take(i + 1).last() == item_view(item));
        insert_by_value_desc(&mut items, item);
    }
    assert(shares.take(n as int) =~= shares);
    items
}

proof fn lemma_sorted_desc(items: Seq<(Seq<char>, i64, i64)>)
    ensures
        sorted_by_value_desc(items).len() == items.len(),
        forall|i: int, j: int|
            0 <= i < j < items.len() ==> sorted_by_value_desc(items)[i].1 >= sorted_by_value_desc(
                items,
            )[j].1,
        sorted_by_value_desc(items).to_multiset() == items.to_multiset(),
    decreases items.len(),
{
    if items.len() > 0 {
        let init = items.drop_last();
        let x = items.last();
        lemma_sorted_desc(init);
        let rest = sorted_by_value_desc(init);
        let k = insert_pos(rest, x.1) as int;
        lemma_insert_pos_bound(rest, x.1);
        let s = rest.insert(k, x);
        assert forall|i: int, j: int| 0 <= i < j < s.len() implies s[i].1 >= s[j].1 by {
            if j < k {
                assert(s[i] == rest[i] && s[j] == rest[j]);
            } else if j == k {
                assert(s[i] == rest[i]);
            } else if i < k {
                assert(s[i] == rest[i] && s[j] == rest[j - 1]);
                if k < rest.len() {
                    assert(rest[k].1 < x.1);
                    assert(rest[i].1 >= rest[j - 1].1 || j - 1 == i);
                }
            } else if i == k {
                assert(s[j] == rest[j - 1]);
                assert(rest[k].1 < x.1);
                assert(rest[k].1 >= rest[j - 1].1 || j - 1 == k);
            } else {
                assert(s[i] == rest[i - 1] && s[j] == rest[j - 1]);
            }
        }
        vstd::seq_lib::to_multiset_insert(rest, k, x);
        vstd::seq_lib::to_multiset_build(init, x);
        assert(items =~= init.push(x));
        assert(items.to_multiset() == init.to_multiset().insert(x));
    }
}

/// A distribution lists every label once per entry, ordered by decreasing
/// value, with the same entries as the counts.
pub proof fn law_distribution_is_ordered_permutation(counts: Seq<(String, i64)>)
    ensures
        distribution_spec(counts).len() == counts.len(),
        forall|i: int, j: int|
            0 <= i < j < counts.len() ==> distribution_spec(counts)[i].1 >= distribution_spec(
                counts,
            )[j].1,
        distribution_spec(counts).to_multiset() == shares_of(counts, total_of(counts)).to_multiset(),
{
    lemma_sorted_desc(shares_of(counts, total_of(counts)));
}

// ---------------------------------------------------------------------------
// Labels, money and metrics
// ---------------------------------------------------------------------------

/// `channel_label`: the display name of a promotion target key.
/// The display name of a promotion target key.
pub open spec fn channel_label_spec(key: Seq<char>) -> Seq<char> {
    if key == "creator"@ {
        "短视频创作者"@
    } else if key == "campus"@ {
        "校园音乐人"@
    } else if key == "brand"@ {
        "品牌营销"@
    } else if key == "media"@ {
        "音乐媒体"@
    } else {
        "其他渠道"@
    }
}

pub fn channel_label(key: &str) -> (label: &'static str)
    ensures
        label@ == channel_label_spec(key@),
{
    if crate::text::str_eq(key, "creator") {
        "短视频创作者"
    } else if crate::text::str_eq(key, "campus") {
        "校园音乐人"
    } else if crate::text::str_eq(key, "brand") {
        "品牌营销"
    } else if crate::text::str_eq(key, "media") {
        "音乐媒体"
    } else {
        "其他渠道"
    }
}

/// The display names of the agent tools in usage charts.
pub open spec fn usage_tool_label(key: Seq<char>) -> Seq<char> {
    if key == "query_business_metrics"@ {
        "业务数据查询"@
    } else if key == "inspect_collaboration_pipeline"@ {
        "合作漏斗分析"@
    } else if key == "search_partners"@ {
        "伙伴检索"@
    } else if key == "recommend_plans"@ {
        "方案推荐"@
    } else if key == "connect_partner"@ {
        "发起合作会话"@
    } else if key == "save_recommended_plan"@ {
        "收藏方案"@
    } else if key == "create_follow_up_task"@ {
        "创建跟进任务"@
    } else {
        key
    }
}

/// `tool_label`: the display name of an agent tool in usage charts.
pub fn tool_label(key: &str) -> (label: String)
    ensures
        label@ == usage_tool_label(key@),
{
    if crate::text::str_eq(key, "query_business_metrics") {
        owned("业务数据查询")
    } else if crate::text::str_eq(key, "inspect_collaboration_pipeline") {
        owned("合作漏斗分析")
    } else if crate::text::str_eq(key, "search_partners") {
        owned("伙伴检索")
    } else if crate::text::str_eq(key, "recommend_plans") {
        owned("方案推荐")
    } else if crate::text::str_eq(key, "connect_partner") {
        owned("发起合作会话")
    } else if crate::text::str_eq(key, "save_recommended_plan") {
        owned("收藏方案")
    } else if crate::text::str_eq(key, "create_follow_up_task") {
        owned("创建跟进任务")
    } else {
        owned(key)
    }
}

/// Yuan and cents of a non-negative amount of cents: `12.34`.
pub open spec fn cents_text(a: nat) -> Seq<char> {
    nat_text(a / 100) + seq!['.', digit_char((a % 100) / 10), digit_char(a % 10)]
}

/// An amount of cents in yuan with two decimals, as `{:.2}` of `cents / 100`
/// prints it: `-0.05`, `12.30`.
pub open spec fn yuan_text(cents: int) -> Seq<char> {
    if cents < 0 {
        seq!['-'] + cents_text((-cents) as nat)
    } else {
        cents_text(cents as nat)
    }
}

/// The magnitude of an `i64`.
pub fn magnitude(x: i64) -> (m: u64)
    ensures
        m as int == (if x < 0 {
            -(x as int)
        } else {
            x as int
        }),
{
    if x >= 0 {
        x as u64
    } else if x == i64::MIN {
        9223372036854775808u64
    } else {
        (-x) as u64
    }
}

/// The text of `cents` in yuan with two decimals.
pub fn yuan_two_decimals(cents: i64) -> (s: String)
    ensures
        s@ == yuan_text(cents as int),
{
    let mut v: Vec<char> = Vec::new();
    if cents < 0 {
        v.push('-');
    }
    let a = magnitude(cents);
    let start = v.len();
    push_nat(&mut v, a / 100);
    v.push('.');
    v.push(digit((a % 100) / 10));
    v.push(digit(a % 10));
    proof {
        let tail = nat_text((a / 100) as nat) + seq![
            '.',
            digit_char(((a % 100) / 10) as nat),
            digit_char((a % 10) as nat),
        ];
        assert(tail == cents_text(a as nat));
        if cents < 0 {
            assert(v@ =~= seq!['-'] + tail);
        } else {
            assert(v@ =~= tail);
        }
    }
    string_from_chars(v.as_slice())
}

/// `format_money`: `¥` and the amount in yuan with two decimals.
pub fn format_money(cents: i64) -> (s: String)
    ensures
        s@ == "¥"@ + yuan_text(cents as int),
{
    let body = yuan_two_decimals(cents);
    crate::text::concat2("¥", body.as_str())
}

/// A headline metric.
pub struct Metric {
    pub key: String,
    pub label: String,
    pub value: i64,
    pub display_value: String,
    pub change: i64,
}

/// `metric`: a headline metric from its parts.
pub fn metric(key: &str, label: &str, value: i64, display_value: String, change: i64) -> (m:
    Metric)
    ensures
        m.key@ == key@,
        m.label@ == label@,
        m.value == value,
        m.display_value == display_value,
        m.change == change,
{
    Metric { key: owned(key), label: owned(label), value, display_value, change }
}


// ---------------------------------------------------------------------------
// Channel counts
// ---------------------------------------------------------------------------

/// The channel labels of the target keys of each demand, in order; a demand
/// whose stored keys are no JSON list contributes none.
pub open spec fn row_labels(rows: Seq<Seq<char>>) -> Seq<Seq<char>>
    decreases rows.len(),
{
    if rows.len() == 0 {
        Seq::empty()
    } else {
        row_labels(rows.drop_last()) + crate::json::string_list_or_empty(rows.last()).map_values(
            |k: Seq<char>| channel_label_spec(k),
        )
    }
}

/// The index of the first entry counting `label`, or `-1`.
pub open spec fn find_label(tally: Seq<(Seq<char>, int)>, label: Seq<char>) -> int
    decreases tally.len(),
{
    if tally.len() == 0 {
        -1
    } else if find_label(tally.drop_last(), label) >= 0 {
        find_label(tally.drop_last(), label)
    } else if tally.last().0 == label {
        tally.len() - 1
    } else {
        -1
    }
}

/// A count increased by one, stopping at `i64::MAX`.
pub open spec fn bumped(count: int) -> int {
    if count < i64::MAX {
        count + 1
    } else {
        count
    }
}

/// The tally with one more occurrence of `label`.
pub open spec fn bump(tally: Seq<(Seq<char>, int)>, label: Seq<char>) -> Seq<(Seq<char>, int)> {
    let j = find_label(tally, label);
    if j >= 0 {
        tally.update(j, (label, bumped(tally[j].1)))
    } else {
        tally.push((label, 1))
    }
}

/// Each distinct label with its number of occurrences, in order of first
/// occurrence.
pub open spec fn tally_of(labels: Seq<Seq<char>>) -> Seq<(Seq<char>, int)>
    decreases labels.len(),
{
    if labels.len() == 0 {
        Seq::empty()
    } else {
        bump(tally_of(labels.drop_last()), labels.last())
    }
}

/// The view of counted labels.
pub open spec fn counts_view(counts: Seq<(String, i64)>) -> Seq<(Seq<char>, int)> {
    counts.map_values(|c: (String, i64)| (c.0@, c.1 as int))
}

proof fn lemma_find_label_first(tally: Seq<(Seq<char>, int)>, label: Seq<char>, k: int)
    requires
        -1 <= k < tally.len(),
        k >= 0 ==> tally[k].0 == label,
        forall|j: int| 0 <= j < tally.len() && (k < 0 || j < k) ==> tally[j].0 != label,
    ensures
        find_label(tally, label) == k,
    decreases tally.len(),
{
    if tally.len() > 0 {
        let init = tally.drop_last();
        if k == tally.len() - 1 {
            lemma_find_label_first(init, label, -1);
        } else {
            lemma_find_label_first(init, label, k);
        }
    }
}

/// Adds one occurrence of `label` to the counts.
fn add_label(counts: &mut Vec<(String, i64)>, label: &str)
    ensures
        counts_view(final(counts)@) == bump(counts_view(old(counts)@), label@),
{
    let ghost before = counts_view(counts@);
    let n = counts.len();
    for j in 0..n
        invariant
            n == counts@.len(),
            counts@ == old(counts)@,
            before == counts_view(counts@),
            forall|i: int| 0 <= i < j ==> (#[trigger] before[i]).0 != label@,
    {
        if crate::text::str_eq(counts[j].0.as_str(), label) {
            proof {
                lemma_find_label_first(before, label@, j as int);
            }
            let c = counts[j].1;
            let next = if c < i64::MAX {
                c + 1
            } else {
                c
            };
            let name = counts[j].0.clone();
            counts.set(j, (name, next));
            assert(counts_view(counts@) =~= before.update(j as int, (label@, bumped(before[j as int].1))));
            return;
        }
    }
    proof {
        lemma_find_label_first(before, label@, -1);
    }
    counts.push((owned(label), 1));
    assert(counts_view(counts@) =~= before.push((label@, 1)));
}

/// `user_channels`' counts: how often each channel was targeted by the
/// user's demands, given the stored target keys of each demand; a count
/// stops at `i64::MAX`.
pub fn channel_counts(rows: &Vec<String>) -> (counts: Vec<(String, i64)>)
    ensures
        counts_view(counts@) == tally_of(row_labels(crate::agent::texts(rows@))),
{
    let ghost all = crate::agent::texts(rows@);
    let mut counts: Vec<(String, i64)> = Vec::new();
    let n = rows.len();
    for i in 0..n
        invariant
            n == rows@.len(),
            all == crate::agent::texts(rows@),
            counts_view(counts@) == tally_of(row_labels(all.take(i as int))),
    {
        let keys = crate::json::parse_string_list(rows[i].as_str());
        let ghost done = row_labels(all.take(i as int));
        let ghost labels = crate::agent::texts(keys@).map_values(|k: Seq<char>| channel_label_spec(k));
        assert(all.take(i + 1).drop_last() =~= all.take(i as int));
        assert(all.take(i + 1).last() == rows@[i as int]@);
        let m = keys.len();
        for k in 0..m
            invariant
                m == keys@.len(),
                labels == crate::agent::texts(keys@).map_values(|k: Seq<char>| channel_label_spec(k)),
                counts_view(counts@) == tally_of(done + labels.take(k as int)),
        {
            let label = channel_label(keys[k].as_str());
            add_label(&mut counts, label);
            assert((done + labels.take(k + 1)).drop_last() =~= done + labels.take(k as int));
            assert((done + labels.take(k + 1)).last() == labels[k as int]);
        }
        assert(labels.take(m as int) =~= labels);
        assert(row_labels(all.take(i + 1)) == done + labels);
    }
    assert(all.take(n as int) =~= all);
    counts
}

// ---------------------------------------------------------------------------
// Overview assembly
// ---------------------------------------------------------------------------

/// The next step the user overview recommends.
pub struct Opportunity {
    pub score: i64,
    pub title: String,
    pub description: String,
    pub action: String,
}

/// The engagement score: 55 plus weighted activity, capped to `[55, 98]`.
pub open spec fn engagement_score(matches: int, connections: int, saved: int) -> int {
    clamp(55 + matches * 6 + connections * 8 + saved * 3, 55, 98)
}

/// The steps of the score's sum each fit an `i64`.
pub open spec fn score_fits(matches: int, connections: int, saved: int) -> bool {
    &&& i64::MIN <= matches * 6 <= i64::MAX
    &&& i64::MIN <= connections * 8 <= i64::MAX
    &&& i64::MIN <= saved * 3 <= i64::MAX
    &&& i64::MIN <= 55 + matches * 6 <= i64::MAX
    &&& i64::MIN <= 55 + matches * 6 + connections * 8 <= i64::MAX
    &&& i64::MIN <= 55 + matches * 6 + connections * 8 + saved * 3 <= i64::MAX
}

/// The opportunity's texts: first match, first conversation, or scaling the
/// most used channel.
pub open spec fn opportunity_texts(matches: int, connections: int, top_channel: Option<Seq<char>>) -> (
    Seq<char>,
    Seq<char>,
    Seq<char>,
) {
    if matches == 0 {
        (
            "生成第一份 AI 推广阵容"@,
            "补充目标和预算后，Agent 可自动查询并组合推广资源。"@,
            "开始 AI 匹配"@,
        )
    } else if connections == 0 {
        (
            "优先建立首个合作会话"@,
            "高匹配伙伴已经就绪，主动沟通能显著提升方案落地率。"@,
            "去找合作"@,
        )
    } else {
        (
            "扩大高转化渠道投入"@,
            match top_channel {
                Some(label) => label + "是当前使用最多的渠道，可继续验证规模化效果。"@,
                None => "持续积累合作数据后，Agent 会自动识别高转化渠道。"@,
            },
            "询问 AI Agent"@,
        )
    }
}

/// The engagement score stays between 55 and 98 and, inside that band, is
/// 55 plus six points per demand, eight per conversation and three per
/// saved plan; more activity never lowers it.
pub proof fn law_engagement_score_band(m: int, c: int, s: int, m2: int, c2: int, s2: int)
    ensures
        55 <= engagement_score(m, c, s) <= 98,
        55 <= 55 + 6 * m + 8 * c + 3 * s <= 98 ==> engagement_score(m, c, s) == 55 + 6 * m + 8 * c
            + 3 * s,
        55 + 6 * m + 8 * c + 3 * s < 55 ==> engagement_score(m, c, s) == 55,
        55 + 6 * m + 8 * c + 3 * s > 98 ==> engagement_score(m, c, s) == 98,
        m <= m2 && c <= c2 && s <= s2 ==> engagement_score(m, c, s) <= engagement_score(m2, c2, s2),
{
}

/// The opportunity hint follows the user's progress: with no demand yet it
/// proposes a first AI line-up, with demands but no conversation a first
/// conversation, and otherwise scaling the channel that works, naming the
/// most used channel where there is one.
pub proof fn law_opportunity_follows_progress(
    matches: int,
    connections: int,
    top_channel: Option<Seq<char>>,
)
    ensures
        matches == 0 ==> opportunity_texts(matches, connections, top_channel).0
            == "生成第一份 AI 推广阵容"@ && opportunity_texts(matches, connections, top_channel).2
            == "开始 AI 匹配"@,
        matches != 0 && connections == 0 ==> opportunity_texts(matches, connections, top_channel).0
            == "优先建立首个合作会话"@ && opportunity_texts(matches, connections, top_channel).2
            == "去找合作"@,
        matches != 0 && connections != 0 ==> opportunity_texts(matches, connections, top_channel).0
            == "扩大高转化渠道投入"@ && opportunity_texts(matches, connections, top_channel).2
            == "询问 AI Agent"@,
        matches != 0 && connections != 0 && top_channel is Some ==> has_prefix(
            opportunity_texts(matches, connections, top_channel).1,
            top_channel->0,
        ),
{
    if matches != 0 && connections != 0 {
        if let Some(label) = top_channel {
            let d = opportunity_texts(matches, connections, top_channel).1;
            assert(d.subrange(0, label.len() as int) =~= label);
        }
    }
}

/// `user_overview`'s opportunity from the user's activity and the label of
/// the most used channel, if any.
pub fn opportunity(matches: i64, connections: i64, saved: i64, top_channel: Option<&str>) -> (o:
    Opportunity)
    requires
        score_fits(matches as int, connections as int, saved as int),
    ensures
        o.score == engagement_score(matches as int, connections as int, saved as int),
        (o.title@, o.description@, o.action@) == opportunity_texts(
            matches as int,
            connections as int,
            match top_channel {
                Some(l) => Some(l@),
                None => None,
            },
        ),
{
    let raw = 55 + matches * 6 + connections * 8 + saved * 3;
    let score = if raw < 55 {
        55
    } else if raw > 98 {
        98
    } else {
        raw
    };
    if matches == 0 {
        Opportunity {
            score,
            title: owned("生成第一份 AI 推广阵容"),
            description: owned("补充目标和预算后，Agent 可自动查询并组合推广资源。"),
            action: owned("开始 AI 匹配"),
        }
    } else if connections == 0 {
        Opportunity {
            score,
            title: owned("优先建立首个合作会话"),
            description: owned("高匹配伙伴已经就绪，主动沟通能显著提升方案落地率。"),
            action: owned("去找合作"),
        }
    } else {
        let description = match top_channel {
            Some(label) => crate::text::concat2(label, "是当前使用最多的渠道，可继续验证规模化效果。"),
            None => owned("持续积累合作数据后，Agent 会自动识别高转化渠道。"),
        };
        Opportunity {
            score,
            title: owned("扩大高转化渠道投入"),
            description,
            action: owned("询问 AI Agent"),
        }
    }
}

/// The user overview's funnel: available partners, matches, conversations,
/// completed settlements, each converted from the stage before.
pub fn user_funnel(discovered: i64, matches: i64, connections: i64, completed: i64) -> (stages: Vec<
    FunnelStage,
>)
    ensures
        stages@.len() == 4,
        stages@[0].label@ == "可用伙伴池"@ && stages@[0].value == discovered
            && stages@[0].conversion == funnel_conversion(discovered as int, discovered as int),
        stages@[1].label@ == "发起匹配"@ && stages@[1].value == matches && stages@[1].conversion
            == funnel_conversion(matches as int, discovered as int),
        stages@[2].label@ == "建立沟通"@ && stages@[2].value == connections
            && stages@[2].conversion == funnel_conversion(connections as int, matches as int),
        stages@[3].label@ == "完成结算"@ && stages@[3].value == completed
            && stages@[3].conversion == funnel_conversion(completed as int, connections as int),
{
    let mut stages: Vec<FunnelStage> = Vec::new();
    stages.push(funnel("可用伙伴池", discovered, discovered));
    stages.push(funnel("发起匹配", matches, discovered));
    stages.push(funnel("建立沟通", connections, matches));
    stages.push(funnel("完成结算", completed, connections));
    stages
}

/// The administrator overview's funnel: users, engaged users, users in
/// conversation, users with a completed settlement.
pub fn admin_funnel(users: i64, engaged: i64, connected: i64, settled: i64) -> (stages: Vec<
    FunnelStage,
>)
    ensures
        stages@.len() == 4,
        stages@[0].label@ == "注册用户"@ && stages@[0].value == users && stages@[0].conversion
            == funnel_conversion(users as int, users as int),
        stages@[1].label@ == "产生业务行为"@ && stages@[1].value == engaged
            && stages@[1].conversion == funnel_conversion(engaged as int, users as int),
        stages@[2].label@ == "建立会话"@ && stages@[2].value == connected
            && stages@[2].conversion == funnel_conversion(connected as int, engaged as int),
        stages@[3].label@ == "完成结算"@ && stages@[3].value == settled
            && stages@[3].conversion == funnel_conversion(settled as int, connected as int),
{
    let mut stages: Vec<FunnelStage> = Vec::new();
    stages.push(funnel("注册用户", users, users));
    stages.push(funnel("产生业务行为", engaged, users));
    stages.push(funnel("建立会话", connected, engaged));
    stages.push(funnel("完成结算", settled, connected));
    stages
}

/// The view of a metric: key, label, value, display and change.
pub open spec fn metric_view(m: Metric) -> (Seq<char>, Seq<char>, i64, Seq<char>, i64) {
    (m.key@, m.label@, m.value, m.display_value@, m.change)
}

/// The user overview's headline metrics; matches show their growth over the
/// week before.
pub fn user_metrics(
    matches: i64,
    connections: i64,
    saved: i64,
    revenue: i64,
    recent_matches: i64,
    previous_matches: i64,
) -> (metrics: Vec<Metric>)
    requires
        previous_matches != 0 ==> i64::MIN <= recent_matches - previous_matches <= i64::MAX,
    ensures
        metrics@.map_values(|m: Metric| metric_view(m)) == seq![
            ("matches"@, "智能匹配"@, matches, crate::text::int_text(matches as int), growth_spec(recent_matches as int, previous_matches as int) as i64),
            ("connections"@, "合作会话"@, connections, crate::text::int_text(connections as int), 0i64),
            ("saved"@, "收藏方案"@, saved, crate::text::int_text(saved as int), 0i64),
            ("revenue"@, "累计收益"@, revenue, "¥"@ + yuan_text(revenue as int), 0i64),
        ],
{
    let change = growth(recent_matches, previous_matches);
    let mut metrics: Vec<Metric> = Vec::new();
    metrics.push(metric("matches", "智能匹配", matches, int_to_string(matches), change));
    metrics.push(metric("connections", "合作会话", connections, int_to_string(connections), 0));
    metrics.push(metric("saved", "收藏方案", saved, int_to_string(saved), 0));
    metrics.push(metric("revenue", "累计收益", revenue, format_money(revenue), 0));
    assert(metrics@.map_values(|m: Metric| metric_view(m)) =~= seq![
        ("matches"@, "智能匹配"@, matches, crate::text::int_text(matches as int), growth_spec(recent_matches as int, previous_matches as int) as i64),
        ("connections"@, "合作会话"@, connections, crate::text::int_text(connections as int), 0i64),
        ("saved"@, "收藏方案"@, saved, crate::text::int_text(saved as int), 0i64),
        ("revenue"@, "累计收益"@, revenue, "¥"@ + yuan_text(revenue as int), 0i64),
    ]);
    metrics
}

/// The administrator overview's headline metrics.
pub fn admin_metrics(
    users: i64,
    partners: i64,
    matches: i64,
    agent_calls: i64,
    connections: i64,
    revenue: i64,
) -> (metrics: Vec<Metric>)
    ensures
        metrics@.map_values(|m: Metric| metric_view(m)) == seq![
            ("users"@, "累计用户"@, users, crate::text::int_text(users as int), 0i64),
            ("partners"@, "活跃合作方"@, partners, crate::text::int_text(partners as int), 0i64),
            ("matches"@, "AI 匹配请求"@, matches, crate::text::int_text(matches as int), 0i64),
            ("agentCalls"@, "Agent 工具调用"@, agent_calls, crate::text::int_text(agent_calls as int), 0i64),
            ("connections"@, "合作会话"@, connections, crate::text::int_text(connections as int), 0i64),
            ("revenue"@, "完成交易额"@, revenue, "¥"@ + yuan_text(revenue as int), 0i64),
        ],
{
    let mut metrics: Vec<Metric> = Vec::new();
    metrics.push(metric("users", "累计用户", users, int_to_string(users), 0));
    metrics.push(metric("partners", "活跃合作方", partners, int_to_string(partners), 0));
    metrics.push(metric("matches", "AI 匹配请求", matches, int_to_string(matches), 0));
    metrics.push(metric("agentCalls", "Agent 工具调用", agent_calls, int_to_string(agent_calls), 0));
    metrics.push(metric("connections", "合作会话", connections, int_to_string(connections), 0));
    metrics.push(metric("revenue", "完成交易额", revenue, format_money(revenue), 0));
    assert(metrics@.map_values(|m: Metric| metric_view(m)) =~= seq![
        ("users"@, "累计用户"@, users, crate::text::int_text(users as int), 0i64),
        ("partners"@, "活跃合作方"@, partners, crate::text::int_text(partners as int), 0i64),
        ("matches"@, "AI 匹配请求"@, matches, crate::text::int_text(matches as int), 0i64),
        ("agentCalls"@, "Agent 工具调用"@, agent_calls, crate::text::int_text(agent_calls as int), 0i64),
        ("connections"@, "合作会话"@, connections, crate::text::int_text(connections as int), 0i64),
        ("revenue"@, "完成交易额"@, revenue, "¥"@ + yuan_text(revenue as int), 0i64),
    ]);
    metrics
}

/// The partner mix label of a partner type.
pub fn partner_type_label(partner_type: &str) -> (label: &'static str)
    ensures
        label@ == (if partner_type@ == "provider"@ {
            "推广服务方"@
        } else {
            "音乐创作者"@
        }),
{
    if crate::text::str_eq(partner_type, "provider") {
        "推广服务方"
    } else {
        "音乐创作者"
    }
}

// ---------------------------------------------------------------------------
// Daily trends
// ---------------------------------------------------------------------------

/// The text chrono prints for the UTC day of the timestamp `seconds` under
/// the format `pattern`.
pub uninterp spec fn utc_day_text(seconds: int, pattern: Seq<char>) -> Seq<char>;

/// `DateTime::from_timestamp(seconds, 0)` and the `format(pattern)` of its
/// date: `Some` exactly for a timestamp chrono can hold, with the name's text.
/// The two patterns used here format every such date.
#[verifier::external_body]
fn format_utc_day(seconds: i64, pattern: &str) -> (r: Option<String>)
    requires
        pattern@ == "%Y-%m-%d"@ || pattern@ == "%m/%d"@,
    ensures
        r is Some == chrono_timestamp(seconds as int),
        r matches Some(t) ==> t@ == utc_day_text(seconds as int, pattern@),
{
    chrono::DateTime::from_timestamp(seconds, 0).map(|t| t.date_naive().format(pattern).to_string())
}

/// The count a grouped query gave for `day`: that of the last row for the
/// day, or none.
pub open spec fn day_count(rows: Seq<(String, i64)>, day: Seq<char>) -> int
    decreases rows.len(),
{
    if rows.len() == 0 {
        0
    } else if rows.last().0@ == day {
        rows.last().1 as int
    } else {
        day_count(rows.drop_last(), day)
    }
}

/// `rows_to_map(rows).get(day)`, or zero.
pub fn count_for_day(rows: &[(String, i64)], day: &str) -> (n: i64)
    ensures
        n == day_count(rows@, day@),
{
    let mut i = rows.len();
    assert(rows@.take(i as int) =~= rows@);
    while i > 0
        invariant
            i <= rows@.len(),
            day_count(rows@, day@) == day_count(rows@.take(i as int), day@),
        decreases i,
    {
        let ghost pre = rows@.take(i as int);
        assert(pre.drop_last() =~= rows@.take(i - 1));
        if crate::text::str_eq(rows[i - 1].0.as_str(), day) {
            return rows[i - 1].1;
        }
        i = i - 1;
    }
    0
}

/// The timestamp of the `i`-th of `days` days ending at `now`, oldest first.
pub open spec fn trend_second(now: int, days: int, i: int) -> int {
    now - (days - 1 - i) * 86_400
}

/// The key and the label of a trend day.
pub open spec fn trend_day_texts(now: int, days: int, i: int) -> (Seq<char>, Seq<char>) {
    (
        utc_day_text(trend_second(now, days, i), "%Y-%m-%d"@),
        utc_day_text(trend_second(now, days, i), "%m/%d"@),
    )
}

/// The days of a trend ending at `now`, oldest first, as `(date, label)`.
pub fn trend_days(now: i64, days: u64) -> (r: Vec<(String, String)>)
    requires
        0 <= now,
        chrono_timestamp(now as int),
        days <= 14,
    ensures
        r@.len() == days,
        forall|i: int|
            0 <= i < days ==> (#[trigger] r@[i]).0@ == trend_day_texts(now as int, days as int, i).0
                && r@[i].1@ == trend_day_texts(now as int, days as int, i).1,
{
    let mut r: Vec<(String, String)> = Vec::new();
    let mut i: u64 = 0;
    while i < days
        invariant
            0 <= now,
            chrono_timestamp(now as int),
            days <= 14,
            i <= days,
            r@.len() == i,
            forall|j: int|
                0 <= j < i ==> (#[trigger] r@[j]).0@ == trend_day_texts(now as int, days as int, j).0
                    && r@[j].1@ == trend_day_texts(now as int, days as int, j).1,
        decreases days - i,
    {
        let back: i64 = ((days - 1 - i) as i64) * 86_400;
        let second = now - back;
        assert(second == trend_second(now as int, days as int, i as int));
        let date = match format_utc_day(second, "%Y-%m-%d") {
            Some(t) => t,
            None => owned(""),
        };
        let label = match format_utc_day(second, "%m/%d") {
            Some(t) => t,
            None => owned(""),
        };
        r.push((date, label));
        i = i + 1;
    }
    r
}

/// A day of the user's trend.
pub struct UserTrendPoint {
    pub date: String,
    pub label: String,
    pub matches: i64,
    pub connections: i64,
}

/// The user's seven-day trend at `now`: for each day, oldest first, its date
/// and label and the grouped counts for that date (zero where none).
pub open spec fn user_trend_at_spec(
    t: Seq<UserTrendPoint>,
    now: int,
    matches: Seq<(String, i64)>,
    connections: Seq<(String, i64)>,
) -> bool {
    &&& t.len() == 7
    &&& forall|i: int|
        0 <= i < 7 ==> {
            &&& (#[trigger] t[i]).date@ == trend_day_texts(now, 7, i).0
            &&& t[i].label@ == trend_day_texts(now, 7, i).1
            &&& t[i].matches == day_count(matches, t[i].date@)
            &&& t[i].connections == day_count(connections, t[i].date@)
        }
}

/// `user_trend`'s days at the time `now`.
pub fn user_trend_at(now: i64, matches: &[(String, i64)], connections: &[(String, i64)]) -> (t: Vec<
    UserTrendPoint,
>)
    requires
        0 <= now,
        chrono_timestamp(now as int),
    ensures
        user_trend_at_spec(t@, now as int, matches@, connections@),
{
    let days = trend_days(now, 7);
    let mut t: Vec<UserTrendPoint> = Vec::new();
    for i in 0..7
        invariant
            days@.len() == 7,
            forall|j: int|
                0 <= j < 7 ==> (#[trigger] days@[j]).0@ == trend_day_texts(now as int, 7, j).0
                    && days@[j].1@ == trend_day_texts(now as int, 7, j).1,
            t@.len() == i,
            forall|j: int|
                0 <= j < i ==> {
                    &&& (#[trigger] t@[j]).date@ == trend_day_texts(now as int, 7, j).0
                    &&& t@[j].label@ == trend_day_texts(now as int, 7, j).1
                    &&& t@[j].matches == day_count(matches@, t@[j].date@)
                    &&& t@[j].connections == day_count(connections@, t@[j].date@)
                },
    {
        let date = days[i].0.clone();
        let label = days[i].1.clone();
        let m = count_for_day(matches, date.as_str());
        let c = count_for_day(connections, date.as_str());
        t.push(UserTrendPoint { date, label, matches: m, connections: c });
    }
    t
}

/// `user_trend`: the last seven days up to now, with the user's grouped
/// demand and connection counts; the days depend on the clock.
pub fn user_trend(matches: &[(String, i64)], connections: &[(String, i64)]) -> (t: Vec<
    UserTrendPoint,
>)
    ensures
        exists|now: int|
            0 <= now && chrono_timestamp(now) && user_trend_at_spec(t@, now, matches@, connections@),
{
    let now = now_seconds();
    user_trend_at(now, matches, connections)
}

/// A day of the platform's trend.
pub struct AdminTrendPoint {
    pub date: String,
    pub label: String,
    pub users: i64,
    pub matches: i64,
    pub connections: i64,
    pub revenue: i64,
}

/// The platform's fourteen-day trend at `now`, built as the user's.
pub open spec fn admin_trend_at_spec(
    t: Seq<AdminTrendPoint>,
    now: int,
    users: Seq<(String, i64)>,
    matches: Seq<(String, i64)>,
    connections: Seq<(String, i64)>,
    revenue: Seq<(String, i64)>,
) -> bool {
    &&& t.len() == 14
    &&& forall|i: int|
        0 <= i < 14 ==> {
            &&& (#[trigger] t[i]).date@ == trend_day_texts(now, 14, i).0
            &&& t[i].label@ == trend_day_texts(now, 14, i).1
            &&& t[i].users == day_count(users, t[i].date@)
            &&& t[i].matches == day_count(matches, t[i].date@)
            &&& t[i].connections == day_count(connections, t[i].date@)
            &&& t[i].revenue == day_count(revenue, t[i].date@)
        }
}

/// `admin_trend`'s days at the time `now`.
pub fn admin_trend_at(
    now: i64,
    users: &[(String, i64)],
    matches: &[(String, i64)],
    connections: &[(String, i64)],
    revenue: &[(String, i64)],
) -> (t: Vec<AdminTrendPoint>)
    requires
        0 <= now,
        chrono_timestamp(now as int),
    ensures
        admin_trend_at_spec(t@, now as int, users@, matches@, connections@, revenue@),
{
    let days = trend_days(now, 14);
    let mut t: Vec<AdminTrendPoint> = Vec::new();
    for i in 0..14
        invariant
            days@.len() == 14,
            forall|j: int|
                0 <= j < 14 ==> (#[trigger] days@[j]).0@ == trend_day_texts(now as int, 14, j).0
                    && days@[j].1@ == trend_day_texts(now as int, 14, j).1,
            t@.len() == i,
            forall|j: int|
                0 <= j < i ==> {
                    &&& (#[trigger] t@[j]).date@ == trend_day_texts(now as int, 14, j).0
                    &&& t@[j].label@ == trend_day_texts(now as int, 14, j).1
                    &&& t@[j].users == day_count(users@, t@[j].date@)
                    &&& t@[j].matches == day_count(matches@, t@[j].date@)
                    &&& t@[j].connections == day_count(connections@, t@[j].date@)
                    &&& t@[j].revenue == day_count(revenue@, t@[j].date@)
                },
    {
        let date = days[i].0.clone();
        let label = days[i].1.clone();
        let u = count_for_day(users, date.as_str());
        let m = count_for_day(matches, date.as_str());
        let c = count_for_day(connections, date.as_str());
        let v = count_for_day(revenue, date.as_str());
        t.push(AdminTrendPoint { date, label, users: u, matches: m, connections: c, revenue: v });
    }
    t
}

/// `admin_trend`: the last fourteen days up to now, with the platform's
/// grouped counts; the days depend on the clock.
pub fn admin_trend(
    users: &[(String, i64)],
    matches: &[(String, i64)],
    connections: &[(String, i64)],
    revenue: &[(String, i64)],
) -> (t: Vec<AdminTrendPoint>)
    ensures
        exists|now: int|
            0 <= now && chrono_timestamp(now) && admin_trend_at_spec(
                t@,
                now,
                users@,
                matches@,
                connections@,
                revenue@,
            ),
{
    let now = now_seconds();
    admin_trend_at(now, users, matches, connections, revenue)
}

} // verus!
