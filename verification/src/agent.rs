//! The agent's local tool orchestration: which registered tools a prompt
//! asks for, and the guards that keep write tools from running on negated or
//! merely informational requests.
use vstd::prelude::*;
use crate::text::{
    chars_of, contains_chars, is_substring, occurs_at, occurs_at_exec, str_eq,
};

verus! {

/// A registered agent tool, as loaded from the tool table.
pub struct RuntimeTool {
    pub name: String,
    pub label: String,
    pub description: String,
    /// `"read"` for query tools; anything else is treated as a write tool.
    pub mode: String,
    pub keywords: Vec<String>,
    pub blocked_keywords: Vec<String>,
    pub keyword_groups: Vec<Vec<String>>,
    pub required_tools: Vec<String>,
}

// ---------------------------------------------------------------------------
// Specification of intent matching
// ---------------------------------------------------------------------------

/// Some keyword of `keywords` occurs in `text`.
pub open spec fn contains_any_spec(text: Seq<char>, keywords: Seq<String>) -> bool {
    exists|i: int| 0 <= i < keywords.len() && is_substring(keywords[i]@, text)
}

/// A keyword group matches when it is non-empty and all its keywords occur.
pub open spec fn group_matches(text: Seq<char>, group: Seq<String>) -> bool {
    &&& group.len() > 0
    &&& forall|j: int| 0 <= j < group.len() ==> is_substring(#[trigger] group[j]@, text)
}

/// Some keyword group of `groups` matches `text`.
pub open spec fn any_group_matches(text: Seq<char>, groups: Seq<Vec<String>>) -> bool {
    exists|i: int| 0 <= i < groups.len() && group_matches(text, #[trigger] groups[i]@)
}

/// The words that, shortly before a verb, turn an action request into a
/// refusal or a question.
pub open spec fn negation_words() -> Seq<Seq<char>> {
    seq![
        "不要"@, "别"@, "无需"@, "不必"@, "暂不"@, "先不"@, "请勿"@, "禁止"@, "取消"@,
        "怎么"@, "如何"@, "能否"@, "是否"@, "可否"@, "该不该"@,
    ]
}

/// The (at most) ten characters right before position `m`.
pub open spec fn recent_window(text: Seq<char>, m: int) -> Seq<char> {
    text.subrange(if m >= 10 { m - 10 } else { 0 }, m)
}

/// An occurrence at `m` is negated: a negation word, or a trailing `不`,
/// stands in the ten characters before it.
pub open spec fn negated_at(text: Seq<char>, m: int) -> bool {
    let recent = recent_window(text, m);
    ||| exists|w: int| 0 <= w < negation_words().len() && is_substring(negation_words()[w], recent)
    ||| (recent.len() > 0 && recent.last() == '不')
}

/// How far a left-to-right, non-overlapping search moves past a match of `verb`.
pub open spec fn match_step(verb: Seq<char>) -> int {
    if verb.len() == 0 {
        1
    } else {
        verb.len() as int
    }
}

/// Some non-overlapping occurrence of `verb` found scanning from `start`
/// (the occurrences `str::match_indices` yields) is negated.
pub open spec fn verb_negated_from(text: Seq<char>, verb: Seq<char>, start: int) -> bool
    decreases text.len() + 1 - start,
{
    if start < 0 || start + verb.len() > text.len() {
        false
    } else if occurs_at(text, verb, start) {
        negated_at(text, start) || verb_negated_from(text, verb, start + match_step(verb))
    } else {
        verb_negated_from(text, verb, start + 1)
    }
}

/// A write action is blocked when the prompt is informational, or when some
/// occurrence of one of its verbs is negated.
pub open spec fn action_blocked_spec(
    text: Seq<char>,
    verbs: Seq<String>,
    informational: Seq<String>,
) -> bool {
    ||| contains_any_spec(text, informational)
    ||| exists|v: int| 0 <= v < verbs.len() && verb_negated_from(text, #[trigger] verbs[v]@, 0)
}

/// Whether `tool` answers `prompt`.
pub open spec fn tool_matches_spec(tool: RuntimeTool, prompt: Seq<char>) -> bool {
    if contains_any_spec(prompt, tool.blocked_keywords@) {
        false
    } else if tool.mode@ == "read"@ {
        contains_any_spec(prompt, tool.keywords@) || any_group_matches(prompt, tool.keyword_groups@)
    } else {
        any_group_matches(prompt, tool.keyword_groups@) && !action_blocked_spec(
            prompt,
            tool.keywords@,
            tool.blocked_keywords@,
        )
    }
}

// ---------------------------------------------------------------------------
// Intent matching
// ---------------------------------------------------------------------------

/// Whether some keyword occurs in the text.
pub fn contains_any_chars(text: &[char], keywords: &[String]) -> (r: bool)
    ensures
        r == contains_any_spec(text@, keywords@),
{
    let n = keywords.len();
    for i in 0..n
        invariant
            n == keywords@.len(),
            forall|j: int| 0 <= j < i ==> !is_substring(keywords@[j]@, text@),
    {
        let k = chars_of(keywords[i].as_str());
        if contains_chars(text, k.as_slice()) {
            return true;
        }
    }
    false
}

/// `contains_any`: whether some keyword occurs in `value`.
pub fn contains_any(value: &str, keywords: &[String]) -> (r: bool)
    ensures
        r == contains_any_spec(value@, keywords@),
{
    let v = chars_of(value);
    contains_any_chars(v.as_slice(), keywords)
}

/// Whether a keyword group matches the text.
pub fn group_matches_exec(text: &[char], group: &[String]) -> (r: bool)
    ensures
        r == group_matches(text@, group@),
{
    if group.len() == 0 {
        return false;
    }
    let n = group.len();
    for i in 0..n
        invariant
            n == group@.len(),
            forall|j: int| 0 <= j < i ==> is_substring(#[trigger] group@[j]@, text@),
    {
        let k = chars_of(group[i].as_str());
        if !contains_chars(text, k.as_slice()) {
            return false;
        }
    }
    true
}

/// Whether some keyword group matches the text.
pub fn any_group_matches_exec(text: &[char], groups: &[Vec<String>]) -> (r: bool)
    ensures
        r == any_group_matches(text@, groups@),
{
    let n = groups.len();
    for i in 0..n
        invariant
            n == groups@.len(),
            forall|j: int| 0 <= j < i ==> !group_matches(text@, #[trigger] groups@[j]@),
    {
        if group_matches_exec(text, groups[i].as_slice()) {
            return true;
        }
    }
    false
}

/// The negation words, in order.
fn negation_word_list() -> (r: Vec<Vec<char>>)
    ensures
        r@.len() == negation_words().len(),
        forall|i: int| 0 <= i < r@.len() ==> (#[trigger] r@[i])@ == negation_words()[i],
{
    let mut r: Vec<Vec<char>> = Vec::new();
    r.push(chars_of("不要"));
    r.push(chars_of("别"));
    r.push(chars_of("无需"));
    r.push(chars_of("不必"));
    r.push(chars_of("暂不"));
    r.push(chars_of("先不"));
    r.push(chars_of("请勿"));
    r.push(chars_of("禁止"));
    r.push(chars_of("取消"));
    r.push(chars_of("怎么"));
    r.push(chars_of("如何"));
    r.push(chars_of("能否"));
    r.push(chars_of("是否"));
    r.push(chars_of("可否"));
    r.push(chars_of("该不该"));
    r
}

/// Whether the occurrence at `m` is negated.
fn negated_at_exec(text: &[char], m: usize) -> (r: bool)
    requires
        m <= text@.len(),
    ensures
        r == negated_at(text@, m as int),
{
    let from: usize = if m >= 10 {
        m - 10
    } else {
        0
    };
    let mut recent: Vec<char> = Vec::new();
    let mut k: usize = from;
    while k < m
        invariant
            from <= k <= m <= text@.len(),
            recent@ == text@.subrange(from as int, k as int),
        decreases m - k,
    {
        recent.push(text[k]);
        assert(text@.subrange(from as int, k + 1) =~= text@.subrange(from as int, k as int).push(
            text@[k as int],
        ));
        k = k + 1;
    }
    assert(recent@ == recent_window(text@, m as int));
    let words = negation_word_list();
    let nw = words.len();
    for w in 0..nw
        invariant
            nw == words@.len(),
            nw == negation_words().len(),
            forall|i: int| 0 <= i < words@.len() ==> (#[trigger] words@[i])@ == negation_words()[i],
            recent@ == recent_window(text@, m as int),
            forall|j: int| 0 <= j < w ==> !is_substring(negation_words()[j], recent@),
    {
        if contains_chars(recent.as_slice(), words[w].as_slice()) {
            return true;
        }
    }
    let rl = recent.len();
    rl > 0 && recent[rl - 1] == '不'
}

/// Whether some non-overlapping occurrence of `verb` is negated.
fn verb_negated(text: &[char], verb: &[char]) -> (r: bool)
    ensures
        r == verb_negated_from(text@, verb@, 0),
{
    let step: usize = if verb.len() == 0 {
        1
    } else {
        verb.len()
    };
    let mut pos: usize = 0;
    while pos <= text.len() && verb.len() <= text.len() - pos
        invariant
            step as int == match_step(verb@),
            verb_negated_from(text@, verb@, 0) == verb_negated_from(text@, verb@, pos as int),
        decreases text@.len() + 1 - pos,
    {
        if occurs_at_exec(text, verb, pos) {
            if negated_at_exec(text, pos) {
                return true;
            }
            if step > text.len() - pos {
                assert(!verb_negated_from(text@, verb@, pos + step));
                return false;
            }
            pos = pos + step;
        } else {
            if pos == text.len() {
                assert(!verb_negated_from(text@, verb@, pos + 1));
                return false;
            }
            pos = pos + 1;
        }
    }
    assert(!verb_negated_from(text@, verb@, pos as int));
    false
}

/// Whether a write action is blocked: the prompt is informational, or one of
/// the action verbs is negated shortly before it occurs.
pub fn action_is_blocked_chars(text: &[char], verbs: &[String], informational: &[String]) -> (r:
    bool)
    ensures
        r == action_blocked_spec(text@, verbs@, informational@),
{
    if contains_any_chars(text, informational) {
        return true;
    }
    let n = verbs.len();
    for v in 0..n
        invariant
            n == verbs@.len(),
            forall|j: int| 0 <= j < v ==> !verb_negated_from(text@, #[trigger] verbs@[j]@, 0),
    {
        let k = chars_of(verbs[v].as_str());
        if verb_negated(text, k.as_slice()) {
            return true;
        }
    }
    false
}

/// `action_is_blocked` on a prompt.
pub fn action_is_blocked(prompt: &str, verbs: &[String], informational: &[String]) -> (r: bool)
    ensures
        r == action_blocked_spec(prompt@, verbs@, informational@),
{
    let p = chars_of(prompt);
    action_is_blocked_chars(p.as_slice(), verbs, informational)
}

/// Whether `tool` answers the prompt (given as characters).
pub fn tool_matches_chars(tool: &RuntimeTool, prompt: &[char]) -> (r: bool)
    ensures
        r == tool_matches_spec(*tool, prompt@),
{
    if contains_any_chars(prompt, tool.blocked_keywords.as_slice()) {
        return false;
    }
    let read = str_eq(tool.mode.as_str(), "read");
    if read && contains_any_chars(prompt, tool.keywords.as_slice()) {
        return true;
    }
    if read {
        return any_group_matches_exec(prompt, tool.keyword_groups.as_slice());
    }
    if any_group_matches_exec(prompt, tool.keyword_groups.as_slice()) {
        return !action_is_blocked_chars(
            prompt,
            tool.keywords.as_slice(),
            tool.blocked_keywords.as_slice(),
        );
    }
    false
}

/// `tool_matches`: whether `tool` answers `prompt`.
pub fn tool_matches(tool: &RuntimeTool, prompt: &str) -> (r: bool)
    ensures
        r == tool_matches_spec(*tool, prompt@),
{
    let p = chars_of(prompt);
    tool_matches_chars(tool, p.as_slice())
}


// ---------------------------------------------------------------------------
// Specification of tool selection
// ---------------------------------------------------------------------------

/// The texts of a sequence of strings.
pub open spec fn texts(v: Seq<String>) -> Seq<Seq<char>> {
    v.map_values(|s: String| s@)
}

/// Appends `x` unless it is already present.
pub open spec fn push_unique(acc: Seq<Seq<char>>, x: Seq<char>) -> Seq<Seq<char>> {
    if acc.contains(x) {
        acc
    } else {
        acc.push(x)
    }
}

/// Some registered tool is called `name`.
pub open spec fn tool_named(tools: Seq<RuntimeTool>, name: Seq<char>) -> bool {
    exists|j: int| 0 <= j < tools.len() && (#[trigger] tools[j]).name@ == name
}

/// Adds, in order, the required tools that are registered.
pub open spec fn push_required(
    acc: Seq<Seq<char>>,
    required: Seq<String>,
    tools: Seq<RuntimeTool>,
) -> Seq<Seq<char>>
    decreases required.len(),
{
    if required.len() == 0 {
        acc
    } else {
        let before = push_required(acc, required.drop_last(), tools);
        if tool_named(tools, required.last()@) {
            push_unique(before, required.last()@)
        } else {
            before
        }
    }
}

/// Tools selected from the first `n` registered tools: each matching tool
/// adds its registered requirements, then itself.
pub open spec fn selected_prefix(tools: Seq<RuntimeTool>, prompt: Seq<char>, n: nat) -> Seq<
    Seq<char>,
>
    decreases n,
{
    if n == 0 || n > tools.len() {
        Seq::empty()
    } else {
        let acc = selected_prefix(tools, prompt, (n - 1) as nat);
        let tool = tools[n - 1];
        if tool_matches_spec(tool, prompt) {
            push_unique(push_required(acc, tool.required_tools@, tools), tool.name@)
        } else {
            acc
        }
    }
}

/// The names of the read tools among the first `n`, without repetition.
pub open spec fn read_tool_names(tools: Seq<RuntimeTool>, n: nat) -> Seq<Seq<char>>
    decreases n,
{
    if n == 0 || n > tools.len() {
        Seq::empty()
    } else {
        let acc = read_tool_names(tools, (n - 1) as nat);
        if tools[n - 1].mode@ == "read"@ {
            push_unique(acc, tools[n - 1].name@)
        } else {
            acc
        }
    }
}

/// The tools the local orchestration runs for `prompt`: the matching tools
/// with their requirements, or every read tool when nothing matches.
pub open spec fn select_tools_spec(tools: Seq<RuntimeTool>, prompt: Seq<char>) -> Seq<Seq<char>> {
    let chosen = selected_prefix(tools, prompt, tools.len());
    if chosen.len() == 0 {
        read_tool_names(tools, tools.len())
    } else {
        chosen
    }
}

// ---------------------------------------------------------------------------
// Tool selection
// ---------------------------------------------------------------------------

/// `push_tool_string`: appends `tool` unless it is already listed.
pub fn push_tool_string(tools: &mut Vec<String>, tool: &str)
    ensures
        texts(final(tools)@) == push_unique(texts(old(tools)@), tool@),
{
    let n = tools.len();
    for i in 0..n
        invariant
            n == tools@.len(),
            tools@ == old(tools)@,
            forall|j: int| 0 <= j < i ==> tools@[j]@ != tool@,
    {
        if str_eq(tools[i].as_str(), tool) {
            assert(texts(tools@)[i as int] == tool@);
            return;
        }
    }
    assert(!texts(tools@).contains(tool@)) by {
        if texts(tools@).contains(tool@) {
            let j = choose|j: int| 0 <= j < texts(tools@).len() && texts(tools@)[j] == tool@;
            assert(tools@[j]@ == tool@);
        }
    }
    let ghost before = tools@;
    tools.push(crate::text::owned(tool));
    assert(texts(tools@) =~= texts(before).push(tool@));
}

/// Whether some registered tool is called `name`.
fn has_tool_named(tools: &[RuntimeTool], name: &str) -> (r: bool)
    ensures
        r == tool_named(tools@, name@),
{
    let n = tools.len();
    for j in 0..n
        invariant
            n == tools@.len(),
            forall|k: int| 0 <= k < j ==> (#[trigger] tools@[k]).name@ != name@,
    {
        if str_eq(tools[j].name.as_str(), name) {
            assert(tools@[j as int].name@ == name@);
            return true;
        }
    }
    false
}

/// `select_tools`: the tools to run, in order, for `prompt`.
pub fn select_tools(tools: &[RuntimeTool], prompt: &str) -> (selected: Vec<String>)
    ensures
        texts(selected@) == select_tools_spec(tools@, prompt@),
{
    let p = chars_of(prompt);
    let mut selected: Vec<String> = Vec::new();
    let n = tools.len();
    for i in 0..n
        invariant
            n == tools@.len(),
            p@ == prompt@,
            texts(selected@) == selected_prefix(tools@, prompt@, i as nat),
    {
        let tool = &tools[i];
        if tool_matches_chars(tool, p.as_slice()) {
            let ghost acc = texts(selected@);
            let m = tool.required_tools.len();
            for k in 0..m
                invariant
                    n == tools@.len(),
                    i < n,
                    *tool == tools@[i as int],
                    m == tool.required_tools@.len(),
                    texts(selected@) == push_required(
                        acc,
                        tool.required_tools@.take(k as int),
                        tools@,
                    ),
            {
                let ghost req = tool.required_tools@;
                assert(req.take(k + 1).drop_last() =~= req.take(k as int));
                assert(req.take(k + 1).last() == req[k as int]);
                if has_tool_named(tools, tool.required_tools[k].as_str()) {
                    push_tool_string(&mut selected, tool.required_tools[k].as_str());
                }
            }
            assert(tool.required_tools@.take(m as int) =~= tool.required_tools@);
            push_tool_string(&mut selected, tool.name.as_str());
        }
    }
    if selected.len() == 0 {
        assert(selected_prefix(tools@, prompt@, n as nat).len() == 0);
        for i in 0..n
            invariant
                n == tools@.len(),
                texts(selected@) == read_tool_names(tools@, i as nat),
        {
            if str_eq(tools[i].mode.as_str(), "read") {
                push_tool_string(&mut selected, tools[i].name.as_str());
            }
        }
    }
    selected
}


// ---------------------------------------------------------------------------
// Tool registry views and replies
// ---------------------------------------------------------------------------

/// What the agent page lists about a tool.
pub struct ToolDefinition {
    pub name: String,
    pub label: String,
    pub description: String,
    pub mode: String,
}

/// The outcome of one tool run, as far as the reply mentions it.
pub struct ToolCallOutcome {
    pub name: String,
    pub label: String,
    /// `"completed"` or `"failed"`.
    pub status: String,
}

/// `into_runtime_tool`: a tool row with its JSON keyword columns read; a
/// column that holds no valid list reads as empty.
pub fn into_runtime_tool(row: crate::models::AgentTool) -> (tool: RuntimeTool)
    ensures
        tool.name@ == row.name@,
        tool.label@ == row.label@,
        tool.description@ == row.description@,
        tool.mode@ == row.mode@,
        texts(tool.keywords@) == crate::json::string_list_or_empty(row.keywords@),
        texts(tool.blocked_keywords@) == crate::json::string_list_or_empty(row.blocked_keywords@),
        crate::json::group_texts(tool.keyword_groups@) == crate::json::string_groups_or_empty(
            row.keyword_groups@,
        ),
        texts(tool.required_tools@) == crate::json::string_list_or_empty(row.required_tools@),
{
    let keywords = crate::json::parse_string_list(row.keywords.as_str());
    let blocked_keywords = crate::json::parse_string_list(row.blocked_keywords.as_str());
    let keyword_groups = crate::json::parse_string_groups(row.keyword_groups.as_str());
    let required_tools = crate::json::parse_string_list(row.required_tools.as_str());
    RuntimeTool {
        name: row.name,
        label: row.label,
        description: row.description,
        mode: row.mode,
        keywords,
        blocked_keywords,
        keyword_groups,
        required_tools,
    }
}

/// `tool_definitions`: name, label, description and mode of each tool.
pub fn tool_definitions(tools: &[RuntimeTool]) -> (defs: Vec<ToolDefinition>)
    ensures
        defs@.len() == tools@.len(),
        forall|i: int|
            0 <= i < tools@.len() ==> {
                &&& (#[trigger] defs@[i]).name@ == tools@[i].name@
                &&& defs@[i].label@ == tools@[i].label@
                &&& defs@[i].description@ == tools@[i].description@
                &&& defs@[i].mode@ == tools@[i].mode@
            },
{
    let mut defs: Vec<ToolDefinition> = Vec::new();
    let n = tools.len();
    for i in 0..n
        invariant
            n == tools@.len(),
            defs@.len() == i,
            forall|j: int|
                0 <= j < i ==> {
                    &&& (#[trigger] defs@[j]).name@ == tools@[j].name@
                    &&& defs@[j].label@ == tools@[j].label@
                    &&& defs@[j].description@ == tools@[j].description@
                    &&& defs@[j].mode@ == tools@[j].mode@
                },
    {
        let t = &tools[i];
        defs.push(
            ToolDefinition {
                name: t.name.clone(),
                label: t.label.clone(),
                description: t.description.clone(),
                mode: t.mode.clone(),
            },
        );
    }
    defs
}

/// The label of the first tool called `name`, or `name` itself.
pub open spec fn tool_label_spec(tools: Seq<RuntimeTool>, name: Seq<char>) -> Seq<char> {
    if tool_named(tools, name) {
        tools[first_tool_named(tools, name)].label@
    } else {
        name
    }
}

/// The index of the first tool called `name`.
pub open spec fn first_tool_named(tools: Seq<RuntimeTool>, name: Seq<char>) -> int {
    choose|j: int|
        0 <= j < tools.len() && tools[j].name@ == name && forall|k: int|
            0 <= k < j ==> (#[trigger] tools[k]).name@ != name
}

/// `tool_label`: the display label of the tool called `name`.
pub fn tool_label(tools: &[RuntimeTool], name: &str) -> (label: String)
    ensures
        label@ == tool_label_spec(tools@, name@),
{
    let n = tools.len();
    for j in 0..n
        invariant
            n == tools@.len(),
            forall|k: int| 0 <= k < j ==> (#[trigger] tools@[k]).name@ != name@,
    {
        if str_eq(tools[j].name.as_str(), name) {
            assert(tool_named(tools@, name@));
            let ghost f = first_tool_named(tools@, name@);
            assert(0 <= f < tools@.len() && tools@[f].name@ == name@ && forall|k: int|
                0 <= k < f ==> (#[trigger] tools@[k]).name@ != name@) by {
                assert(0 <= j < tools@.len() && tools@[j as int].name@ == name@ && forall|k: int|
                    0 <= k < j ==> (#[trigger] tools@[k]).name@ != name@);
            }
            assert(f == j) by {
                if f < j {
                } else if f > j {
                    assert(tools@[j as int].name@ != name@);
                }
            }
            return tools[j].label.clone();
        }
    }
    crate::text::owned(name)
}

/// The first 24 characters of `value`.
pub open spec fn short_title_spec(value: Seq<char>) -> Seq<char> {
    if value.len() <= 24 {
        value
    } else {
        value.take(24)
    }
}

/// A title is at most 24 characters and begins the value it was made from.
pub proof fn law_short_title_is_a_short_prefix(value: Seq<char>)
    ensures
        short_title_spec(value).len() <= 24,
        short_title_spec(value) == value.take(short_title_spec(value).len() as int),
        value.len() <= 24 ==> short_title_spec(value) == value,
{
    if value.len() <= 24 {
        assert(value.take(value.len() as int) =~= value);
    }
}

/// `short_title`: a session or task title made of the first 24 characters.
pub fn short_title(value: &str) -> (title: String)
    ensures
        title@ == short_title_spec(value@),
{
    let v = chars_of(value);
    if v.len() <= 24 {
        return crate::text::string_from_chars(v.as_slice());
    }
    let mut t: Vec<char> = Vec::new();
    for i in 0..24
        invariant
            v@ == value@,
            v@.len() > 24,
            t@ == v@.take(i as int),
    {
        t.push(v[i]);
        assert(v@.take(i + 1) =~= v@.take(i as int).push(v@[i as int]));
    }
    crate::text::string_from_chars(t.as_slice())
}

/// Texts joined with a separator.
pub open spec fn join_spec(items: Seq<Seq<char>>, sep: Seq<char>) -> Seq<char>
    decreases items.len(),
{
    if items.len() == 0 {
        Seq::empty()
    } else if items.len() == 1 {
        items[0]
    } else {
        join_spec(items.drop_last(), sep) + sep + items.last()
    }
}

/// The labels of the tool runs.
pub open spec fn outcome_labels(calls: Seq<ToolCallOutcome>) -> Seq<Seq<char>> {
    calls.map_values(|c: ToolCallOutcome| c.label@)
}

/// How many tool runs failed.
pub open spec fn failed_count(calls: Seq<ToolCallOutcome>) -> nat
    decreases calls.len(),
{
    if calls.len() == 0 {
        0
    } else {
        failed_count(calls.drop_last()) + if calls.last().status@ == "failed"@ {
            1nat
        } else {
            0nat
        }
    }
}

/// The reply text after the tools ran.
pub open spec fn compose_reply_spec(
    prompt: Seq<char>,
    calls: Seq<ToolCallOutcome>,
    fallback_reply: Seq<char>,
) -> Seq<char> {
    let labels = join_spec(outcome_labels(calls), "、"@);
    if calls.len() == 0 {
        fallback_reply
    } else if failed_count(calls) > 0 {
        "已围绕“"@ + short_title_spec(prompt) + "”执行 "@ + labels + "，其中 "@
            + crate::text::nat_text(failed_count(calls))
            + " 个工具未完成。已保留成功结果和失败轨迹，你可以调整条件后继续。"@
    } else {
        "已围绕“"@ + short_title_spec(prompt) + "”完成 "@ + labels
            + "。结果来自当前业务数据库，你可以继续追问细分渠道、预算或让我直接创建跟进任务。"@
    }
}

/// `compose_reply`: the assistant's answer summarising the tool runs.
pub fn compose_reply(prompt: &str, calls: &[ToolCallOutcome], fallback_reply: &str) -> (reply:
    String)
    ensures
        reply@ == compose_reply_spec(prompt@, calls@, fallback_reply@),
{
    let n = calls.len();
    let mut failed: u64 = 0;
    let mut labels = String::new();
    for i in 0..n
        invariant
            n == calls@.len(),
            failed == failed_count(calls@.take(i as int)),
            failed <= i,
            labels@ == join_spec(outcome_labels(calls@.take(i as int)), "、"@),
    {
        let ghost pre = calls@.take(i as int);
        let ghost next = calls@.take(i + 1);
        assert(next.drop_last() =~= pre);
        assert(outcome_labels(next).drop_last() =~= outcome_labels(pre));
        if str_eq(calls[i].status.as_str(), "failed") {
            failed = failed + 1;
        }
        if i > 0 {
            crate::text::push_str(&mut labels, "、");
        } else {
            assert(outcome_labels(pre) =~= Seq::<Seq<char>>::empty());
        }
        crate::text::push_str(&mut labels, calls[i].label.as_str());
    }
    assert(calls@.take(n as int) =~= calls@);
    if n == 0 {
        return crate::text::owned(fallback_reply);
    }
    let title = short_title(prompt);
    if failed > 0 {
        let mut r = crate::text::owned("已围绕“");
        crate::text::push_str(&mut r, title.as_str());
        crate::text::push_str(&mut r, "”执行 ");
        crate::text::push_str(&mut r, labels.as_str());
        crate::text::push_str(&mut r, "，其中 ");
        let count = crate::text::uint_to_string(failed);
        crate::text::push_str(&mut r, count.as_str());
        crate::text::push_str(&mut r, " 个工具未完成。已保留成功结果和失败轨迹，你可以调整条件后继续。");
        r
    } else {
        let mut r = crate::text::owned("已围绕“");
        crate::text::push_str(&mut r, title.as_str());
        crate::text::push_str(&mut r, "”完成 ");
        crate::text::push_str(&mut r, labels.as_str());
        crate::text::push_str(
            &mut r,
            "。结果来自当前业务数据库，你可以继续追问细分渠道、预算或让我直接创建跟进任务。",
        );
        r
    }
}

/// `safe_tool_error`: what a failed tool run reports to the user.
pub fn safe_tool_error(error: &crate::error::AppError) -> (message: String)
    ensures
        match error {
            crate::error::AppError::NotFound(m) => message@ == m@,
            crate::error::AppError::BadRequest(m) => message@ == m@,
            crate::error::AppError::Unauthorized => message@ == "登录状态已失效"@,
            _ => message@ == "工具暂时不可用，请稍后重试"@,
        },
{
    match error {
        crate::error::AppError::NotFound(m) => m.clone(),
        crate::error::AppError::BadRequest(m) => m.clone(),
        crate::error::AppError::Unauthorized => crate::text::owned("登录状态已失效"),
        _ => crate::text::owned("工具暂时不可用，请稍后重试"),
    }
}


// ---------------------------------------------------------------------------
// Request rules of the agent
// ---------------------------------------------------------------------------

/// The refusal for an agent message, if any: the agent is paused, the
/// message is blank, or longer than a thousand characters once trimmed.
pub open spec fn agent_prompt_error(enabled: bool, message: Seq<char>) -> Option<Seq<char>> {
    if !enabled {
        Some("agent 已暂停服务"@)
    } else if crate::text::trim_seq(message).len() == 0 {
        Some("agent message is required"@)
    } else if crate::text::trim_seq(message).len() > 1000 {
        Some("agent message is too long"@)
    } else {
        None
    }
}

/// `query_for_user`'s input rules; an accepted message is trimmed.
pub fn validate_agent_prompt(enabled: bool, message: &str) -> (r: Result<String, crate::error::AppError>)
    ensures
        agent_prompt_error(enabled, message@) is None ==> (r matches Ok(p)
            && p@ == crate::text::trim_seq(message@)),
        agent_prompt_error(enabled, message@) matches Some(m) ==> (r matches Err(e)
            && crate::error::is_bad_request(e, m)),
{
    if !enabled {
        return Err(crate::error::bad_request("agent 已暂停服务"));
    }
    let prompt = crate::text::trim(message);
    let count = crate::text::char_count(prompt.as_str());
    if count == 0 {
        return Err(crate::error::bad_request("agent message is required"));
    }
    if count > 1000 {
        return Err(crate::error::bad_request("agent message is too long"));
    }
    Ok(prompt)
}

/// How many tools one query may run: the configured limit, at least one.
pub fn max_tool_calls(configured: i64) -> (n: u64)
    ensures
        n as int == (if configured > 1 {
            configured as int
        } else {
            1
        }),
{
    if configured > 1 {
        configured as u64
    } else {
        1
    }
}

/// `run_deterministic_orchestration`'s plan: the selected tools, at most
/// `max_tool_calls` of them, in order.
pub fn plan_local_tools(tools: &[RuntimeTool], prompt: &str, max_tool_calls: u64) -> (plan: Vec<
    String,
>)
    ensures
        texts(plan@) == (if select_tools_spec(tools@, prompt@).len() > max_tool_calls {
            select_tools_spec(tools@, prompt@).take(max_tool_calls as int)
        } else {
            select_tools_spec(tools@, prompt@)
        }),
{
    let selected = select_tools(tools, prompt);
    let mut plan: Vec<String> = Vec::new();
    let n = selected.len();
    let mut i: usize = 0;
    while i < n && (i as u64) < max_tool_calls
        invariant
            n == selected@.len(),
            i <= n,
            i <= max_tool_calls,
            texts(plan@) == texts(selected@).take(i as int),
        decreases n - i,
    {
        let ghost before = plan@;
        plan.push(selected[i].clone());
        assert(texts(plan@) =~= texts(before).push(selected@[i as int]@));
        assert(texts(selected@).take(i + 1) =~= texts(selected@).take(i as int).push(
            selected@[i as int]@,
        ));
        i = i + 1;
    }
    assert(texts(selected@).take(n as int) =~= texts(selected@));
    plan
}

/// The partner type a user searches for: the other side of the market.
pub fn partner_type_for(role: &str) -> (t: &'static str)
    ensures
        t@ == (if role@ == "provider"@ {
            "client"@
        } else {
            "provider"@
        }),
{
    crate::api::opposite_role(role)
}

/// The text of an optional string slice.
pub open spec fn opt_text(v: Option<&str>) -> Option<Seq<char>> {
    match v {
        Some(s) => Some(s@),
        None => None,
    }
}

/// The search keywords the agent recognises in a prompt, in order of preference.
pub open spec fn search_keywords() -> Seq<Seq<char>> {
    seq!["短视频"@, "校园"@, "品牌"@, "媒体"@, "词曲"@, "混音"@, "推广"@]
}

/// The first recognised keyword that occurs in `prompt`, from position `i` on.
pub open spec fn first_search_keyword(prompt: Seq<char>, i: int) -> Option<Seq<char>>
    decreases search_keywords().len() - i,
{
    if i < 0 || i >= search_keywords().len() {
        None
    } else if is_substring(search_keywords()[i], prompt) {
        Some(search_keywords()[i])
    } else {
        first_search_keyword(prompt, i + 1)
    }
}

/// `search_partners`' keyword: the caller's keyword when given and not blank
/// (trimmed), otherwise the first recognised keyword in the prompt.
pub open spec fn search_keyword_spec(keyword: Option<Seq<char>>, prompt: Seq<char>) -> Option<
    Seq<char>,
> {
    match keyword {
        Some(k) if crate::text::trim_seq(k).len() > 0 => Some(crate::text::trim_seq(k)),
        _ => first_search_keyword(prompt, 0),
    }
}

/// The keyword `search_partners` filters by, if any.
pub fn search_keyword(keyword: Option<&str>, prompt: &str) -> (k: Option<String>)
    ensures
        match k {
            Some(t) => search_keyword_spec(opt_text(keyword), prompt@) == Some(t@),
            None => search_keyword_spec(opt_text(keyword), prompt@) is None,
        },
{
    let ghost kw = opt_text(keyword);
    match keyword {
        Some(s) => {
            let t = crate::text::trim(s);
            if !t.as_str().is_empty() {
                return Some(t);
            }
        },
        None => {},
    }
    assert(search_keyword_spec(kw, prompt@) == first_search_keyword(prompt@, 0));
    let p = chars_of(prompt);
    let words: [&str; 7] = ["短视频", "校园", "品牌", "媒体", "词曲", "混音", "推广"];
    let mut i: usize = 0;
    while i < 7
        invariant
            i <= 7,
            p@ == prompt@,
            forall|j: int| 0 <= j < 7 ==> (#[trigger] words@[j])@ == search_keywords()[j],
            first_search_keyword(prompt@, 0) == first_search_keyword(prompt@, i as int),
            search_keyword_spec(kw, prompt@) == first_search_keyword(prompt@, 0),
            kw == opt_text(keyword),
        decreases 7 - i,
    {
        let w = chars_of(words[i]);
        assert(w@ == search_keywords()[i as int]);
        assert(search_keywords().len() == 7);
        if contains_chars(p.as_slice(), w.as_slice()) {
            assert(first_search_keyword(prompt@, i as int) == Some(search_keywords()[i as int]));
            let found = crate::text::owned(words[i]);
            assert(found@ == w@);
            assert(search_keyword_spec(kw, prompt@) == Some(found@));
            return Some(found);
        }
        i = i + 1;
    }
    None
}

/// A requested result count: the given one or the default, clamped.
pub open spec fn clamped_limit(requested: Option<i64>, default: int, max: int) -> int {
    crate::analytics::clamp(
        match requested {
            Some(v) => v as int,
            None => default,
        },
        1,
        max,
    )
}

/// How many partners `search_partners` returns: five by default, one to ten.
pub fn partner_limit(requested: Option<i64>) -> (n: i64)
    ensures
        n == clamped_limit(requested, 5, 10),
{
    let v = match requested {
        Some(v) => v,
        None => 5,
    };
    if v < 1 {
        1
    } else if v > 10 {
        10
    } else {
        v
    }
}

/// How many plans `recommend_plans` returns: four by default, one to eight.
pub fn plan_limit(requested: Option<i64>) -> (n: i64)
    ensures
        n == clamped_limit(requested, 4, 8),
{
    let v = match requested {
        Some(v) => v,
        None => 4,
    };
    if v < 1 {
        1
    } else if v > 8 {
        8
    } else {
        v
    }
}

/// `recommend_plans`' budget ceiling in cents: the caller's positive ceiling,
/// or one read from the prompt (a low budget or 5000: 500,000; 2万 or 20000:
/// 2,000,000), or none.
pub open spec fn budget_ceiling_spec(requested: Option<i64>, prompt: Seq<char>) -> Option<int> {
    if requested matches Some(v) && v > 0 {
        Some(requested->0 as int)
    } else if is_substring("低预算"@, prompt) || is_substring("5000"@, prompt) {
        Some(500_000)
    } else if is_substring("2万"@, prompt) || is_substring("20000"@, prompt) {
        Some(2_000_000)
    } else {
        None
    }
}

/// The budget ceiling `recommend_plans` filters by, if any.
pub fn budget_ceiling(requested: Option<i64>, prompt: &str) -> (c: Option<i64>)
    ensures
        match c {
            Some(v) => budget_ceiling_spec(requested, prompt@) == Some(v as int),
            None => budget_ceiling_spec(requested, prompt@) is None,
        },
{
    match requested {
        Some(v) => {
            if v > 0 {
                return Some(v);
            }
        },
        None => {},
    }
    let p = chars_of(prompt);
    let low = chars_of("低预算");
    let five = chars_of("5000");
    if contains_chars(p.as_slice(), low.as_slice()) || contains_chars(p.as_slice(), five.as_slice()) {
        return Some(500_000);
    }
    let wan = chars_of("2万");
    let twenty = chars_of("20000");
    if contains_chars(p.as_slice(), wan.as_slice()) || contains_chars(
        p.as_slice(),
        twenty.as_slice(),
    ) {
        return Some(2_000_000);
    }
    None
}

/// `inspect_pipeline`'s summary of the conversion from matches to
/// conversations.
pub open spec fn pipeline_summary_spec(matched: int, connected: int) -> Seq<char> {
    if matched > 0 {
        "匹配到沟通转化率 "@ + crate::text::int_text(
            crate::analytics::clamp(crate::reports::div_trunc(connected * 100, matched), 0, 100),
        ) + "%"@
    } else {
        "尚未发起智能匹配"@
    }
}

/// The pipeline artifact's summary line.
pub fn pipeline_summary(matched: i64, connected: i64) -> (s: String)
    requires
        matched > 0 ==> i64::MIN <= connected * 100 <= i64::MAX,
    ensures
        s@ == pipeline_summary_spec(matched as int, connected as int),
{
    if matched > 0 {
        let rate = connected * 100 / matched;
        let clamped = if rate < 0 {
            0
        } else if rate > 100 {
            100
        } else {
            rate
        };
        let n = crate::text::int_to_string(clamped);
        crate::text::concat3("匹配到沟通转化率 ", n.as_str(), "%")
    } else {
        crate::text::owned("尚未发起智能匹配")
    }
}

/// `create_follow_up_task`'s title: the caller's title when given and not
/// blank (trimmed), otherwise the prompt; at most 24 characters.
pub open spec fn follow_up_title_spec(title: Option<Seq<char>>, prompt: Seq<char>) -> Seq<char> {
    match title {
        Some(t) if crate::text::trim_seq(t).len() > 0 => short_title_spec(crate::text::trim_seq(t)),
        _ => short_title_spec(prompt),
    }
}

/// The follow-up task title.
pub fn follow_up_title(title: Option<&str>, prompt: &str) -> (t: String)
    ensures
        t@ == follow_up_title_spec(opt_text(title), prompt@),
{
    match title {
        Some(s) => {
            let trimmed = crate::text::trim(s);
            if !trimmed.as_str().is_empty() {
                return short_title(trimmed.as_str());
            }
        },
        None => {},
    }
    short_title(prompt)
}

/// The key that keeps one follow-up task per session, user, title and five
/// minutes (`timestamp` in seconds).
pub fn follow_up_dedupe_key(session_id: &str, user_id: &str, timestamp: i64, title: &str) -> (key:
    String)
    ensures
        key@ == "follow_up:"@ + session_id@ + ":"@ + user_id@ + ":"@ + crate::text::int_text(
            crate::reports::div_trunc(timestamp as int, 300),
        ) + ":"@ + title@,
{
    let bucket = crate::text::int_to_string(timestamp / 300);
    let mut key = crate::text::owned("follow_up:");
    crate::text::push_str(&mut key, session_id);
    crate::text::push_str(&mut key, ":");
    crate::text::push_str(&mut key, user_id);
    crate::text::push_str(&mut key, ":");
    crate::text::push_str(&mut key, bucket.as_str());
    crate::text::push_str(&mut key, ":");
    crate::text::push_str(&mut key, title);
    key
}

/// The role-specific prompts the agent suggests.
pub open spec fn role_suggestions(role: Seq<char>, follow_up: bool) -> Seq<Seq<char>> {
    if role == "client"@ && !follow_up {
        seq!["分析我的作品推广数据"@, "帮我找短视频推广方"@, "推荐一个适合新作品的推广方案"@]
    } else if role == "client"@ && follow_up {
        seq!["继续细分预算和渠道"@, "帮我联系最合适的推广方"@, "为这个方案创建跟进任务"@]
    } else if role == "provider"@ && !follow_up {
        seq!["分析我的服务与合作数据"@, "帮我找合适的创作者项目"@, "梳理最近的合作转化漏斗"@]
    } else {
        seq!["继续分析最有潜力的项目"@, "帮我联系最合适的创作者"@, "为这个合作创建跟进任务"@]
    }
}

/// `suggestions_for_user`: the role's suggestions, then the configured ones
/// (a JSON list), at most `suggestion_count` of them (at least one).
pub open spec fn suggestions_spec(
    configured_json: Seq<char>,
    suggestion_count: i64,
    role: Seq<char>,
    follow_up: bool,
) -> Seq<Seq<char>> {
    let all = role_suggestions(role, follow_up) + crate::json::string_list_or_empty(
        configured_json,
    );
    let n = if suggestion_count > 1 {
        suggestion_count as int
    } else {
        1
    };
    if all.len() > n {
        all.take(n)
    } else {
        all
    }
}

/// The suggested prompts for the user, after a reply (`follow_up`) or not;
/// the settings give the JSON lists of configured default and follow-up
/// suggestions.
pub fn suggestions_for_user(
    default_suggestions: &str,
    follow_up_suggestions: &str,
    suggestion_count: i64,
    role: &str,
    follow_up: bool,
) -> (r: Vec<String>)
    ensures
        texts(r@) == suggestions_spec(
            if follow_up {
                follow_up_suggestions@
            } else {
                default_suggestions@
            },
            suggestion_count,
            role@,
            follow_up,
        ),
{
    let configured = if follow_up {
        follow_up_suggestions
    } else {
        default_suggestions
    };
    let fixed: [&str; 3] = if str_eq(role, "client") && !follow_up {
        ["分析我的作品推广数据", "帮我找短视频推广方", "推荐一个适合新作品的推广方案"]
    } else if str_eq(role, "client") && follow_up {
        ["继续细分预算和渠道", "帮我联系最合适的推广方", "为这个方案创建跟进任务"]
    } else if str_eq(role, "provider") && !follow_up {
        ["分析我的服务与合作数据", "帮我找合适的创作者项目", "梳理最近的合作转化漏斗"]
    } else {
        ["继续分析最有潜力的项目", "帮我联系最合适的创作者", "为这个合作创建跟进任务"]
    };
    let ghost fixed_view = role_suggestions(role@, follow_up);
    assert(forall|j: int| 0 <= j < 3 ==> (#[trigger] fixed@[j])@ == fixed_view[j]);
    let extra = crate::json::parse_string_list(configured);
    let limit = max_tool_calls(suggestion_count);
    let ghost all = fixed_view + texts(extra@);
    let mut r: Vec<String> = Vec::new();
    let ghost total = 3 + extra@.len();
    for i in 0..3
        invariant
            all == fixed_view + texts(extra@),
            fixed_view.len() == 3,
            forall|j: int| 0 <= j < 3 ==> (#[trigger] fixed@[j])@ == fixed_view[j],
            texts(r@) == all.take(if i <= limit {
                i as int
            } else {
                limit as int
            }),
    {
        if (i as u64) < limit {
            let item = crate::text::owned(fixed[i]);
            assert(item@ == all[i as int]);
            let ghost before = r@;
            r.push(item);
            assert(texts(r@) =~= texts(before).push(all[i as int]));
            assert(all.take(i + 1) =~= all.take(i as int).push(all[i as int]));
        }
    }
    let m = extra.len();
    for j in 0..m
        invariant
            m == extra@.len(),
            total == 3 + extra@.len(),
            all == fixed_view + texts(extra@),
            all.len() == total,
            fixed_view.len() == 3,
            texts(r@) == all.take(if j + 3 <= limit {
                j + 3
            } else {
                limit as int
            }),
    {
        if limit > 3 && (j as u64) < limit - 3 {
            let item = extra[j].clone();
            assert(item@ == all[j + 3]);
            let ghost before = r@;
            r.push(item);
            assert(texts(r@) =~= texts(before).push(all[j + 3]));
            assert(all.take(j + 4) =~= all.take(j + 3).push(all[j + 3]));
        }
    }
    assert(all.take(total as int) =~= all);
    assert(all.take(0) =~= Seq::<Seq<char>>::empty());
    r
}


// ---------------------------------------------------------------------------
// Decisions of the model-driven orchestration
// ---------------------------------------------------------------------------

/// The model has had its turns: a query allows the tool budget plus two.
pub fn model_turns_exhausted(turns: u64, max_tool_calls: u64) -> (done: bool)
    ensures
        done == (turns as int > (if max_tool_calls as int + 2 > u64::MAX as int {
            u64::MAX as int
        } else {
            max_tool_calls as int + 2
        })),
{
    let limit = if max_tool_calls > u64::MAX - 2 {
        u64::MAX
    } else {
        max_tool_calls + 2
    };
    turns > limit
}

/// Some recorded run of `name` completed.
pub open spec fn completed_run(calls: Seq<ToolCallOutcome>, name: Seq<char>) -> bool {
    exists|i: int|
        0 <= i < calls.len() && (#[trigger] calls[i]).name@ == name && calls[i].status@
            == "completed"@
}

/// Whether a tool that the requested tool requires still runs first: the
/// budget is not spent and it has not completed yet.
pub fn run_required_first(calls: &[ToolCallOutcome], max_tool_calls: u64, name: &str) -> (run:
    bool)
    ensures
        run == (calls@.len() < max_tool_calls && !completed_run(calls@, name@)),
{
    if calls.len() as u64 >= max_tool_calls {
        return false;
    }
    let n = calls.len();
    for i in 0..n
        invariant
            n == calls@.len(),
            forall|j: int|
                0 <= j < i ==> !((#[trigger] calls@[j]).name@ == name@ && calls@[j].status@
                    == "completed"@),
    {
        if str_eq(calls[i].name.as_str(), name) && str_eq(calls[i].status.as_str(), "completed") {
            return false;
        }
    }
    true
}

/// A write tool the model asks for is refused unless the user's own words
/// ask for it.
pub open spec fn write_refused_spec(tool: Option<RuntimeTool>, prompt: Seq<char>) -> bool {
    match tool {
        Some(t) => t.mode@ == "write"@ && !tool_matches_spec(t, prompt),
        None => false,
    }
}

/// Whether the requested tool is a write tool that the prompt does not ask for.
pub fn write_refused(tool: Option<&RuntimeTool>, prompt: &str) -> (refused: bool)
    ensures
        refused == write_refused_spec(
            match tool {
                Some(t) => Some(*t),
                None => None,
            },
            prompt@,
        ),
{
    match tool {
        Some(t) => str_eq(t.mode.as_str(), "write") && !tool_matches(t, prompt),
        None => false,
    }
}

/// What the model-driven orchestration does next with a tool the model
/// asked for.
pub enum RequestStep {
    /// The tool budget is spent: the model is told so and nothing runs.
    Decline,
    /// The requested tool's required tool at this index runs first.
    RunRequired(usize),
    /// The requested write tool is refused and recorded as failed.
    Refuse,
    /// The requested tool runs.
    Run,
}

/// The first index from `from` on whose required tool has not completed a
/// run, or the length of the list where there is none.
pub open spec fn first_pending_required(
    calls: Seq<ToolCallOutcome>,
    required: Seq<String>,
    from: int,
) -> int
    decreases required.len() - from,
{
    if from >= required.len() {
        required.len() as int
    } else if !completed_run(calls, required[from]@) {
        from
    } else {
        first_pending_required(calls, required, from + 1)
    }
}

/// The next step for a requested tool, after its required tools before
/// `from` were dealt with: nothing more runs once `max_tool_calls` runs are
/// recorded; the required tools that have not completed run first; then a
/// write tool the prompt does not ask for is refused, and any other runs.
pub open spec fn request_step_spec(
    calls: Seq<ToolCallOutcome>,
    max_tool_calls: u64,
    tool: Option<RuntimeTool>,
    prompt: Seq<char>,
    from: int,
) -> RequestStep {
    if calls.len() >= max_tool_calls {
        RequestStep::Decline
    } else {
        match tool {
            Some(t) => {
                let j = first_pending_required(calls, t.required_tools@, from);
                if j < t.required_tools@.len() {
                    RequestStep::RunRequired(j as usize)
                } else if write_refused_spec(tool, prompt) {
                    RequestStep::Refuse
                } else {
                    RequestStep::Run
                }
            },
            None => RequestStep::Run,
        }
    }
}

/// The step `request_step_spec` gives.
pub fn request_step(
    calls: &[ToolCallOutcome],
    max_tool_calls: u64,
    tool: Option<&RuntimeTool>,
    prompt: &str,
    from: usize,
) -> (step: RequestStep)
    ensures
        step == request_step_spec(
            calls@,
            max_tool_calls,
            match tool {
                Some(t) => Some(*t),
                None => None,
            },
            prompt@,
            from as int,
        ),
{
    if calls.len() as u64 >= max_tool_calls {
        return RequestStep::Decline;
    }
    match tool {
        Some(t) => {
            let n = t.required_tools.len();
            let mut j = from;
            while j < n
                invariant
                    n == t.required_tools@.len(),
                    from <= j,
                    first_pending_required(calls@, t.required_tools@, from as int)
                        == first_pending_required(calls@, t.required_tools@, j as int),
                    calls@.len() < max_tool_calls,
                    tool == Some(t),
                decreases n - j,
            {
                if run_required_first(calls, max_tool_calls, t.required_tools[j].as_str()) {
                    assert(first_pending_required(calls@, t.required_tools@, j as int) == j);
                    return RequestStep::RunRequired(j);
                }
                assert(first_pending_required(calls@, t.required_tools@, j as int)
                    == first_pending_required(calls@, t.required_tools@, j + 1));
                j = j + 1;
            }
            assert(first_pending_required(calls@, t.required_tools@, j as int) == n);
            if write_refused(Some(t), prompt) {
                RequestStep::Refuse
            } else {
                RequestStep::Run
            }
        },
        None => RequestStep::Run,
    }
}

/// A step other than declining is only given while fewer than
/// `max_tool_calls` runs are recorded: recording one run per such step
/// never takes the record past the budget.
pub proof fn law_request_steps_respect_budget(
    calls: Seq<ToolCallOutcome>,
    max_tool_calls: u64,
    tool: Option<RuntimeTool>,
    prompt: Seq<char>,
    from: int,
)
    ensures
        calls.len() >= max_tool_calls ==> request_step_spec(
            calls,
            max_tool_calls,
            tool,
            prompt,
            from,
        ) is Decline,
        !(request_step_spec(calls, max_tool_calls, tool, prompt, from) is Decline) ==> calls.len()
            + 1 <= max_tool_calls,
{
}

/// Whether the orchestration falls back to the local plan: without a model
/// endpoint, or when the model request fails before any tool ran.
pub fn fall_back_to_local(endpoint_configured: bool, request_failed: bool, runs_recorded: usize)
    -> (local: bool)
    ensures
        local == (!endpoint_configured || (request_failed && runs_recorded == 0)),
{
    !endpoint_configured || (request_failed && runs_recorded == 0)
}

/// The first registered tool called `name`, if any.
pub fn find_tool<'a>(tools: &'a [RuntimeTool], name: &str) -> (t: Option<&'a RuntimeTool>)
    ensures
        match t {
            Some(x) => tool_named(tools@, name@) && *x == tools@[first_tool_named(tools@, name@)],
            None => !tool_named(tools@, name@),
        },
{
    let n = tools.len();
    for j in 0..n
        invariant
            n == tools@.len(),
            forall|k: int| 0 <= k < j ==> (#[trigger] tools@[k]).name@ != name@,
    {
        if str_eq(tools[j].name.as_str(), name) {
            let ghost f = first_tool_named(tools@, name@);
            assert(0 <= j < tools@.len() && tools@[j as int].name@ == name@ && forall|k: int|
                0 <= k < j ==> (#[trigger] tools@[k]).name@ != name@);
            assert(f == j) by {
                if f < j {
                } else if f > j {
                    assert(tools@[j as int].name@ != name@);
                }
            }
            return Some(&tools[j]);
        }
    }
    None
}

/// The final answer of a model turn without tool calls: its text where it is
/// not blank, otherwise the composed summary.
pub fn final_reply(content: Option<String>, composed: String) -> (reply: String)
    ensures
        match content {
            Some(c) => if crate::text::trim_seq(c@).len() > 0 {
                reply@ == c@
            } else {
                reply@ == composed@
            },
            None => reply@ == composed@,
        },
{
    match content {
        Some(c) => if crate::text::is_blank(c.as_str()) {
            composed
        } else {
            c
        },
        None => composed,
    }
}

// ---------------------------------------------------------------------------
// Tool dispatch and result texts
// ---------------------------------------------------------------------------

/// The built-in tools the agent can run.
pub enum AgentToolKind {
    BusinessMetrics,
    Pipeline,
    SearchPartners,
    RecommendPlans,
    ConnectPartner,
    SavePlan,
    FollowUpTask,
}

/// The tool a registered name runs, if any.
pub open spec fn tool_kind_spec(name: Seq<char>) -> Option<AgentToolKind> {
    if name == "query_business_metrics"@ {
        Some(AgentToolKind::BusinessMetrics)
    } else if name == "inspect_collaboration_pipeline"@ {
        Some(AgentToolKind::Pipeline)
    } else if name == "search_partners"@ {
        Some(AgentToolKind::SearchPartners)
    } else if name == "recommend_plans"@ {
        Some(AgentToolKind::RecommendPlans)
    } else if name == "connect_partner"@ {
        Some(AgentToolKind::ConnectPartner)
    } else if name == "save_recommended_plan"@ {
        Some(AgentToolKind::SavePlan)
    } else if name == "create_follow_up_task"@ {
        Some(AgentToolKind::FollowUpTask)
    } else {
        None
    }
}

/// `execute_tool`'s dispatch: the tool a name runs; an unknown name is refused.
pub fn tool_kind(name: &str) -> (r: Result<AgentToolKind, crate::error::AppError>)
    ensures
        match tool_kind_spec(name@) {
            Some(k) => r == Ok::<AgentToolKind, crate::error::AppError>(k),
            None => (r matches Err(e) && crate::error::is_bad_request(e, "unknown agent tool"@)),
        },
{
    if str_eq(name, "query_business_metrics") {
        Ok(AgentToolKind::BusinessMetrics)
    } else if str_eq(name, "inspect_collaboration_pipeline") {
        Ok(AgentToolKind::Pipeline)
    } else if str_eq(name, "search_partners") {
        Ok(AgentToolKind::SearchPartners)
    } else if str_eq(name, "recommend_plans") {
        Ok(AgentToolKind::RecommendPlans)
    } else if str_eq(name, "connect_partner") {
        Ok(AgentToolKind::ConnectPartner)
    } else if str_eq(name, "save_recommended_plan") {
        Ok(AgentToolKind::SavePlan)
    } else if str_eq(name, "create_follow_up_task") {
        Ok(AgentToolKind::FollowUpTask)
    } else {
        Err(crate::error::bad_request("unknown agent tool"))
    }
}

/// The description a tool is offered to the model with.
pub fn model_tool_description(description: &str, mode: &str) -> (d: String)
    ensures
        d@ == description@ + "。模式："@ + mode@ + "。结果直接来自业务数据库。"@,
{
    let mut d = crate::text::owned(description);
    crate::text::push_str(&mut d, "。模式：");
    crate::text::push_str(&mut d, mode);
    crate::text::push_str(&mut d, "。结果直接来自业务数据库。");
    d
}

/// The JSON schema of the search tool's arguments.
pub const SEARCH_PARTNERS_PARAMETERS: &'static str = "{\"type\":\"object\",\"properties\":{\"query\":{\"type\":\"string\",\"description\":\"用户的合作伙伴检索需求\"},\"keyword\":{\"type\":\"string\",\"description\":\"能力、渠道或内容类型关键词\"},\"limit\":{\"type\":\"integer\",\"minimum\":1,\"maximum\":10}},\"required\":[\"query\"],\"additionalProperties\":false}";

/// The JSON schema of the plan recommendation tool's arguments.
pub const RECOMMEND_PLANS_PARAMETERS: &'static str = "{\"type\":\"object\",\"properties\":{\"query\":{\"type\":\"string\",\"description\":\"用户的推广目标和约束\"},\"maxBudgetCents\":{\"type\":\"integer\",\"minimum\":1,\"description\":\"最高预算，单位为人民币分\"},\"limit\":{\"type\":\"integer\",\"minimum\":1,\"maximum\":8}},\"required\":[\"query\"],\"additionalProperties\":false}";

/// The JSON schema of the connection tool's arguments.
pub const CONNECT_PARTNER_PARAMETERS: &'static str = "{\"type\":\"object\",\"properties\":{\"query\":{\"type\":\"string\",\"description\":\"用户明确发起合作的原始要求\"},\"partnerId\":{\"type\":\"string\",\"description\":\"优先使用 search_partners 返回的目标伙伴 ID\"}},\"required\":[\"query\"],\"additionalProperties\":false}";

/// The JSON schema of the plan saving tool's arguments.
pub const SAVE_PLAN_PARAMETERS: &'static str = "{\"type\":\"object\",\"properties\":{\"query\":{\"type\":\"string\",\"description\":\"用户明确收藏方案的原始要求\"},\"planId\":{\"type\":\"string\",\"description\":\"优先使用 recommend_plans 返回的目标方案 ID\"}},\"required\":[\"query\"],\"additionalProperties\":false}";

/// The JSON schema of the follow-up task tool's arguments.
pub const FOLLOW_UP_PARAMETERS: &'static str = "{\"type\":\"object\",\"properties\":{\"query\":{\"type\":\"string\",\"description\":\"用户明确创建任务的原始要求\"},\"title\":{\"type\":\"string\",\"description\":\"简短、可执行的跟进任务标题\"}},\"required\":[\"query\"],\"additionalProperties\":false}";

/// The JSON schema of a tool that takes the query alone.
pub const QUERY_PARAMETERS: &'static str = "{\"type\":\"object\",\"properties\":{\"query\":{\"type\":\"string\",\"description\":\"用于实时业务数据查询的原始需求\"}},\"required\":[\"query\"],\"additionalProperties\":false}";

/// The schema a tool's arguments are offered to the model with.
pub open spec fn tool_parameters_spec(name: Seq<char>) -> Seq<char> {
    match tool_kind_spec(name) {
        Some(AgentToolKind::SearchPartners) => SEARCH_PARTNERS_PARAMETERS@,
        Some(AgentToolKind::RecommendPlans) => RECOMMEND_PLANS_PARAMETERS@,
        Some(AgentToolKind::ConnectPartner) => CONNECT_PARTNER_PARAMETERS@,
        Some(AgentToolKind::SavePlan) => SAVE_PLAN_PARAMETERS@,
        Some(AgentToolKind::FollowUpTask) => FOLLOW_UP_PARAMETERS@,
        _ => QUERY_PARAMETERS@,
    }
}

/// `model_tool_definitions`' argument schema for a tool, as JSON text.
pub fn tool_parameters(name: &str) -> (schema: &'static str)
    ensures
        schema@ == tool_parameters_spec(name@),
{
    match tool_kind(name) {
        Ok(AgentToolKind::SearchPartners) => SEARCH_PARTNERS_PARAMETERS,
        Ok(AgentToolKind::RecommendPlans) => RECOMMEND_PLANS_PARAMETERS,
        Ok(AgentToolKind::ConnectPartner) => CONNECT_PARTNER_PARAMETERS,
        Ok(AgentToolKind::SavePlan) => SAVE_PLAN_PARAMETERS,
        Ok(AgentToolKind::FollowUpTask) => FOLLOW_UP_PARAMETERS,
        _ => QUERY_PARAMETERS,
    }
}

/// What the model is told for a tool call beyond the round's limit.
pub const TOOL_LIMIT_MESSAGE: &'static str = "已达到本轮最大工具调用数，请基于现有结果回答";

/// Why a write tool the prompt did not ask for was not run.
pub const WRITE_REFUSED_MESSAGE: &'static str = "写入工具仅在用户明确要求执行时运行";

/// The prompt a requested tool runs with: the call's own `query` where it is
/// not blank, otherwise the user's prompt.
pub fn tool_prompt<'a>(query: Option<&'a str>, prompt: &'a str) -> (p: &'a str)
    ensures
        match query {
            Some(q) => if crate::text::trim_seq(q@).len() > 0 {
                p@ == q@
            } else {
                p@ == prompt@
            },
            None => p@ == prompt@,
        },
{
    match query {
        Some(q) => if crate::text::is_blank(q) {
            prompt
        } else {
            q
        },
        None => prompt,
    }
}

/// The metrics artifact's summary: matches, conversations and revenue.
pub fn metrics_summary(matches: i64, conversations: i64, revenue_cents: i64) -> (s: String)
    ensures
        s@ == crate::text::int_text(matches as int) + " 次匹配 · "@ + crate::text::int_text(
            conversations as int,
        ) + " 个会话 · "@ + "¥"@ + crate::analytics::yuan_text(revenue_cents as int),
{
    let mut s = crate::text::int_to_string(matches);
    crate::text::push_str(&mut s, " 次匹配 · ");
    let c = crate::text::int_to_string(conversations);
    crate::text::push_str(&mut s, c.as_str());
    crate::text::push_str(&mut s, " 个会话 · ");
    let money = crate::analytics::format_money(revenue_cents);
    crate::text::push_str(&mut s, money.as_str());
    s
}

/// The partner search artifact's summary.
pub fn partners_summary(total: u64) -> (s: String)
    ensures
        s@ == "找到 "@ + crate::text::nat_text(total as nat) + " 位高匹配伙伴"@,
{
    let n = crate::text::uint_to_string(total);
    crate::text::concat3("找到 ", n.as_str(), " 位高匹配伙伴")
}

/// The plan recommendation artifact's summary.
pub fn plans_summary(total: u64) -> (s: String)
    ensures
        s@ == "生成 "@ + crate::text::nat_text(total as nat) + " 个数据驱动方案"@,
{
    let n = crate::text::uint_to_string(total);
    crate::text::concat3("生成 ", n.as_str(), " 个数据驱动方案")
}

/// The title of a failed tool run's artifact.
pub fn failed_tool_title(label: &str) -> (t: String)
    ensures
        t@ == label@ + "未完成"@,
{
    crate::text::concat2(label, "未完成")
}

/// The connection artifact's title: a new conversation, or the existing one.
pub fn connection_title(created: bool, partner_name: &str) -> (t: String)
    ensures
        created ==> t@ == "已联系"@ + partner_name@,
        !created ==> t@ == "与"@ + partner_name@ + "的会话已存在"@,
{
    if created {
        crate::text::concat2("已联系", partner_name)
    } else {
        crate::text::concat3("与", partner_name, "的会话已存在")
    }
}

/// The saved plan artifact's title and summary.
pub fn saved_plan_texts(created: bool) -> (t: (&'static str, &'static str))
    ensures
        created ==> t.0@ == "方案已收藏"@ && t.1@ == "已写入你的收藏，可随时继续执行。"@,
        !created ==> t.0@ == "方案已在收藏中"@ && t.1@ == "无需重复收藏，可继续安排后续执行。"@,
{
    if created {
        ("方案已收藏", "已写入你的收藏，可随时继续执行。")
    } else {
        ("方案已在收藏中", "无需重复收藏，可继续安排后续执行。")
    }
}

/// The follow-up task artifact's title and summary.
pub fn follow_up_texts(created: bool) -> (t: (&'static str, &'static str))
    ensures
        created ==> t.0@ == "执行任务已创建"@ && t.1@ == "任务已进入消息中心，后续可继续跟进。"@,
        !created ==> t.0@ == "跟进任务已存在"@ && t.1@ == "五分钟内不会重复创建相同任务。"@,
{
    if created {
        ("执行任务已创建", "任务已进入消息中心，后续可继续跟进。")
    } else {
        ("跟进任务已存在", "五分钟内不会重复创建相同任务。")
    }
}

// ---------------------------------------------------------------------------
// Model instructions and the welcome message
// ---------------------------------------------------------------------------

/// Text before the user's role in the model's instructions.
pub const SYSTEM_PROMPT_ROLE: &'static str = "\n\n当前用户身份：";

/// Text between the user's role and organisation in the model's instructions.
pub const SYSTEM_PROMPT_RULES: &'static str = "。所有业务数据必须通过已注册工具实时读取，禁止编造数据库结果。\
         你负责理解意图、选择工具和基于工具结果总结；不使用 RAG、向量检索或第二个模型。\
         每个工具只接受 query 字段。只有用户明确要求执行写入动作时，才可调用 write 工具。\
         当前用户组织：";

/// Text after the user's organisation in the model's instructions.
pub const SYSTEM_PROMPT_END: &'static str = "。";

/// `model_system_prompt`: the configured prompt followed by the platform's
/// rules, with the user's role and organisation.
pub fn model_system_prompt(system_prompt: &str, role: &str, organization: &str) -> (p: String)
    ensures
        p@ == system_prompt@ + SYSTEM_PROMPT_ROLE@ + role@ + SYSTEM_PROMPT_RULES@ + organization@
            + SYSTEM_PROMPT_END@,
{
    let mut p = crate::text::owned(system_prompt);
    crate::text::push_str(&mut p, SYSTEM_PROMPT_ROLE);
    crate::text::push_str(&mut p, role);
    crate::text::push_str(&mut p, SYSTEM_PROMPT_RULES);
    crate::text::push_str(&mut p, organization);
    crate::text::push_str(&mut p, SYSTEM_PROMPT_END);
    p
}

/// `s` with every non-overlapping occurrence of the non-empty `pattern`,
/// found left to right, replaced by `replacement` (`str::replace`).
pub open spec fn replace_all(s: Seq<char>, pattern: Seq<char>, replacement: Seq<char>) -> Seq<char>
    decreases s.len(),
{
    if pattern.len() == 0 || s.len() < pattern.len() {
        s
    } else if s.take(pattern.len() as int) == pattern {
        replacement + replace_all(s.skip(pattern.len() as int), pattern, replacement)
    } else {
        seq![s[0]] + replace_all(s.drop_first(), pattern, replacement)
    }
}

/// `str::replace` for a non-empty pattern.
pub fn replace_text(s: &str, pattern: &str, replacement: &str) -> (r: String)
    requires
        pattern@.len() > 0,
    ensures
        r@ == replace_all(s@, pattern@, replacement@),
{
    let c = chars_of(s);
    let p = chars_of(pattern);
    let n = c.len();
    let m = p.len();
    let mut out = String::new();
    let mut i: usize = 0;
    assert(c@.skip(0) =~= c@);
    assert(out@ + replace_all(c@.skip(0), p@, replacement@) =~= replace_all(
        c@,
        p@,
        replacement@,
    ));
    while i < n
        invariant
            n == c@.len(),
            m == p@.len(),
            m > 0,
            c@ == s@,
            p@ == pattern@,
            i <= n,
            out@ + replace_all(c@.skip(i as int), p@, replacement@) == replace_all(
                c@,
                p@,
                replacement@,
            ),
        decreases n - i,
    {
        let ghost rest = c@.skip(i as int);
        if occurs_at_exec(c.as_slice(), p.as_slice(), i) {
            assert(rest.take(m as int) =~= c@.subrange(i as int, i + m));
            assert(rest.skip(m as int) =~= c@.skip(i + m));
            crate::text::push_str(&mut out, replacement);
            assert(out@ + replace_all(c@.skip(i + m), p@, replacement@) =~= (out@.subrange(
                0,
                out@.len() - replacement@.len(),
            ) + replace_all(rest, p@, replacement@)));
            i = i + m;
        } else {
            proof {
                if rest.len() >= m {
                    assert(rest.take(m as int) != p@) by {
                        if rest.take(m as int) == p@ {
                            assert(c@.subrange(i as int, i + m) =~= rest.take(m as int));
                        }
                    }
                }
                assert(rest.drop_first() =~= c@.skip(i + 1));
                assert(rest[0] == c@[i as int]);
            }
            let ghost before = out@;
            crate::text::push_char(&mut out, c[i]);
            assert(out@ + replace_all(c@.skip(i + 1), p@, replacement@) =~= before + replace_all(
                rest,
                p@,
                replacement@,
            ));
            i = i + 1;
        }
    }
    assert(c@.skip(i as int) =~= Seq::<char>::empty());
    out
}

/// The welcome message of a new session: the configured text with
/// `{organization}` replaced by the user's organisation.
pub fn welcome_message(template: &str, organization: &str) -> (w: String)
    ensures
        w@ == replace_all(template@, "{organization}"@, organization@),
{
    proof {
        reveal_strlit("{organization}");
    }
    replace_text(template, "{organization}", organization)
}

} // verus!
