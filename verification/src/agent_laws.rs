//! Properties of the agent's tool selection that hold for every registry
//! and every prompt.
use vstd::prelude::*;
use crate::agent::{
    action_blocked_spec, any_group_matches, contains_any_spec, push_required, push_unique,
    read_tool_names, search_keyword_spec, select_tools_spec, selected_prefix, texts,
    tool_matches_spec, tool_named, verb_negated_from, RuntimeTool,
};
use crate::text::{is_substring, occurs_at, trim_seq};

verus! {

/// Tool `tools[i]` matches and contributes `x`: its own name, or one of its
/// required tools that is registered.
pub open spec fn contributes(tools: Seq<RuntimeTool>, prompt: Seq<char>, i: int, x: Seq<char>) -> bool {
    &&& 0 <= i < tools.len()
    &&& tool_matches_spec(tools[i], prompt)
    &&& (tools[i].name@ == x || (exists|k: int|
        0 <= k < tools[i].required_tools@.len() && #[trigger] tools[i].required_tools@[k]@ == x)
        && tool_named(tools, x))
}

/// Some tool among the first `n` matches the prompt.
pub open spec fn some_tool_matches(tools: Seq<RuntimeTool>, prompt: Seq<char>, n: int) -> bool {
    exists|i: int| 0 <= i < n && tool_matches_spec(#[trigger] tools[i], prompt)
}

/// `acc` is an initial part of `s`.
pub open spec fn is_prefix_of(acc: Seq<Seq<char>>, s: Seq<Seq<char>>) -> bool {
    acc.len() <= s.len() && s.take(acc.len() as int) == acc
}

proof fn lemma_push_unique(acc: Seq<Seq<char>>, x: Seq<char>)
    ensures
        is_prefix_of(acc, push_unique(acc, x)),
        push_unique(acc, x).contains(x),
        forall|y: Seq<char>| #[trigger] push_unique(acc, x).contains(y) <==> (acc.contains(y) || y == x),
        acc.no_duplicates() ==> push_unique(acc, x).no_duplicates(),
{
    if !acc.contains(x) {
        let r = acc.push(x);
        assert(r.take(acc.len() as int) =~= acc);
        assert(r[acc.len() as int] == x);
        assert forall|y: Seq<char>| #[trigger] r.contains(y) <==> (acc.contains(y) || y == x) by {
            if r.contains(y) {
                let j = choose|j: int| 0 <= j < r.len() && r[j] == y;
                if j < acc.len() {
                    assert(acc[j] == y);
                }
            }
            if acc.contains(y) {
                let j = choose|j: int| 0 <= j < acc.len() && acc[j] == y;
                assert(r[j] == y);
            }
        }
        if acc.no_duplicates() {
            assert forall|i: int, j: int| 0 <= i < r.len() && 0 <= j < r.len() && i != j implies r[i]
                != r[j] by {
                if i == acc.len() {
                    assert(acc[j] == r[j]);
                } else if j == acc.len() {
                    assert(acc[i] == r[i]);
                }
            }
        }
    } else {
        assert(acc.take(acc.len() as int) =~= acc);
    }
}

proof fn lemma_prefix_trans(a: Seq<Seq<char>>, b: Seq<Seq<char>>, c: Seq<Seq<char>>)
    requires
        is_prefix_of(a, b),
        is_prefix_of(b, c),
    ensures
        is_prefix_of(a, c),
{
    assert(c.take(a.len() as int) =~= b.take(a.len() as int));
}

proof fn lemma_push_required(acc: Seq<Seq<char>>, required: Seq<String>, tools: Seq<RuntimeTool>)
    ensures
        is_prefix_of(acc, push_required(acc, required, tools)),
        forall|y: Seq<char>| #[trigger] push_required(acc, required, tools).contains(y) <==> (
        acc.contains(y) || ((exists|k: int| 0 <= k < required.len() && #[trigger] required[k]@ == y)
            && tool_named(tools, y))),
        acc.no_duplicates() ==> push_required(acc, required, tools).no_duplicates(),
    decreases required.len(),
{
    if required.len() > 0 {
        let init = required.drop_last();
        let last = required.last()@;
        lemma_push_required(acc, init, tools);
        let before = push_required(acc, init, tools);
        lemma_push_unique(before, last);
        if tool_named(tools, last) {
            lemma_prefix_trans(acc, before, push_unique(before, last));
        }
        let r = push_required(acc, required, tools);
        assert forall|y: Seq<char>| #[trigger] r.contains(y) <==> (acc.contains(y) || ((exists|k: int|
            0 <= k < required.len() && #[trigger] required[k]@ == y) && tool_named(tools, y))) by {
            if exists|k: int| 0 <= k < required.len() && #[trigger] required[k]@ == y {
                let k = choose|k: int| 0 <= k < required.len() && #[trigger] required[k]@ == y;
                if k < init.len() {
                    assert(init[k]@ == y);
                }
            }
            if exists|k: int| 0 <= k < init.len() && #[trigger] init[k]@ == y {
                let k = choose|k: int| 0 <= k < init.len() && #[trigger] init[k]@ == y;
                assert(required[k]@ == y);
            }
            if y == last {
                assert(required[required.len() - 1]@ == y);
            }
        }
    } else {
        assert(acc.take(acc.len() as int) =~= acc);
    }
}

proof fn lemma_selected_prefix(tools: Seq<RuntimeTool>, prompt: Seq<char>, n: nat)
    requires
        n <= tools.len(),
    ensures
        selected_prefix(tools, prompt, n).no_duplicates(),
        forall|y: Seq<char>| #[trigger] selected_prefix(tools, prompt, n).contains(y) <==> (exists|
            i: int,
        | 0 <= i < n && contributes(tools, prompt, i, y)),
    decreases n,
{
    if n > 0 {
        let m = (n - 1) as nat;
        lemma_selected_prefix(tools, prompt, m);
        let acc = selected_prefix(tools, prompt, m);
        let tool = tools[m as int];
        let s = selected_prefix(tools, prompt, n);
        if tool_matches_spec(tool, prompt) {
            let r = push_required(acc, tool.required_tools@, tools);
            lemma_push_required(acc, tool.required_tools@, tools);
            lemma_push_unique(r, tool.name@);
        }
        assert forall|y: Seq<char>| #[trigger] s.contains(y) <==> (exists|i: int|
            0 <= i < n && contributes(tools, prompt, i, y)) by {
            if exists|i: int| 0 <= i < n && contributes(tools, prompt, i, y) {
                let i = choose|i: int| 0 <= i < n && contributes(tools, prompt, i, y);
                if i < m {
                    assert(acc.contains(y));
                }
            }
            if acc.contains(y) {
                let i = choose|i: int| 0 <= i < m && contributes(tools, prompt, i, y);
                assert(0 <= i < n && contributes(tools, prompt, i, y));
            }
            if tool_matches_spec(tool, prompt) && s.contains(y) && !acc.contains(y) {
                assert(contributes(tools, prompt, m as int, y));
            }
        }
    } else {
        assert(selected_prefix(tools, prompt, 0) =~= Seq::<Seq<char>>::empty());
    }
}

proof fn lemma_selected_prefix_grows(tools: Seq<RuntimeTool>, prompt: Seq<char>, a: nat, b: nat)
    requires
        a <= b <= tools.len(),
    ensures
        is_prefix_of(selected_prefix(tools, prompt, a), selected_prefix(tools, prompt, b)),
    decreases b,
{
    if a == b {
        let s = selected_prefix(tools, prompt, a);
        assert(s.take(s.len() as int) =~= s);
    } else {
        let m = (b - 1) as nat;
        lemma_selected_prefix_grows(tools, prompt, a, m);
        let acc = selected_prefix(tools, prompt, m);
        let tool = tools[m as int];
        if tool_matches_spec(tool, prompt) {
            let r = push_required(acc, tool.required_tools@, tools);
            lemma_push_required(acc, tool.required_tools@, tools);
            lemma_push_unique(r, tool.name@);
            lemma_prefix_trans(acc, r, push_unique(r, tool.name@));
            lemma_prefix_trans(selected_prefix(tools, prompt, a), acc, push_unique(r, tool.name@));
        }
    }
}

proof fn lemma_read_tool_names(tools: Seq<RuntimeTool>, n: nat)
    requires
        n <= tools.len(),
    ensures
        read_tool_names(tools, n).no_duplicates(),
        forall|y: Seq<char>| #[trigger] read_tool_names(tools, n).contains(y) <==> (exists|i: int|
            0 <= i < n && (#[trigger] tools[i]).mode@ == "read"@ && tools[i].name@ == y),
    decreases n,
{
    if n > 0 {
        let m = (n - 1) as nat;
        lemma_read_tool_names(tools, m);
        let acc = read_tool_names(tools, m);
        lemma_push_unique(acc, tools[m as int].name@);
        let s = read_tool_names(tools, n);
        assert forall|y: Seq<char>| #[trigger] s.contains(y) <==> (exists|i: int|
            0 <= i < n && (#[trigger] tools[i]).mode@ == "read"@ && tools[i].name@ == y) by {
            if exists|i: int| 0 <= i < n && (#[trigger] tools[i]).mode@ == "read"@ && tools[i].name@
                == y {
                let i = choose|i: int|
                    0 <= i < n && (#[trigger] tools[i]).mode@ == "read"@ && tools[i].name@ == y;
                if i < m {
                    assert(acc.contains(y));
                }
            }
            if acc.contains(y) {
                let i = choose|i: int|
                    0 <= i < m && (#[trigger] tools[i]).mode@ == "read"@ && tools[i].name@ == y;
                assert(0 <= i < n && tools[i].mode@ == "read"@ && tools[i].name@ == y);
            }
        }
    } else {
        assert(read_tool_names(tools, 0) =~= Seq::<Seq<char>>::empty());
    }
}

/// The local orchestration never runs a tool twice for one prompt.
pub proof fn law_selection_has_no_duplicates(tools: Seq<RuntimeTool>, prompt: Seq<char>)
    ensures
        select_tools_spec(tools, prompt).no_duplicates(),
{
    lemma_selected_prefix(tools, prompt, tools.len());
    lemma_read_tool_names(tools, tools.len());
}

/// When some tool matches the prompt, exactly the matching tools and their
/// registered requirements are selected.
pub proof fn law_selection_when_intent_matches(
    tools: Seq<RuntimeTool>,
    prompt: Seq<char>,
    x: Seq<char>,
)
    requires
        some_tool_matches(tools, prompt, tools.len() as int),
    ensures
        select_tools_spec(tools, prompt).contains(x) <==> (exists|i: int|
            contributes(tools, prompt, i, x)),
{
    lemma_selected_prefix(tools, prompt, tools.len());
    let i = choose|i: int| 0 <= i < tools.len() && tool_matches_spec(#[trigger] tools[i], prompt);
    assert(contributes(tools, prompt, i, tools[i].name@));
    let s = selected_prefix(tools, prompt, tools.len());
    assert(s.contains(tools[i].name@));
    assert(s.len() > 0);
}

/// When no tool matches the prompt, every read tool is selected, and no
/// write tool.
pub proof fn law_selection_falls_back_to_read_tools(
    tools: Seq<RuntimeTool>,
    prompt: Seq<char>,
    x: Seq<char>,
)
    requires
        !some_tool_matches(tools, prompt, tools.len() as int),
    ensures
        select_tools_spec(tools, prompt).contains(x) <==> (exists|i: int|
            0 <= i < tools.len() && (#[trigger] tools[i]).mode@ == "read"@ && tools[i].name@ == x),
{
    lemma_selected_prefix(tools, prompt, tools.len());
    lemma_read_tool_names(tools, tools.len());
    let s = selected_prefix(tools, prompt, tools.len());
    if s.len() > 0 {
        assert(s.contains(s[0]));
        let i = choose|i: int| 0 <= i < tools.len() && contributes(tools, prompt, i, s[0]);
        assert(tool_matches_spec(tools[i], prompt));
    }
}

/// A registered tool that a matching tool requires runs before it (unless
/// that tool was already selected earlier, or requires itself).
pub proof fn law_required_tools_run_first(
    tools: Seq<RuntimeTool>,
    prompt: Seq<char>,
    i: int,
    k: int,
)
    requires
        0 <= i < tools.len(),
        tool_matches_spec(tools[i], prompt),
        !selected_prefix(tools, prompt, i as nat).contains(tools[i].name@),
        !texts(tools[i].required_tools@).contains(tools[i].name@),
        0 <= k < tools[i].required_tools@.len(),
        tool_named(tools, tools[i].required_tools@[k]@),
    ensures
        exists|a: int, b: int|
            0 <= a < b < select_tools_spec(tools, prompt).len() && select_tools_spec(tools, prompt)[a]
                == tools[i].required_tools@[k]@ && select_tools_spec(tools, prompt)[b]
                == tools[i].name@,
{
    let tool = tools[i];
    let name = tool.name@;
    let req = tool.required_tools@[k]@;
    let acc = selected_prefix(tools, prompt, i as nat);
    let r = push_required(acc, tool.required_tools@, tools);
    lemma_push_required(acc, tool.required_tools@, tools);
    assert(!r.contains(name)) by {
        if r.contains(name) {
            let kk = choose|kk: int|
                0 <= kk < tool.required_tools@.len() && #[trigger] tool.required_tools@[kk]@ == name;
            assert(texts(tool.required_tools@)[kk] == name);
        }
    }
    assert(r.contains(req));
    let a = choose|a: int| 0 <= a < r.len() && r[a] == req;
    let next = selected_prefix(tools, prompt, (i + 1) as nat);
    assert(next == r.push(name));
    lemma_selected_prefix_grows(tools, prompt, (i + 1) as nat, tools.len());
    let all = selected_prefix(tools, prompt, tools.len());
    assert(all.take(next.len() as int) == next);
    assert(all[a] == next[a]);
    assert(all[r.len() as int] == next[r.len() as int]);
    assert(all.len() > 0);
    let sel = select_tools_spec(tools, prompt);
    assert(sel == all);
    let b = r.len() as int;
    assert(0 <= a < b < sel.len() && sel[a] == req && sel[b] == name);
}

/// A tool never matches a prompt that holds one of its blocked keywords.
pub proof fn law_blocked_keywords_prevent_match(tool: RuntimeTool, prompt: Seq<char>)
    requires
        contains_any_spec(prompt, tool.blocked_keywords@),
    ensures
        !tool_matches_spec(tool, prompt),
{
}

/// A write tool matches only on an explicit keyword group, and never when one
/// of its action verbs is negated shortly before it occurs.
pub proof fn law_write_tools_need_explicit_unnegated_intent(
    tool: RuntimeTool,
    prompt: Seq<char>,
)
    requires
        tool.mode@ != "read"@,
        tool_matches_spec(tool, prompt),
    ensures
        any_group_matches(prompt, tool.keyword_groups@),
        forall|v: int|
            0 <= v < tool.keywords@.len() ==> !verb_negated_from(
                prompt,
                #[trigger] tool.keywords@[v]@,
                0,
            ),
        !contains_any_spec(prompt, tool.blocked_keywords@),
{
}

/// The words that refuse or question an action when written right before
/// its verb.
pub open spec fn refusal_words() -> Seq<Seq<char>> {
    seq![
        "不要"@, "别"@, "无需"@, "不必"@, "暂不"@, "先不"@, "请勿"@, "禁止"@, "取消"@,
        "怎么"@, "如何"@, "能否"@, "是否"@, "可否"@, "该不该"@,
    ]
}

/// Scanning for `verb` from `start` finds nothing before `target` where the
/// verb does not occur.
proof fn lemma_scan_skips(text: Seq<char>, verb: Seq<char>, start: int, target: int)
    requires
        0 <= start <= target,
        target + verb.len() <= text.len(),
        forall|p: int| start <= p < target ==> !occurs_at(text, verb, p),
    ensures
        verb_negated_from(text, verb, start) == verb_negated_from(text, verb, target),
    decreases target - start,
{
    if start < target {
        assert(!occurs_at(text, verb, start));
        lemma_scan_skips(text, verb, start + 1, target);
    }
}

/// A refusal word, or a bare 不, written right before an action verb blocks
/// the action,
/// whatever follows and whatever else is asked, provided the verb does not
/// already occur across the refusal word (the scan for the verb goes left
/// to right without overlaps).
pub proof fn law_refusal_word_before_verb_blocks(
    word: Seq<char>,
    verbs: Seq<String>,
    i: int,
    rest: Seq<char>,
    informational: Seq<String>,
)
    requires
        refusal_words().contains(word) || word == "不"@,
        0 <= i < verbs.len(),
        forall|p: int| 0 <= p < word.len() ==> !occurs_at(word + verbs[i]@ + rest, verbs[i]@, p),
    ensures
        action_blocked_spec(word + verbs[i]@ + rest, verbs, informational),
{
    let v = verbs[i]@;
    let text = word + v + rest;
    let l = word.len() as int;
    lemma_scan_skips(text, v, 0, l);
    assert(text.subrange(l, l + v.len()) =~= v);
    assert(occurs_at(text, v, l));
    reveal_strlit("不");
    if word == "不"@ {
        assert(text.subrange(0, l) =~= word);
        assert(crate::agent::recent_window(text, l).last() == '不');
        assert(crate::agent::negated_at(text, l));
        assert(verb_negated_from(text, v, l));
    } else {
        let k = choose|k: int| 0 <= k < refusal_words().len() && refusal_words()[k] == word;
        reveal_strlit("不要");
        reveal_strlit("别");
        reveal_strlit("无需");
        reveal_strlit("不必");
        reveal_strlit("暂不");
        reveal_strlit("先不");
        reveal_strlit("请勿");
        reveal_strlit("禁止");
        reveal_strlit("取消");
        reveal_strlit("怎么");
        reveal_strlit("如何");
        reveal_strlit("能否");
        reveal_strlit("是否");
        reveal_strlit("可否");
        reveal_strlit("该不该");
        assert(refusal_words()[k].len() <= 3);
        assert(l < 10);
        assert(text.subrange(0, l) =~= word);
        assert(crate::agent::recent_window(text, l) == word);
        assert(word.subrange(0, l) =~= word);
        assert(occurs_at(word, word, 0));
        assert(is_substring(crate::agent::negation_words()[k], crate::agent::recent_window(text, l)));
        assert(crate::agent::negated_at(text, l));
        assert(verb_negated_from(text, v, l));
    }
    assert(verb_negated_from(text, verbs[i]@, 0));
}

/// A write tool never runs when a refusal word stands right before one of
/// its action verbs (under the same proviso).
pub proof fn law_refused_write_tool_does_not_match(
    tool: RuntimeTool,
    word: Seq<char>,
    i: int,
    rest: Seq<char>,
)
    requires
        tool.mode@ != "read"@,
        refusal_words().contains(word) || word == "不"@,
        0 <= i < tool.keywords@.len(),
        forall|p: int|
            0 <= p < word.len() ==> !occurs_at(
                word + tool.keywords@[i]@ + rest,
                tool.keywords@[i]@,
                p,
            ),
    ensures
        !tool_matches_spec(tool, word + tool.keywords@[i]@ + rest),
{
    law_refusal_word_before_verb_blocks(word, tool.keywords@, i, rest, tool.blocked_keywords@);
}

/// The keywords a partner search recognises in a prompt, in order of
/// preference.
pub open spec fn partner_search_words() -> Seq<Seq<char>> {
    seq!["短视频"@, "校园"@, "品牌"@, "媒体"@, "词曲"@, "混音"@, "推广"@]
}

proof fn lemma_first_keyword(prompt: Seq<char>, i: int)
    requires
        0 <= i <= 7,
    ensures
        match crate::agent::first_search_keyword(prompt, i) {
            Some(w) => exists|j: int|
                i <= j < 7 && w == partner_search_words()[j] && is_substring(
                    partner_search_words()[j],
                    prompt,
                ) && forall|h: int| i <= h < j ==> !is_substring(partner_search_words()[h], prompt),
            None => forall|h: int| i <= h < 7 ==> !is_substring(partner_search_words()[h], prompt),
        },
    decreases 7 - i,
{
    assert(crate::agent::search_keywords() =~= partner_search_words());
    if i < 7 {
        lemma_first_keyword(prompt, i + 1);
    }
}

/// Without a usable keyword from the model, a partner search filters by the
/// first of 短视频, 校园, 品牌, 媒体, 词曲, 混音, 推广 that the prompt
/// contains, and by none when it contains none of them; a usable keyword is
/// used trimmed.
pub proof fn law_search_keyword_prefers_listed_words(
    keyword: Option<Seq<char>>,
    prompt: Seq<char>,
)
    ensures
        (keyword matches Some(k) && trim_seq(k).len() > 0) ==> search_keyword_spec(keyword, prompt)
            == Some(trim_seq(keyword->0)),
        !(keyword matches Some(k) && trim_seq(k).len() > 0) ==> match search_keyword_spec(
            keyword,
            prompt,
        ) {
            Some(w) => exists|j: int|
                0 <= j < 7 && w == partner_search_words()[j] && is_substring(
                    partner_search_words()[j],
                    prompt,
                ) && forall|h: int| 0 <= h < j ==> !is_substring(partner_search_words()[h], prompt),
            None => forall|h: int| 0 <= h < 7 ==> !is_substring(partner_search_words()[h], prompt),
        },
{
    lemma_first_keyword(prompt, 0);
}

} // verus!
