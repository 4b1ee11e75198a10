//! Administration of the agent: tool registry edits and the session list.
use vstd::prelude::*;
use crate::agent::texts;
use crate::error::{AppError, is_bad_request, bad_request};
use crate::json::{group_texts, groups_to_json, json_of_groups, json_of_strings, strings_to_json};
use crate::models::{AgentToolInput, SessionListParams};
use crate::text::str_eq;

verus! {

/// The list columns of a tool as stored: JSON texts.
pub struct ToolColumns {
    pub keywords: String,
    pub blocked_keywords: String,
    pub keyword_groups: String,
    pub required_tools: String,
}

/// `upsert_tool`'s stored lists: the JSON text of each of the tool's lists.
pub fn tool_columns(input: &AgentToolInput) -> (r: Result<ToolColumns, AppError>)
    ensures
        r matches Ok(c) && {
            &&& c.keywords@ == json_of_strings(texts(input.keywords@))
            &&& c.blocked_keywords@ == json_of_strings(texts(input.blocked_keywords@))
            &&& c.keyword_groups@ == json_of_groups(group_texts(input.keyword_groups@))
            &&& c.required_tools@ == json_of_strings(texts(input.required_tools@))
        },
{
    let keywords = strings_to_json(&input.keywords)?;
    let blocked_keywords = strings_to_json(&input.blocked_keywords)?;
    let keyword_groups = groups_to_json(&input.keyword_groups)?;
    let required_tools = strings_to_json(&input.required_tools)?;
    Ok(ToolColumns { keywords, blocked_keywords, keyword_groups, required_tools })
}

/// `update_tool`'s rule: the edited tool is the one the path names.
pub fn check_tool_name(path_name: &str, input: &AgentToolInput) -> (r: Result<(), AppError>)
    ensures
        path_name@ == input.name@ ==> r is Ok,
        path_name@ != input.name@ ==> (r matches Err(e) && is_bad_request(e, "tool name mismatch"@)),
{
    if !str_eq(path_name, input.name.as_str()) {
        return Err(bad_request("tool name mismatch"));
    }
    Ok(())
}

/// `list_sessions`' page: fifty sessions from the first unless asked
/// otherwise, as `(limit, offset)`.
pub fn session_page(params: &SessionListParams) -> (page: (i64, i64))
    ensures
        page.0 == (match params.limit {
            Some(l) => l,
            None => 50,
        }),
        page.1 == (match params.offset {
            Some(o) => o,
            None => 0,
        }),
{
    let limit = match params.limit {
        Some(l) => l,
        None => 50,
    };
    let offset = match params.offset {
        Some(o) => o,
        None => 0,
    };
    (limit, offset)
}

} // verus!
