//! Reading a turn of an OpenAI-compatible chat completion: the assistant's
//! text and the tool calls it asks for.
use vstd::prelude::*;
use crate::text::{owned, str_eq};

verus! {

/// A JSON document as the model endpoint returns it.
pub enum JsonValue {
    Null,
    Bool(bool),
    /// A number, as its JSON text.
    Number(String),
    Str(String),
    Array(Vec<JsonValue>),
    /// Members in document order; keys are distinct.
    Object(Vec<(String, JsonValue)>),
}

/// The member `key` of an object's members (the first one so named).
pub open spec fn member(entries: Seq<(String, JsonValue)>, key: Seq<char>) -> Option<JsonValue>
    decreases entries.len(),
{
    if entries.len() == 0 {
        None
    } else if entries[0].0@ == key {
        Some(entries[0].1)
    } else {
        member(entries.drop_first(), key)
    }
}

/// `Value::get(key)`: the member of an object; nothing for other values.
pub open spec fn get_spec(v: JsonValue, key: Seq<char>) -> Option<JsonValue> {
    match v {
        JsonValue::Object(entries) => member(entries@, key),
        _ => None,
    }
}

/// `Value::as_str`: the text of a string value.
pub open spec fn as_str_spec(v: Option<JsonValue>) -> Option<Seq<char>> {
    match v {
        Some(JsonValue::Str(s)) => Some(s@),
        _ => None,
    }
}

/// One step of the JSON pointer `/choices/0/message`: `0` reads an array's
/// first element or an object's member `0`.
pub open spec fn first_element_spec(v: JsonValue) -> Option<JsonValue> {
    match v {
        JsonValue::Array(items) => if items@.len() > 0 {
            Some(items@[0])
        } else {
            None
        },
        JsonValue::Object(entries) => member(entries@, "0"@),
        _ => None,
    }
}

/// `body.pointer("/choices/0/message")`.
pub open spec fn message_spec(body: JsonValue) -> Option<JsonValue> {
    match get_spec(body, "choices"@) {
        Some(choices) => match first_element_spec(choices) {
            Some(choice) => get_spec(choice, "message"@),
            None => None,
        },
        None => None,
    }
}

/// A tool call read from the model: `(id, name, raw arguments)`, or nothing
/// where the id or the function name is missing or not a string.
pub open spec fn tool_call_spec(call: JsonValue) -> Option<(Seq<char>, Seq<char>, Seq<char>)> {
    match as_str_spec(get_spec(call, "id"@)) {
        Some(id) => match get_spec(call, "function"@) {
            Some(function) => match as_str_spec(get_spec(function, "name"@)) {
                Some(name) => Some(
                    (
                        id,
                        name,
                        match as_str_spec(get_spec(function, "arguments"@)) {
                            Some(a) => a,
                            None => "{}"@,
                        },
                    ),
                ),
                None => None,
            },
            None => None,
        },
        None => None,
    }
}

/// The readable tool calls, in order.
pub open spec fn tool_calls_spec(calls: Seq<JsonValue>) -> Seq<(Seq<char>, Seq<char>, Seq<char>)>
    decreases calls.len(),
{
    if calls.len() == 0 {
        Seq::empty()
    } else {
        let before = tool_calls_spec(calls.drop_last());
        match tool_call_spec(calls.last()) {
            Some(c) => before.push(c),
            None => before,
        }
    }
}

/// The tool calls of a message: those of its `tool_calls` array.
pub open spec fn message_tool_calls(message: JsonValue) -> Seq<(Seq<char>, Seq<char>, Seq<char>)> {
    match get_spec(message, "tool_calls"@) {
        Some(JsonValue::Array(calls)) => tool_calls_spec(calls@),
        _ => Seq::empty(),
    }
}

/// A turn of the model.
pub struct ModelTurn {
    pub content: Option<String>,
    pub tool_calls: Vec<ModelToolCall>,
}

/// A tool call the model asks for.
pub struct ModelToolCall {
    pub id: String,
    pub name: String,
    pub raw_arguments: String,
    /// The arguments read as JSON; an empty object where they are not JSON.
    pub arguments: JsonValue,
}

#[verifier::external_type_specification]
#[verifier::external_body]
pub struct ExJsonValue(serde_json::Value);

/// The document `serde_json::from_str::<serde_json::Value>` reads from
/// `text`, in the library's form, or `None` where the text is no JSON.
pub uninterp spec fn json_document(text: Seq<char>) -> Option<JsonValue>;

/// `serde_json::from_str::<serde_json::Value>(text)`, converted to the
/// library's form: the result is the name's value.
#[verifier::external_body]
fn read_json(text: &str) -> (r: Option<JsonValue>)
    ensures
        r == json_document(text@),
{
    match serde_json::from_str::<serde_json::Value>(text) {
        Ok(v) => Some(from_serde(&v)),
        Err(_) => None,
    }
}

/// serde_json's value in the library's form, variant for variant: members
/// in the map's order, a number as serde_json prints it.  Only `read_json`
/// converts with it.
#[verifier::external_body]
fn from_serde(v: &serde_json::Value) -> JsonValue {
    match v {
        serde_json::Value::Null => JsonValue::Null,
        serde_json::Value::Bool(b) => JsonValue::Bool(*b),
        serde_json::Value::Number(n) => JsonValue::Number(n.to_string()),
        serde_json::Value::String(t) => JsonValue::Str(t.clone()),
        serde_json::Value::Array(a) => JsonValue::Array(a.iter().map(from_serde).collect()),
        serde_json::Value::Object(m) => JsonValue::Object(
            m.iter().map(|(k, x)| (k.clone(), from_serde(x))).collect(),
        ),
    }
}

/// Whether `v` is what the arguments text `raw` reads as: its JSON document,
/// or an empty object where it holds none.
pub open spec fn arguments_read(raw: Seq<char>, v: JsonValue) -> bool {
    match json_document(raw) {
        Some(d) => v == d,
        None => v matches JsonValue::Object(members) && members@.len() == 0,
    }
}

/// The arguments of a tool call: `raw` read as JSON, or an empty object.
pub fn read_arguments(raw: &str) -> (v: JsonValue)
    ensures
        arguments_read(raw@, v),
{
    match read_json(raw) {
        Some(d) => d,
        None => JsonValue::Object(Vec::new()),
    }
}

/// The input a requested tool runs with: the model's arguments where they
/// are an object, otherwise an object holding the user's prompt as `query`.
pub fn tool_input(arguments: JsonValue, prompt: &str) -> (v: JsonValue)
    ensures
        arguments is Object ==> v == arguments,
        !(arguments is Object) ==> (v matches JsonValue::Object(members) && members@.len() == 1
            && members@[0].0@ == "query"@ && (members@[0].1 matches JsonValue::Str(q) && q@
            == prompt@)),
{
    match arguments {
        JsonValue::Object(members) => JsonValue::Object(members),
        _ => {
            let mut members: Vec<(String, JsonValue)> = Vec::new();
            members.push((owned("query"), JsonValue::Str(owned(prompt))));
            JsonValue::Object(members)
        },
    }
}

/// The texts of a turn: its content and, for each tool call, its id, name
/// and raw arguments (what the arguments read as is `arguments_read`).
pub open spec fn turn_view(turn: ModelTurn) -> (Option<Seq<char>>, Seq<(Seq<char>, Seq<char>, Seq<char>)>) {
    (
        match turn.content {
            Some(c) => Some(c@),
            None => None,
        },
        turn.tool_calls@.map_values(|c: ModelToolCall| (c.id@, c.name@, c.raw_arguments@)),
    )
}

/// What `parse_model_turn` gives for a response body.
pub open spec fn parse_model_turn_spec(body: JsonValue) -> Result<
    (Option<Seq<char>>, Seq<(Seq<char>, Seq<char>, Seq<char>)>),
    Seq<char>,
> {
    match message_spec(body) {
        None => Err("model response has no message"@),
        Some(message) => {
            let content = as_str_spec(get_spec(message, "content"@));
            let calls = message_tool_calls(message);
            if content is None && calls.len() == 0 {
                Err("model response is empty"@)
            } else {
                Ok((content, calls))
            }
        },
    }
}

/// `Value::get`.
pub fn get<'a>(v: &'a JsonValue, key: &str) -> (r: Option<&'a JsonValue>)
    ensures
        match r {
            Some(x) => get_spec(*v, key@) == Some(*x),
            None => get_spec(*v, key@) is None,
        },
{
    match v {
        JsonValue::Object(entries) => {
            let n = entries.len();
            assert(entries@.skip(0) =~= entries@);
            for i in 0..n
                invariant
                    n == entries@.len(),
                    get_spec(*v, key@) == member(entries@, key@),
                    member(entries@, key@) == member(entries@.skip(i as int), key@),
            {
                let ghost rest = entries@.skip(i as int);
                assert(rest[0] == entries@[i as int]);
                assert(rest.drop_first() =~= entries@.skip(i + 1));
                if str_eq(entries[i].0.as_str(), key) {
                    return Some(&entries[i].1);
                }
            }
            assert(entries@.skip(n as int) =~= Seq::<(String, JsonValue)>::empty());
            None
        },
        _ => None,
    }
}

/// `Value::as_str`.
pub fn as_str(v: Option<&JsonValue>) -> (r: Option<&str>)
    ensures
        match r {
            Some(s) => as_str_spec(
                match v {
                    Some(x) => Some(*x),
                    None => None,
                },
            ) == Some(s@),
            None => as_str_spec(
                match v {
                    Some(x) => Some(*x),
                    None => None,
                },
            ) is None,
        },
{
    match v {
        Some(JsonValue::Str(s)) => Some(s.as_str()),
        _ => None,
    }
}

fn first_element(v: &JsonValue) -> (r: Option<&JsonValue>)
    ensures
        match r {
            Some(x) => first_element_spec(*v) == Some(*x),
            None => first_element_spec(*v) is None,
        },
{
    match v {
        JsonValue::Array(items) => if items.len() > 0 {
            Some(&items[0])
        } else {
            None
        },
        JsonValue::Object(_) => {
            proof {
                reveal_strlit("0");
            }
            get(v, "0")
        },
        _ => None,
    }
}

fn read_tool_call(call: &JsonValue) -> (r: Option<ModelToolCall>)
    ensures
        match r {
            Some(c) => tool_call_spec(*call) == Some((c.id@, c.name@, c.raw_arguments@))
                && arguments_read(c.raw_arguments@, c.arguments),
            None => tool_call_spec(*call) is None,
        },
{
    let id = match as_str(get(call, "id")) {
        Some(s) => s,
        None => return None,
    };
    let function = match get(call, "function") {
        Some(f) => f,
        None => return None,
    };
    let name = match as_str(get(function, "name")) {
        Some(s) => s,
        None => return None,
    };
    let raw = match as_str(get(function, "arguments")) {
        Some(a) => owned(a),
        None => owned("{}"),
    };
    let arguments = read_arguments(raw.as_str());
    Some(ModelToolCall { id: owned(id), name: owned(name), raw_arguments: raw, arguments })
}

/// The view of a list of tool calls.
pub open spec fn calls_view(calls: Seq<ModelToolCall>) -> Seq<(Seq<char>, Seq<char>, Seq<char>)> {
    calls.map_values(|c: ModelToolCall| (c.id@, c.name@, c.raw_arguments@))
}

/// `parse_model_turn`: the assistant's text and tool calls of a response,
/// each call's arguments read as JSON; a response without a message, or with
/// neither text nor tool calls, is refused.
pub fn parse_model_turn(body: &JsonValue) -> (r: Result<ModelTurn, String>)
    ensures
        match parse_model_turn_spec(*body) {
            Ok(v) => (r matches Ok(t) && turn_view(t) == v && forall|i: int|
                0 <= i < t.tool_calls@.len() ==> arguments_read(
                    (#[trigger] t.tool_calls@[i]).raw_arguments@,
                    t.tool_calls@[i].arguments,
                )),
            Err(m) => (r matches Err(e) && e@ == m),
        },
{
    let choices = match get(body, "choices") {
        Some(c) => c,
        None => return Err(owned("model response has no message")),
    };
    let choice = match first_element(choices) {
        Some(c) => c,
        None => return Err(owned("model response has no message")),
    };
    let message = match get(choice, "message") {
        Some(m) => m,
        None => return Err(owned("model response has no message")),
    };
    let content = match as_str(get(message, "content")) {
        Some(s) => Some(owned(s)),
        None => None,
    };
    let mut tool_calls: Vec<ModelToolCall> = Vec::new();
    match get(message, "tool_calls") {
        Some(JsonValue::Array(calls)) => {
            let n = calls.len();
            for i in 0..n
                invariant
                    n == calls@.len(),
                    calls_view(tool_calls@) == tool_calls_spec(calls@.take(i as int)),
                    forall|j: int|
                        0 <= j < tool_calls@.len() ==> arguments_read(
                            (#[trigger] tool_calls@[j]).raw_arguments@,
                            tool_calls@[j].arguments,
                        ),
            {
                assert(calls@.take(i + 1).drop_last() =~= calls@.take(i as int));
                assert(calls@.take(i + 1).last() == calls@[i as int]);
                let ghost before = tool_calls@;
                match read_tool_call(&calls[i]) {
                    Some(c) => {
                        tool_calls.push(c);
                        assert(calls_view(tool_calls@) =~= calls_view(before).push(
                            calls_view(tool_calls@).last(),
                        ));
                    },
                    None => {},
                }
            }
            assert(calls@.take(n as int) =~= calls@);
        },
        _ => {},
    }
    if content.is_none() && tool_calls.len() == 0 {
        return Err(owned("model response is empty"));
    }
    Ok(ModelTurn { content, tool_calls })
}

/// An element of `tool_calls` that names a call: a string `id` and a
/// `function` object with a string `name`.
pub open spec fn names_a_call(c: JsonValue) -> bool {
    &&& as_str_spec(get_spec(c, "id"@)) is Some
    &&& get_spec(c, "function"@) is Some
    &&& as_str_spec(get_spec(get_spec(c, "function"@)->0, "name"@)) is Some
}

/// What a readable element asks for: its id, its function's name and the
/// function's `arguments` text (`{}` where that is no string).
pub open spec fn call_fields(c: JsonValue) -> (Seq<char>, Seq<char>, Seq<char>) {
    let f = get_spec(c, "function"@)->0;
    (
        as_str_spec(get_spec(c, "id"@))->0,
        as_str_spec(get_spec(f, "name"@))->0,
        match as_str_spec(get_spec(f, "arguments"@)) {
            Some(a) => a,
            None => "{}"@,
        },
    )
}

/// `idx` picks, in increasing order, exactly the elements of `calls` that
/// name a call, and `read` holds what each of them asks for.
pub open spec fn reads_every_call(
    calls: Seq<JsonValue>,
    read: Seq<(Seq<char>, Seq<char>, Seq<char>)>,
    idx: Seq<int>,
) -> bool {
    &&& idx.len() == read.len()
    &&& forall|k: int| 0 <= k < idx.len() ==> 0 <= #[trigger] idx[k] < calls.len()
    &&& forall|k: int, m: int| 0 <= k < m < idx.len() ==> idx[k] < idx[m]
    &&& forall|k: int|
        0 <= k < idx.len() ==> names_a_call(calls[#[trigger] idx[k]]) && read[k] == call_fields(
            calls[idx[k]],
        )
    &&& forall|i: int|
        0 <= i < calls.len() && names_a_call(#[trigger] calls[i]) ==> exists|k: int|
            0 <= k < idx.len() && idx[k] == i
}

proof fn lemma_reads_every_call(calls: Seq<JsonValue>) -> (idx: Seq<int>)
    ensures
        reads_every_call(calls, tool_calls_spec(calls), idx),
    decreases calls.len(),
{
    if calls.len() == 0 {
        Seq::empty()
    } else {
        let front = calls.drop_last();
        let before = lemma_reads_every_call(front);
        let n = calls.len() - 1;
        assert forall|i: int| 0 <= i < front.len() implies front[i] == calls[i] by {}
        let c = calls.last();
        if names_a_call(c) {
            let idx = before.push(n);
            let read = tool_calls_spec(calls);
            assert(tool_call_spec(c) == Some(call_fields(c)));
            assert(read == tool_calls_spec(front).push(call_fields(c)));
            assert forall|i: int| 0 <= i < calls.len() && names_a_call(#[trigger] calls[i]) implies exists|k: int|
                0 <= k < idx.len() && idx[k] == i by {
                if i == n {
                    assert(idx[before.len() as int] == i);
                } else {
                    assert(names_a_call(front[i]));
                    let k = choose|k: int| 0 <= k < before.len() && before[k] == i;
                    assert(idx[k] == i);
                }
            }
            idx
        } else {
            assert(tool_call_spec(c) is None);
            assert forall|i: int| 0 <= i < calls.len() && names_a_call(#[trigger] calls[i]) implies exists|k: int|
                0 <= k < before.len() && before[k] == i by {
                assert(i != n);
                assert(names_a_call(front[i]));
            }
            before
        }
    }
}

/// A turn's tool calls are those of the message's `tool_calls` array that
/// name a call, every one of them, in the array's order, each with the id,
/// name and arguments text it gives.
pub proof fn law_every_named_call_is_read(calls: Seq<JsonValue>)
    ensures
        exists|idx: Seq<int>| reads_every_call(calls, tool_calls_spec(calls), idx),
        tool_calls_spec(calls).len() <= calls.len(),
{
    let idx = lemma_reads_every_call(calls);
    if idx.len() > calls.len() {
        lemma_strictly_increasing_bound(idx, calls.len() as int);
    }
}

proof fn lemma_strictly_increasing_bound(idx: Seq<int>, n: int)
    requires
        0 <= n,
        forall|k: int| 0 <= k < idx.len() ==> 0 <= #[trigger] idx[k] < n,
        forall|k: int, m: int| 0 <= k < m < idx.len() ==> idx[k] < idx[m],
    ensures
        idx.len() <= n,
    decreases idx.len(),
{
    if idx.len() > 0 {
        let front = idx.drop_last();
        let last = idx[idx.len() - 1];
        assert forall|k: int| 0 <= k < front.len() implies 0 <= #[trigger] front[k] < last by {
            assert(idx[k] < idx[idx.len() - 1]);
        }
        assert forall|k: int, m: int| 0 <= k < m < front.len() implies front[k] < front[m] by {
            assert(front[k] == idx[k] && front[m] == idx[m]);
        }
        lemma_strictly_increasing_bound(front, last);
        assert(front.len() == idx.len() - 1);
        assert(0 <= idx[idx.len() - 1] < n);
    }
}

/// A parsed turn carries every call its message's `tool_calls` array names,
/// in order (and a response whose array names some call is never refused
/// as empty).
pub proof fn law_parsed_turn_keeps_every_call(body: JsonValue, array: Vec<JsonValue>)
    requires
        message_spec(body) is Some,
        get_spec(message_spec(body)->0, "tool_calls"@) == Some(JsonValue::Array(array)),
    ensures
        (exists|i: int| 0 <= i < array@.len() && names_a_call(#[trigger] array@[i]))
            ==> parse_model_turn_spec(body) is Ok,
        parse_model_turn_spec(body) matches Ok(v) ==> exists|idx: Seq<int>|
            #[trigger] reads_every_call(array@, v.1, idx),
{
    let calls = array@;
    let idx = lemma_reads_every_call(calls);
    if exists|i: int| 0 <= i < calls.len() && names_a_call(#[trigger] calls[i]) {
        let i = choose|i: int| 0 <= i < calls.len() && names_a_call(#[trigger] calls[i]);
        let k = choose|k: int| 0 <= k < idx.len() && idx[k] == i;
        assert(tool_calls_spec(calls).len() > 0);
    }
    assert(message_tool_calls(message_spec(body)->0) == tool_calls_spec(calls));
    match parse_model_turn_spec(body) {
        Ok(v) => {
            assert(v.1 == tool_calls_spec(calls));
            assert(reads_every_call(calls, v.1, idx));
        },
        Err(_) => {},
    }
}

} // verus!
