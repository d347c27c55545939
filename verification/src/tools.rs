//! The registry of tools offered to the model, and the runtime's own FSM tools.
use vstd::prelude::*;

use crate::json::{copy_json, json_same, spec_as_str, spec_get, str_field, Json};
use crate::llm::ToolDef;
use crate::playbook_runtime::views;
use crate::shell::SafetyTier;
use crate::text::{owned, str_eq};

verus! {

/// What the registry knows of a tool: its name, its description, how much
/// care a call needs, and the schema of its input.
#[derive(Debug)]
pub struct ToolSpec {
    pub name: String,
    pub description: String,
    pub tier: SafetyTier,
    pub input_schema: Json,
}

/// A read-only tool's answer: the text shown to the model, and the data
/// kept with it.
#[derive(Debug)]
pub struct ReadOnlyResult {
    pub output: String,
    pub data: Json,
}

/// The tools offered to the model, in registration order.
#[derive(Debug)]
pub struct ToolRouter {
    pub tools: Vec<ToolSpec>,
}

/// The first tool named `name`.
pub open spec fn tool_lookup(tools: Seq<ToolSpec>, name: Seq<char>) -> Option<ToolSpec>
    decreases tools.len(),
{
    if tools.len() == 0 {
        None
    } else if tools[0].name@ == name {
        Some(tools[0])
    } else {
        tool_lookup(tools.drop_first(), name)
    }
}

impl ToolRouter {
    pub fn new() -> (r: Self)
        ensures
            r.tools@.len() == 0,
    {
        ToolRouter { tools: Vec::new() }
    }

    /// Register a tool with the router.
    pub fn register(&mut self, tool: ToolSpec)
        ensures
            final(self).tools@ == old(self).tools@.push(tool),
    {
        self.tools.push(tool);
    }

    /// Look up a tool by name: the first one registered under it.
    pub fn find_tool(&self, name: &str) -> (r: Option<&ToolSpec>)
        ensures
            r matches Some(t) ==> tool_lookup(self.tools@, name@) == Some(*t),
            r is None ==> tool_lookup(self.tools@, name@) is None,
    {
        let mut i: usize = 0;
        assert(self.tools@.subrange(0, self.tools@.len() as int) =~= self.tools@);
        while i < self.tools.len()
            invariant
                i <= self.tools@.len(),
                tool_lookup(self.tools@, name@) == tool_lookup(
                    self.tools@.subrange(i as int, self.tools@.len() as int),
                    name@,
                ),
            decreases self.tools@.len() - i,
        {
            let ghost rest = self.tools@.subrange(i as int, self.tools@.len() as int);
            assert(rest[0] == self.tools@[i as int]);
            assert(rest.drop_first() =~= self.tools@.subrange(i + 1, self.tools@.len() as int));
            if str_eq(self.tools[i].name.as_str(), name) {
                return Some(&self.tools[i]);
            }
            i += 1;
        }
        None
    }
}

/// The names of an object's fields, in order.
pub open spec fn field_names(fields: Seq<(String, Json)>) -> Seq<Seq<char>> {
    fields.map_values(|f: (String, Json)| f.0@)
}

/// A tool's input schema: an object whose properties are named `props`, of
/// which those in `required` must be given; closed to any other property
/// when `closed`.
pub open spec fn schema_is(v: Json, props: Seq<Seq<char>>, required: Seq<Seq<char>>, closed: bool) -> bool {
    &&& str_field(v, "type"@) == Some("object"@)
    &&& spec_get(v, "properties"@) matches Some(p) && p is Object && field_names(p->Object_0@)
        == props
    &&& spec_get(v, "required"@) matches Some(q) && q is Array && q->Array_0@.len() == required.len()
        && forall|i: int|
        0 <= i < required.len() ==> spec_as_str(#[trigger] q->Array_0@[i]) == Some(required[i])
    &&& spec_get(v, "additionalProperties"@) == (if closed {
        Some(Json::Bool(false))
    } else {
        None::<Json>
    })
}

/// The schema of an object input with the given properties (in key order)
/// and required names, closed to other properties when `closed`; its fields
/// in key order, as `serde_json` keeps them.
pub fn object_schema(props: Vec<(String, Json)>, required: Vec<String>, closed: bool) -> (r: Json)
    ensures
        schema_is(r, field_names(props@), views(required@), closed),
        spec_get(r, "properties"@) == Some(Json::Object(props)),
{
    let ghost names = field_names(props@);
    let mut req: Vec<Json> = Vec::new();
    let mut i: usize = 0;
    while i < required.len()
        invariant
            i <= required@.len(),
            req@.len() == i,
            forall|k: int| 0 <= k < i ==> spec_as_str(#[trigger] req@[k]) == Some(required@[k]@),
        decreases required@.len() - i,
    {
        req.push(Json::Str(required[i].clone()));
        i += 1;
    }
    let mut fields: Vec<(String, Json)> = Vec::new();
    if closed {
        fields.push((owned("additionalProperties"), Json::Bool(false)));
    }
    fields.push((owned("properties"), Json::Object(props)));
    fields.push((owned("required"), Json::Array(req)));
    fields.push((owned("type"), Json::Str(owned("object"))));
    let r = Json::Object(fields);
    proof {
        reveal_strlit("additionalProperties");
        reveal_strlit("properties");
        reveal_strlit("required");
        reveal_strlit("type");
        reveal_with_fuel(crate::json::field_lookup, 5);
        let fs = fields@;
        let o: int = if closed { 1 } else { 0 };
        assert(fs.len() == o + 3);
        if closed {
            assert(fs.drop_first() =~= seq![fs[1], fs[2], fs[3]]);
        }
        let rest = fs.subrange(o, fs.len() as int);
        assert(rest =~= seq![fs[o], fs[o + 1], fs[o + 2]]);
        assert(rest.drop_first() =~= seq![fs[o + 1], fs[o + 2]]);
        assert(rest.drop_first().drop_first() =~= seq![fs[o + 2]]);
        if closed {
            assert(fs.drop_first() =~= rest);
        } else {
            assert(fs =~= rest);
        }
        assert(fs[o].0@ == "properties"@);
        assert(fs[o + 1].0@ == "required"@);
        assert(fs[o + 2].0@ == "type"@);
        assert("properties"@.len() == 10 && "required"@.len() == 8 && "type"@.len() == 4);
        assert(crate::json::field_lookup(rest.drop_first().drop_first(), "type"@) == Some(
            fs[o + 2].1,
        ));
        assert(crate::json::field_lookup(rest.drop_first(), "required"@) == Some(fs[o + 1].1));
        assert(crate::json::field_lookup(rest.drop_first(), "type"@) == Some(fs[o + 2].1));
        assert(crate::json::field_lookup(rest, "properties"@) == Some(fs[o].1));
        assert(crate::json::field_lookup(rest, "required"@) == Some(fs[o + 1].1));
        assert(crate::json::field_lookup(rest, "type"@) == Some(fs[o + 2].1));
        assert(crate::json::field_lookup(rest, "additionalProperties"@) is None);
    }
    r
}

impl ToolRouter {
    /// The definitions offered to the model: each registered tool's name,
    /// description and input schema (a copy), in registration order.
    pub fn tool_definitions(&self) -> (r: Vec<ToolDef>)
        ensures
            r@.len() == self.tools@.len(),
            forall|i: int|
                0 <= i < r@.len() ==> (#[trigger] r@[i]).name@ == self.tools@[i].name@
                    && r@[i].description@ == self.tools@[i].description@ && json_same(
                    self.tools@[i].input_schema,
                    r@[i].input_schema,
                ),
    {
        let mut out: Vec<ToolDef> = Vec::new();
        let mut i: usize = 0;
        while i < self.tools.len()
            invariant
                i <= self.tools@.len(),
                out@.len() == i,
                forall|k: int|
                    0 <= k < i ==> (#[trigger] out@[k]).name@ == self.tools@[k].name@
                        && out@[k].description@ == self.tools@[k].description@ && json_same(
                        self.tools@[k].input_schema,
                        out@[k].input_schema,
                    ),
            decreases self.tools@.len() - i,
        {
            let t = &self.tools[i];
            out.push(
                ToolDef {
                    name: t.name.clone(),
                    description: t.description.clone(),
                    input_schema: copy_json(&t.input_schema),
                },
            );
            i += 1;
        }
        out
    }
}

/// The schema of a tool that takes no input: an object with no properties.
pub open spec fn empty_schema_is(v: Json) -> bool {
    &&& v is Object
    &&& v->Object_0@.len() == 3
    &&& v->Object_0@[0].0@ == "additionalProperties"@ && v->Object_0@[0].1 == Json::Bool(false)
    &&& v->Object_0@[1].0@ == "properties"@ && v->Object_0@[1].1 is Object
        && v->Object_0@[1].1->Object_0@.len() == 0
    &&& v->Object_0@[2].0@ == "type"@ && str_field(v, "type"@) == Some("object"@)
}

fn empty_schema() -> (r: Json)
    ensures
        empty_schema_is(r),
{
    let fields = vec![
        (owned("additionalProperties"), Json::Bool(false)),
        (owned("properties"), Json::Object(Vec::new())),
        (owned("type"), Json::Str(owned("object"))),
    ];
    let r = Json::Object(fields);
    proof {
        reveal_strlit("type");
        reveal_strlit("additionalProperties");
        reveal_strlit("properties");
        let fs = r->Object_0@;
        assert(fs[0].0@.len() != "type"@.len());
        assert(fs[1].0@.len() != "type"@.len());
        assert(fs.drop_first().drop_first() =~= seq![fs[2]]);
        reveal_with_fuel(crate::json::field_lookup, 4);
        assert(crate::json::spec_get(r, "type"@) == Some(fs[2].1));
    }
    r
}

/// An acknowledgement: the given text, with `{"ok": true}` as its data.
pub open spec fn acknowledged_is(r: ReadOnlyResult, message: Seq<char>) -> bool {
    &&& r.output@ == message
    &&& r.data is Object && r.data->Object_0@.len() == 1 && r.data->Object_0@[0].0@ == "ok"@
        && r.data->Object_0@[0].1 == Json::Bool(true)
}

/// The FSM tool's answer: the runtime resolves it; the call itself only acknowledges.
fn acknowledged(message: &str) -> (r: ReadOnlyResult)
    ensures
        acknowledged_is(r, message@),
{
    ReadOnlyResult {
        output: owned(message),
        data: Json::Object(vec![(owned("ok"), Json::Bool(true))]),
    }
}

/// The `type` named for the property `prop` of a schema.
pub open spec fn prop_type(schema: Json, prop: Seq<char>) -> Option<Seq<char>> {
    match spec_get(schema, "properties"@) {
        Some(p) => match spec_get(p, prop) {
            Some(q) => str_field(q, "type"@),
            None => None,
        },
        None => None,
    }
}

/// The schema of the event tool's input: a required string `event` and an
/// optional object `metadata`, and nothing else.
pub open spec fn event_schema_is(r: Json) -> bool {
    &&& schema_is(r, seq!["event"@, "metadata"@], seq!["event"@], true)
    &&& prop_type(r, "event"@) == Some("string"@)
    &&& prop_type(r, "metadata"@) == Some("object"@)
}

/// Reads the active playbook's FSM state.
#[derive(Debug, Clone, Copy)]
pub struct FsmGetStateTool;

/// Declares that a playbook milestone was reached.
#[derive(Debug, Clone, Copy)]
pub struct FsmEmitEventTool;

/// Reads what the active playbook's FSM asks for next.
#[derive(Debug, Clone, Copy)]
pub struct FsmNextTool;

impl FsmGetStateTool {
    /// What the registry holds for this tool.
    pub open spec fn describes(t: ToolSpec) -> bool {
        &&& t.name@ == "fsm_get_state"@
        &&& t.description@
            == "Get current FSM state for the active playbook, including next transitions."@
        &&& t.tier == SafetyTier::ReadOnly
        &&& empty_schema_is(t.input_schema)
    }

    pub fn spec(&self) -> (r: ToolSpec)
        ensures
            Self::describes(r),
    {
        ToolSpec {
            name: owned("fsm_get_state"),
            description: owned(
                "Get current FSM state for the active playbook, including next transitions.",
            ),
            tier: SafetyTier::ReadOnly,
            input_schema: self.input_schema(),
        }
    }

    pub fn input_schema(&self) -> (r: Json)
        ensures
            empty_schema_is(r),
    {
        empty_schema()
    }

    pub fn execute(&self, input: &Json) -> (r: ReadOnlyResult)
        ensures
            acknowledged_is(r, "FSM response is resolved by runtime."@),
    {
        acknowledged("FSM response is resolved by runtime.")
    }
}

impl FsmEmitEventTool {
    /// What the registry holds for this tool.
    pub open spec fn describes(t: ToolSpec) -> bool {
        &&& t.name@ == "fsm_emit_event"@
        &&& t.description@
            == "Emit a domain event to advance playbook FSM state when milestone is reached."@
        &&& t.tier == SafetyTier::ReadOnly
        &&& event_schema_is(t.input_schema)
    }

    pub fn spec(&self) -> (r: ToolSpec)
        ensures
            Self::describes(r),
    {
        ToolSpec {
            name: owned("fsm_emit_event"),
            description: owned(
                "Emit a domain event to advance playbook FSM state when milestone is reached.",
            ),
            tier: SafetyTier::ReadOnly,
            input_schema: self.input_schema(),
        }
    }

    /// An object with a required string `event` and an optional object `metadata`.
    pub fn input_schema(&self) -> (r: Json)
        ensures
            event_schema_is(r),
    {
        let event_fields = vec![
            (
                owned("description"),
                Json::Str(owned("Event name declared by playbook FSM, e.g. install_verified.")),
            ),
            (owned("type"), Json::Str(owned("string"))),
        ];
        let metadata_fields = vec![(owned("type"), Json::Str(owned("object")))];
        proof {
            reveal_strlit("description");
            reveal_strlit("type");
            reveal_with_fuel(crate::json::field_lookup, 3);
            assert(event_fields@[0].0@.len() != "type"@.len());
            assert(event_fields@.drop_first() =~= seq![event_fields@[1]]);
            assert(crate::json::field_lookup(event_fields@, "type"@) == Some(event_fields@[1].1));
            assert(crate::json::field_lookup(metadata_fields@, "type"@) == Some(
                metadata_fields@[0].1,
            ));
        }
        let props: Vec<(String, Json)> = vec![
            (owned("event"), Json::Object(event_fields)),
            (owned("metadata"), Json::Object(metadata_fields)),
        ];
        let required: Vec<String> = vec![owned("event")];
        proof {
            reveal_strlit("event");
            reveal_strlit("metadata");
            assert(props@[0].0@.len() != "metadata"@.len());
            assert(props@.drop_first() =~= seq![props@[1]]);
            assert(crate::json::field_lookup(props@, "event"@) == Some(props@[0].1));
            assert(crate::json::field_lookup(props@, "metadata"@) == Some(props@[1].1));
            assert(field_names(props@) =~= seq!["event"@, "metadata"@]);
            assert(views(required@) =~= seq!["event"@]);
        }
        object_schema(props, required, true)
    }

    pub fn execute(&self, input: &Json) -> (r: ReadOnlyResult)
        ensures
            acknowledged_is(r, "FSM event accepted by runtime."@),
    {
        acknowledged("FSM event accepted by runtime.")
    }
}

impl FsmNextTool {
    /// What the registry holds for this tool.
    pub open spec fn describes(t: ToolSpec) -> bool {
        &&& t.name@ == "fsm_next"@
        &&& t.description@ == "Get concise next-step requirements from active playbook FSM."@
        &&& t.tier == SafetyTier::ReadOnly
        &&& empty_schema_is(t.input_schema)
    }

    pub fn spec(&self) -> (r: ToolSpec)
        ensures
            Self::describes(r),
    {
        ToolSpec {
            name: owned("fsm_next"),
            description: owned("Get concise next-step requirements from active playbook FSM."),
            tier: SafetyTier::ReadOnly,
            input_schema: self.input_schema(),
        }
    }

    pub fn input_schema(&self) -> (r: Json)
        ensures
            empty_schema_is(r),
    {
        empty_schema()
    }

    pub fn execute(&self, input: &Json) -> (r: ReadOnlyResult)
        ensures
            acknowledged_is(r, "FSM next-step response is resolved by runtime."@),
    {
        acknowledged("FSM next-step response is resolved by runtime.")
    }
}

/// Register the three FSM tools, in the order get-state, emit-event, next.
pub fn register_fsm_tools(router: &mut ToolRouter)
    ensures
        final(router).tools@.len() == old(router).tools@.len() + 3,
        final(router).tools@.subrange(0, old(router).tools@.len() as int) == old(router).tools@,
        FsmGetStateTool::describes(final(router).tools@[old(router).tools@.len() as int]),
        FsmEmitEventTool::describes(final(router).tools@[old(router).tools@.len() as int + 1]),
        FsmNextTool::describes(final(router).tools@[old(router).tools@.len() as int + 2]),
{
    router.register(FsmGetStateTool.spec());
    router.register(FsmEmitEventTool.spec());
    router.register(FsmNextTool.spec());
    assert(router.tools@.subrange(0, old(router).tools@.len() as int) =~= old(router).tools@);
}

} // verus!
