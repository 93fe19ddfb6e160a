//! The parameter resolver: the ordered parameter list of one operation, from
//! its query parameters and then from the properties of its JSON request body.
use vstd::prelude::*;

use crate::json::{field, field_of, text_of, JsonValue};
use crate::schema::{kind_of, schema_kind, Primitive, SchemaKind};
use crate::text::{same_text, strip_prefix, strip_prefix_spec};

verus! {

/// One parameter of a tool.
#[derive(Debug, PartialEq, Eq)]
pub struct Param {
    pub name: String,
    pub required: bool,
    pub kind: SchemaKind,
    /// Whether the parameter came from the operation's query parameters.
    pub in_query: bool,
}

/// What a parameter means: its name as characters and the rest as is.
pub struct ParamSpec {
    pub name: Seq<char>,
    pub required: bool,
    pub kind: SchemaKind,
    pub in_query: bool,
}

impl View for Param {
    type V = ParamSpec;

    open spec fn view(&self) -> ParamSpec {
        ParamSpec {
            name: self.name@,
            required: self.required,
            kind: self.kind,
            in_query: self.in_query,
        }
    }
}

/// The meanings of a list of parameters.
pub open spec fn views(ps: Seq<Param>) -> Seq<ParamSpec> {
    ps.map_values(|p: Param| p@)
}

/// The one-element list of a present value, or the empty list.
pub open spec fn seq_of(o: Option<ParamSpec>) -> Seq<ParamSpec> {
    match o {
        Some(p) => seq![p],
        None => Seq::empty(),
    }
}

/// The parameter an entry of `parameters` gives: one with a string `name`
/// and `in` equal to `query` gives an optional string parameter.
pub open spec fn query_entry(v: JsonValue) -> Option<ParamSpec> {
    match (text_of(field(v, "name"@)), text_of(field(v, "in"@))) {
        (Some(n), Some(w)) => if w == "query"@ {
            Some(
                ParamSpec {
                    name: n,
                    required: false,
                    kind: SchemaKind::Primitive(Primitive::String),
                    in_query: true,
                },
            )
        } else {
            None
        },
        _ => None,
    }
}

/// The query parameters among `items`, in order.
pub open spec fn query_entries(items: Seq<JsonValue>) -> Seq<ParamSpec>
    decreases items.len(),
{
    if items.len() == 0 {
        Seq::empty()
    } else {
        query_entries(items.drop_last()) + seq_of(query_entry(items.last()))
    }
}

/// The query parameters of an operation.
pub open spec fn query_params(op: JsonValue) -> Seq<ParamSpec> {
    match field(op, "parameters"@) {
        Some(JsonValue::Array(items)) => query_entries(items@),
        _ => Seq::empty(),
    }
}

/// Whether `names` holds the string `name`.
pub open spec fn names_hold(names: Seq<JsonValue>, name: Seq<char>) -> bool {
    exists|j: int| 0 <= j < names.len() && text_of(Some(#[trigger] names[j])) == Some(name)
}

/// The `required` list of a schema; anything but an array reads as empty.
pub open spec fn required_names(schema: JsonValue) -> Seq<JsonValue> {
    match field(schema, "required"@) {
        Some(JsonValue::Array(a)) => a@,
        _ => Seq::empty(),
    }
}

/// One parameter per property, in order.
pub open spec fn property_entries(props: Seq<(String, JsonValue)>, req: Seq<JsonValue>) -> Seq<
    ParamSpec,
>
    decreases props.len(),
{
    if props.len() == 0 {
        Seq::empty()
    } else {
        property_entries(props.drop_last(), req).push(
            ParamSpec {
                name: props.last().0@,
                required: names_hold(req, props.last().0@),
                kind: kind_of(props.last().1),
                in_query: false,
            },
        )
    }
}

/// The parameters that the properties of a schema give.
pub open spec fn property_params(schema: JsonValue) -> Seq<ParamSpec> {
    match field(schema, "properties"@) {
        Some(JsonValue::Object(props)) => property_entries(props@, required_names(schema)),
        _ => Seq::empty(),
    }
}

/// The schema of an operation's JSON request body.
pub open spec fn body_schema(op: JsonValue) -> Option<JsonValue> {
    field_of(
        field_of(field_of(field(op, "requestBody"@), "content"@), "application/json"@),
        "schema"@,
    )
}

/// The component schema that a reference names.
pub open spec fn referenced(doc: JsonValue, reference: Seq<char>) -> Option<JsonValue> {
    field_of(component_schemas(doc), strip_prefix_spec(reference, "#/components/schemas/"@))
}

/// The schema to read properties from: the one a `$ref` names, or the
/// schema itself. A reference is followed once.
pub open spec fn effective_schema(doc: JsonValue, schema: JsonValue) -> Option<JsonValue> {
    match text_of(field(schema, "$ref"@)) {
        Some(r) => referenced(doc, r),
        None => Some(schema),
    }
}

/// The parameters that an operation's request body gives.
pub open spec fn body_params(doc: JsonValue, op: JsonValue) -> Seq<ParamSpec> {
    match body_schema(op) {
        Some(s) => match effective_schema(doc, s) {
            Some(e) => property_params(e),
            None => Seq::empty(),
        },
        None => Seq::empty(),
    }
}

/// All parameters of an operation: its query parameters, then those of its
/// request body. A name found in both is kept twice.
pub open spec fn params_of(doc: JsonValue, op: JsonValue) -> Seq<ParamSpec> {
    query_params(op) + body_params(doc, op)
}

/// Whether a parameter list holds one that came from the query.
pub open spec fn has_query(ps: Seq<ParamSpec>) -> bool {
    exists|i: int| 0 <= i < ps.len() && (#[trigger] ps[i]).in_query
}

/// Reads one entry of `parameters`.
pub fn query_parameter(v: &JsonValue) -> (r: Option<Param>)
    ensures
        match r {
            Some(p) => query_entry(*v) == Some(p@),
            None => query_entry(*v).is_none(),
        },
{
    let name = match v.get("name") {
        Some(n) => n.as_str(),
        None => None,
    };
    let location = match v.get("in") {
        Some(w) => w.as_str(),
        None => None,
    };
    match (name, location) {
        (Some(n), Some(w)) => if same_text(w, "query") {
            Some(
                Param {
                    name: String::from_str(n),
                    required: false,
                    kind: SchemaKind::Primitive(Primitive::String),
                    in_query: true,
                },
            )
        } else {
            None
        },
        _ => None,
    }
}

/// The query parameters of an operation, in order.
pub fn query_parameters(op: &JsonValue) -> (r: Vec<Param>)
    ensures
        views(r@) == query_params(*op),
{
    let mut out: Vec<Param> = Vec::new();
    let items = match op.get("parameters") {
        Some(JsonValue::Array(items)) => items,
        _ => {
            assert(views(out@) =~= Seq::<ParamSpec>::empty());
            return out;
        },
    };
    let mut i: usize = 0;
    while i < items.len()
        invariant
            i <= items@.len(),
            query_params(*op) == query_entries(items@),
            views(out@) == query_entries(items@.take(i as int)),
        decreases items@.len() - i,
    {
        let ghost before = out@;
        assert(items@.take(i + 1).drop_last() =~= items@.take(i as int));
        match query_parameter(&items[i]) {
            Some(p) => {
                out.push(p);
                assert(views(out@) =~= views(before).push(p@));
            },
            None => {},
        }
        assert(views(out@) =~= query_entries(items@.take(i + 1)));
        i = i + 1;
    }
    assert(items@.take(i as int) =~= items@);
    out
}

/// Whether `names` holds the string `name`.
pub fn names_include(names: &Vec<JsonValue>, name: &str) -> (r: bool)
    ensures
        r == names_hold(names@, name@),
{
    let mut i: usize = 0;
    while i < names.len()
        invariant
            i <= names@.len(),
            forall|j: int| 0 <= j < i ==> text_of(Some(#[trigger] names@[j])) != Some(name@),
        decreases names@.len() - i,
    {
        match names[i].as_str() {
            Some(s) => {
                if same_text(s, name) {
                    return true;
                }
            },
            None => {},
        }
        i = i + 1;
    }
    false
}

/// One parameter per property of `schema`, required where its `required`
/// list names it.
pub fn property_parameters(schema: &JsonValue) -> (r: Vec<Param>)
    ensures
        views(r@) == property_params(*schema),
{
    let mut out: Vec<Param> = Vec::new();
    let props = match schema.get("properties") {
        Some(JsonValue::Object(props)) => props,
        _ => {
            assert(views(out@) =~= Seq::<ParamSpec>::empty());
            return out;
        },
    };
    let empty: Vec<JsonValue> = Vec::new();
    let req = match schema.get("required") {
        Some(JsonValue::Array(a)) => a,
        _ => &empty,
    };
    assert(req@ == required_names(*schema));
    let mut i: usize = 0;
    while i < props.len()
        invariant
            i <= props@.len(),
            req@ == required_names(*schema),
            property_params(*schema) == property_entries(props@, req@),
            views(out@) == property_entries(props@.take(i as int), req@),
        decreases props@.len() - i,
    {
        let ghost before = out@;
        assert(props@.take(i + 1).drop_last() =~= props@.take(i as int));
        let entry = &props[i];
        let p = Param {
            name: String::from_str(entry.0.as_str()),
            required: names_include(req, entry.0.as_str()),
            kind: schema_kind(&entry.1),
            in_query: false,
        };
        out.push(p);
        assert(views(out@) =~= views(before).push(p@));
        i = i + 1;
    }
    assert(props@.take(i as int) =~= props@);
    out
}

/// The schema of an operation's JSON request body, if it has one.
pub fn request_body_schema(op: &JsonValue) -> (r: Option<&JsonValue>)
    ensures
        crate::json::deref_opt(r) == body_schema(*op),
{
    let body = op.get("requestBody")?;
    let content = body.get("content")?;
    let media = content.get("application/json")?;
    media.get("schema")
}

/// The schema to read properties from: the component a `$ref` names, or
/// `schema` itself.
pub fn resolve_schema<'a>(doc: &'a JsonValue, schema: &'a JsonValue) -> (r: Option<&'a JsonValue>)
    ensures
        crate::json::deref_opt(r) == effective_schema(*doc, *schema),
{
    let reference = match schema.get("$ref") {
        Some(v) => v.as_str(),
        None => None,
    };
    match reference {
        Some(target) => {
            let components = doc.get("components")?;
            let schemas = components.get("schemas")?;
            schemas.get(strip_prefix(target, "#/components/schemas/"))
        },
        None => Some(schema),
    }
}

/// The parameters that an operation's request body gives.
pub fn body_parameters(doc: &JsonValue, op: &JsonValue) -> (r: Vec<Param>)
    ensures
        views(r@) == body_params(*doc, *op),
{
    match request_body_schema(op) {
        Some(s) => match resolve_schema(doc, s) {
            Some(e) => property_parameters(e),
            None => {
                let out: Vec<Param> = Vec::new();
                assert(views(out@) =~= Seq::<ParamSpec>::empty());
                out
            },
        },
        None => {
            let out: Vec<Param> = Vec::new();
            assert(views(out@) =~= Seq::<ParamSpec>::empty());
            out
        },
    }
}

/// Every query parameter is an optional string, whatever its own schema says.
pub proof fn lemma_query_entries_are_optional_strings(items: Seq<JsonValue>)
    ensures
        forall|i: int|
            0 <= i < query_entries(items).len() ==> {
                let p = #[trigger] query_entries(items)[i];
                p.kind == SchemaKind::Primitive(Primitive::String) && !p.required && p.in_query
            },
    decreases items.len(),
{
    if items.len() > 0 {
        lemma_query_entries_are_optional_strings(items.drop_last());
        let prev = query_entries(items.drop_last());
        let tail = seq_of(query_entry(items.last()));
        assert forall|i: int| 0 <= i < query_entries(items).len() implies {
            let p = #[trigger] query_entries(items)[i];
            p.kind == SchemaKind::Primitive(Primitive::String) && !p.required && p.in_query
        } by {
            if i >= prev.len() {
                assert(query_entries(items)[i] == tail[i - prev.len()]);
            } else {
                assert(query_entries(items)[i] == prev[i]);
            }
        }
    }
}

/// The component schemas of a description.
pub open spec fn component_schemas(doc: JsonValue) -> Option<JsonValue> {
    field_of(field(doc, "components"@), "schemas"@)
}

/// A request body whose schema is a `$ref` to a defined component schema
/// gives the same parameters as a body that holds that schema inline.
pub proof fn lemma_reference_same_as_inline(
    doc: JsonValue,
    op_ref: JsonValue,
    op_inline: JsonValue,
    name: Seq<char>,
    target: JsonValue,
)
    requires
        field_of(component_schemas(doc), name) == Some(target),
        body_schema(op_ref) matches Some(s) && text_of(field(s, "$ref"@)) == Some(
            "#/components/schemas/"@ + name,
        ),
        body_schema(op_inline) == Some(target),
        text_of(field(target, "$ref"@)).is_none(),
    ensures
        body_params(doc, op_ref) == property_params(target),
        body_params(doc, op_inline) == property_params(target),
        query_params(op_ref) == query_params(op_inline) ==> params_of(doc, op_ref) == params_of(
            doc,
            op_inline,
        ),
{
    let prefix = "#/components/schemas/"@;
    let reference = prefix + name;
    assert(reference.take(prefix.len() as int) =~= prefix);
    assert(reference.skip(prefix.len() as int) =~= name);
    assert(strip_prefix_spec(reference, prefix) == name);
}

} // verus!
