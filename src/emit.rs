//! The tool emitter: the text of one tool registration.
use vstd::prelude::*;

use crate::json::{field, text_of, JsonValue};
use crate::params::{
    has_query, lemma_query_entries_are_optional_strings, params_of, query_params, Param, ParamSpec,
};
use crate::schema::{kind_expr, kind_expression};
use crate::text::{replace_slashes, same_text, slashes_to_underscores};

verus! {

/// What `str::to_uppercase` makes of a string.
pub uninterp spec fn upper_of(s: Seq<char>) -> Seq<char>;

/// Relies on `str::to_uppercase`: the upper-case form of a string, which
/// depends on its characters alone.
#[verifier::external_body]
pub(crate) fn uppercase(s: &str) -> (r: String)
    ensures
        r@ == upper_of(s@),
{
    s.to_uppercase()
}

/// The validation expression of a parameter: the kind's validator, made
/// optional where the parameter is not required.
pub open spec fn validation_expr(p: ParamSpec) -> Seq<char> {
    if p.required {
        kind_expr(p.kind)
    } else {
        kind_expr(p.kind) + ".optional()"@
    }
}

/// The line of a parameter in a tool's parameter block.
pub open spec fn param_line(p: ParamSpec) -> Seq<char> {
    p.name + ": "@ + validation_expr(p)
}

/// The lines of a parameter list.
pub open spec fn param_lines(ps: Seq<ParamSpec>) -> Seq<Seq<char>> {
    ps.map_values(|p: ParamSpec| param_line(p))
}

/// `parts` written one after another with `sep` between each two.
pub open spec fn join(parts: Seq<Seq<char>>, sep: Seq<char>) -> Seq<char>
    decreases parts.len(),
{
    if parts.len() == 0 {
        Seq::empty()
    } else if parts.len() == 1 {
        parts[0]
    } else {
        join(parts.drop_last(), sep) + sep + parts.last()
    }
}

/// The name made up for an operation without an identifier.
pub open spec fn derived_name(method: Seq<char>, path: Seq<char>) -> Seq<char> {
    method + "_"@ + slashes_to_underscores(path)
}

/// The name of an operation's tool: its non-empty `operationId`, or the
/// name made up from method and path.
pub open spec fn tool_name(op: JsonValue, method: Seq<char>, path: Seq<char>) -> Seq<char> {
    match text_of(field(op, "operationId"@)) {
        Some(id) => if id.len() > 0 {
            id
        } else {
            derived_name(method, path)
        },
        None => derived_name(method, path),
    }
}

/// Request options that give the method alone: no headers, no body.
pub open spec fn bare_request(method: Seq<char>) -> Seq<char> {
    "{\n        method: \""@ + method + "\"\n      }"@
}

/// Request options with the JSON content-type header and the parameters
/// sent as the body.
pub open spec fn json_request(method: Seq<char>) -> Seq<char> {
    "{\n        method: \""@ + method
        + "\",\n        headers: { \"Content-Type\": \"application/json\" },\n        body: JSON.stringify(params)\n      }"@
}

/// The request options for an upper-case method: a body for `POST`, `PUT`
/// and `PATCH`, and for `DELETE` when the tool has parameters; none else.
pub open spec fn request_text(method_upper: Seq<char>, has_params: bool) -> Seq<char> {
    if method_upper == "GET"@ {
        bare_request(method_upper)
    } else if method_upper == "POST"@ || method_upper == "PUT"@ || method_upper == "PATCH"@ {
        json_request(method_upper)
    } else if method_upper == "DELETE"@ {
        if has_params {
            json_request(method_upper)
        } else {
            bare_request(method_upper)
        }
    } else {
        bare_request(method_upper)
    }
}

/// The opening of a tool registration, up to its handler's body.
pub open spec fn tool_header(name: Seq<char>, ps: Seq<ParamSpec>) -> Seq<char> {
    "\nserver.tool(\n  \""@ + name + "\",\n  {\n    "@ + join(param_lines(ps), ",\n    "@)
        + "\n  },\n  async (params) => {\n"@
}

/// Code that builds the query string from the values given at call time.
pub open spec fn query_block() -> Seq<char> {
    "    const search = new URLSearchParams();\n    Object.entries(params).forEach(([key, value]) => {\n      if (value) search.set(key, String(value));\n    });\n\n"@
}

/// The backend call of a tool.
pub open spec fn call_text(path: Seq<char>, with_query: bool, options: Seq<char>) -> Seq<char> {
    "    const result = await callBackend<any>(\n      \""@ + path + (if with_query {
        "?${search.toString()}"@
    } else {
        Seq::empty()
    }) + "\",\n      "@ + options + "\n    );\n\n"@
}

/// The end of every tool: the backend's JSON result as one text item.
pub open spec fn response_block() -> Seq<char> {
    "    return {\n      content: [\n        {\n          type: \"text\",\n          text: JSON.stringify(result, null, 2),\n        },\n      ],\n    };\n  }\n);\n"@
}

/// The whole registration of one operation's tool.
pub open spec fn tool_text(doc: JsonValue, path: Seq<char>, method: Seq<char>, op: JsonValue) -> Seq<
    char,
> {
    let ps = params_of(doc, op);
    let q = has_query(ps);
    tool_header(tool_name(op, method, path), ps) + (if q {
        query_block()
    } else {
        Seq::empty()
    }) + call_text(path, q, request_text(upper_of(method), ps.len() > 0)) + response_block()
}

/// The validation expression of every query parameter is the optional
/// string validator, whatever schema the parameter declares.
pub proof fn lemma_query_params_validate_as_optional_strings(op: JsonValue)
    ensures
        forall|i: int|
            0 <= i < query_params(op).len() ==> validation_expr(#[trigger] query_params(op)[i])
                == "z.string()"@ + ".optional()"@,
{
    match field(op, "parameters"@) {
        Some(JsonValue::Array(items)) => lemma_query_entries_are_optional_strings(items@),
        _ => {},
    }
}

/// The dispatch of each method: `GET` sends no body and no content-type
/// header; `POST`, `PUT` and `PATCH` always send both; `DELETE` sends both
/// exactly when the tool has parameters.
pub proof fn lemma_dispatch_by_method(has_params: bool)
    ensures
        request_text("GET"@, has_params) == bare_request("GET"@),
        request_text("POST"@, has_params) == json_request("POST"@),
        request_text("PUT"@, has_params) == json_request("PUT"@),
        request_text("PATCH"@, has_params) == json_request("PATCH"@),
        request_text("DELETE"@, false) == bare_request("DELETE"@),
        request_text("DELETE"@, true) == json_request("DELETE"@),
{
    reveal_strlit("GET");
    reveal_strlit("POST");
    reveal_strlit("PUT");
    reveal_strlit("PATCH");
    reveal_strlit("DELETE");
    assert("PUT"@[0] != "GET"@[0]);
}

/// The validation expression of a parameter.
pub fn validation_expression(p: &Param) -> (r: String)
    ensures
        r@ == validation_expr(p@),
{
    let mut out = kind_expression(p.kind);
    if !p.required {
        out.append(".optional()");
    }
    out
}

/// The line of a parameter in a tool's parameter block.
pub fn render_param(p: &Param) -> (r: String)
    ensures
        r@ == param_line(p@),
{
    let mut out = String::from_str(p.name.as_str());
    out.append(": ");
    let expr = validation_expression(p);
    out.append(expr.as_str());
    out
}

/// The name of an operation's tool.
pub fn operation_identifier(op: &JsonValue, method: &str, path: &str) -> (r: String)
    ensures
        r@ == tool_name(*op, method@, path@),
        text_of(field(*op, "operationId"@)).is_none() ==> r@ == method@ + "_"@
            + slashes_to_underscores(path@),
{
    let id = match op.get("operationId") {
        Some(v) => v.as_str(),
        None => None,
    };
    match id {
        Some(s) => {
            if s.unicode_len() > 0 {
                return String::from_str(s);
            }
        },
        None => {},
    }
    let mut out = String::from_str(method);
    out.append("_");
    let tail = replace_slashes(path);
    out.append(tail.as_str());
    out
}

/// The request options for an upper-case method.
pub fn request_options(method_upper: &str, has_params: bool) -> (r: String)
    ensures
        r@ == request_text(method_upper@, has_params),
{
    let with_body = if same_text(method_upper, "GET") {
        false
    } else if same_text(method_upper, "POST") || same_text(method_upper, "PUT") || same_text(
        method_upper,
        "PATCH",
    ) {
        true
    } else if same_text(method_upper, "DELETE") {
        has_params
    } else {
        false
    };
    let mut out = String::from_str("{\n        method: \"");
    out.append(method_upper);
    if with_body {
        out.append(
            "\",\n        headers: { \"Content-Type\": \"application/json\" },\n        body: JSON.stringify(params)\n      }",
        );
    } else {
        out.append("\"\n      }");
    }
    out
}

/// Whether a parameter list holds one that came from the query.
pub fn any_query(ps: &Vec<Param>) -> (r: bool)
    ensures
        r == has_query(crate::params::views(ps@)),
{
    let ghost vs = crate::params::views(ps@);
    let mut i: usize = 0;
    while i < ps.len()
        invariant
            i <= ps@.len(),
            vs == crate::params::views(ps@),
            forall|j: int| 0 <= j < i ==> !(#[trigger] vs[j]).in_query,
        decreases ps@.len() - i,
    {
        if ps[i].in_query {
            assert(vs[i as int].in_query);
            return true;
        }
        i = i + 1;
    }
    false
}

/// The lines of a parameter list joined by commas, one parameter a line.
pub fn join_param_lines(ps: &Vec<Param>) -> (r: String)
    ensures
        r@ == join(param_lines(crate::params::views(ps@)), ",\n    "@),
{
    let ghost lines = param_lines(crate::params::views(ps@));
    let mut out = String::new();
    let mut i: usize = 0;
    assert(lines.take(0) =~= Seq::<Seq<char>>::empty());
    while i < ps.len()
        invariant
            i <= ps@.len(),
            lines == param_lines(crate::params::views(ps@)),
            lines.len() == ps@.len(),
            out@ == join(lines.take(i as int), ",\n    "@),
        decreases ps@.len() - i,
    {
        let ghost before = out@;
        let line = render_param(&ps[i]);
        assert(line@ == lines[i as int]);
        assert(lines.take(i + 1).drop_last() =~= lines.take(i as int));
        assert(lines.take(i + 1).last() == lines[i as int]);
        if i > 0 {
            out.append(",\n    ");
            out.append(line.as_str());
            assert(out@ == before + ",\n    "@ + line@);
        } else {
            out.append(line.as_str());
            assert(before =~= Seq::<char>::empty());
            assert(out@ =~= line@);
        }
        i = i + 1;
    }
    assert(lines.take(i as int) =~= lines);
    out
}

/// Appends the opening of a tool registration.
pub fn push_tool_header(code: &mut String, name: &str, ps: &Vec<Param>)
    ensures
        final(code)@ == old(code)@ + tool_header(name@, crate::params::views(ps@)),
{
    let joined = join_param_lines(ps);
    code.append("\nserver.tool(\n  \"");
    code.append(name);
    code.append("\",\n  {\n    ");
    code.append(joined.as_str());
    code.append("\n  },\n  async (params) => {\n");
    assert(final(code)@ =~= old(code)@ + tool_header(name@, crate::params::views(ps@)));
}

} // verus!
