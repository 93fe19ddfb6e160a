//! The document assembler: the fixed preamble, one tool per operation in
//! description order, and the fixed closing.
use vstd::prelude::*;

use crate::emit::{
    any_query, operation_identifier, push_tool_header, request_options, tool_text, uppercase,
};
use crate::json::{field, JsonValue};
use crate::params::{body_parameters, params_of, query_parameters, views, Param};

verus! {

/// The opening of every document: imports, environment set-up, the backend
/// call helper and the server object.
pub open spec fn preamble_text() -> Seq<char> {
    PREAMBLE@
}

/// The end of every document: the transport and the connection.
pub open spec fn closing_text() -> Seq<char> {
    CLOSING@
}

/// The text of the preamble.
pub const PREAMBLE: &'static str = r#"/**
 * Generated MCP server from OpenAPI spec.
 */

import { McpServer } from "@modelcontextprotocol/sdk/server/mcp.js";
import { StdioServerTransport } from "@modelcontextprotocol/sdk/server/stdio.js";
import dotenv from "dotenv";
import { z } from "zod";

dotenv.config();

/**
 * Calls the backend REST API.
 */
async function callBackend<T>(path: string, options?: RequestInit): Promise<T> {
  const baseUrl = process.env.BACKEND_URL;
  const url = `${baseUrl}${path}`;
  const res = await fetch(url, options);
  if (!res.ok) {
    throw new Error(`Backend error: ${res.status} ${res.statusText}`);
  }
  return res.json();
}

const server = new McpServer({
  name: "Generated-MCP",
  version: "1.0.0",
});
"#;

/// The text of the closing.
pub const CLOSING: &'static str = "\nconst transport = new StdioServerTransport();\nawait server.connect(transport);\n";

/// The tool of one member of a path item: only an object is an operation.
pub open spec fn operation_text(doc: JsonValue, path: Seq<char>, method: Seq<char>, op: JsonValue) -> Seq<char> {
    match op {
        JsonValue::Object(_) => tool_text(doc, path, method, op),
        _ => Seq::empty(),
    }
}

/// The tools of the members of a path item, in order.
pub open spec fn methods_text(doc: JsonValue, path: Seq<char>, methods: Seq<(String, JsonValue)>) -> Seq<char>
    decreases methods.len(),
{
    if methods.len() == 0 {
        Seq::empty()
    } else {
        methods_text(doc, path, methods.drop_last()) + operation_text(
            doc,
            path,
            methods.last().0@,
            methods.last().1,
        )
    }
}

/// The tools of one path item; one that is not an object gives none.
pub open spec fn path_item_text(doc: JsonValue, path: Seq<char>, item: JsonValue) -> Seq<char> {
    match item {
        JsonValue::Object(methods) => methods_text(doc, path, methods@),
        _ => Seq::empty(),
    }
}

/// The tools of the members of `paths`, in order.
pub open spec fn paths_text(doc: JsonValue, paths: Seq<(String, JsonValue)>) -> Seq<char>
    decreases paths.len(),
{
    if paths.len() == 0 {
        Seq::empty()
    } else {
        paths_text(doc, paths.drop_last()) + path_item_text(doc, paths.last().0@, paths.last().1)
    }
}

/// The tools of a description: none where `paths` is missing or not an object.
pub open spec fn tools_text(doc: JsonValue) -> Seq<char> {
    match field(doc, "paths"@) {
        Some(JsonValue::Object(paths)) => paths_text(doc, paths@),
        _ => Seq::empty(),
    }
}

/// The generated document of a description.
pub open spec fn document_text(doc: JsonValue) -> Seq<char> {
    preamble_text() + tools_text(doc) + closing_text()
}

/// A description whose `paths` is missing or empty gives the preamble and
/// the closing and no tool between them.
pub proof fn lemma_no_paths_no_tools(doc: JsonValue)
    requires
        field(doc, "paths"@) matches Some(JsonValue::Object(paths)) ==> paths@.len() == 0,
    ensures
        document_text(doc) == preamble_text() + closing_text(),
{
    assert(tools_text(doc) =~= Seq::<char>::empty());
    assert(preamble_text() + Seq::<char>::empty() =~= preamble_text());
}

/// Two generators over the same description produce the same document.
pub proof fn lemma_same_description_same_document(a: CodeGenerator, b: CodeGenerator)
    requires
        a.description() == b.description(),
    ensures
        document_text(a.description()) == document_text(b.description()),
{
}

/// Generates the tool server's source from a description.
pub struct CodeGenerator {
    openapi: JsonValue,
}

impl CodeGenerator {
    /// The description this generator reads.
    pub closed spec fn description(&self) -> JsonValue {
        self.openapi
    }

    pub fn new(openapi: JsonValue) -> (r: Self)
        ensures
            r.description() == openapi,
    {
        CodeGenerator { openapi }
    }

    /// The whole generated document.
    pub fn generate(&self) -> (r: String)
        ensures
            r@ == document_text(self.description()),
    {
        let mut code = String::new();
        self.add_imports(&mut code);
        self.generate_tools(&mut code);
        self.add_server_connection(&mut code);
        assert(code@ =~= document_text(self.description()));
        code
    }

    /// Appends the tools of every operation under `paths`, in order.
    fn generate_tools(&self, code: &mut String)
        ensures
            final(code)@ == old(code)@ + tools_text(self.description()),
    {
        match self.openapi.get("paths") {
            Some(JsonValue::Object(paths)) => {
                let mut i: usize = 0;
                assert(paths@.take(0) =~= Seq::<(String, JsonValue)>::empty());
                assert(old(code)@ + Seq::<char>::empty() =~= old(code)@);
                while i < paths.len()
                    invariant
                        i <= paths@.len(),
                        tools_text(self.openapi) == paths_text(self.openapi, paths@),
                        code@ == old(code)@ + paths_text(self.openapi, paths@.take(i as int)),
                    decreases paths@.len() - i,
                {
                    assert(paths@.take(i + 1).drop_last() =~= paths@.take(i as int));
                    assert(paths@.take(i + 1).last() == paths@[i as int]);
                    let entry = &paths[i];
                    self.generate_path_item(code, entry.0.as_str(), &entry.1);
                    i = i + 1;
                }
                assert(paths@.take(i as int) =~= paths@);
            },
            _ => {
                assert(old(code)@ + Seq::<char>::empty() =~= old(code)@);
            },
        }
    }

    /// Appends the tools of one path item, in order.
    fn generate_path_item(&self, code: &mut String, path: &str, item: &JsonValue)
        ensures
            final(code)@ == old(code)@ + path_item_text(self.description(), path@, *item),
    {
        match item {
            JsonValue::Object(methods) => {
                let mut i: usize = 0;
                assert(methods@.take(0) =~= Seq::<(String, JsonValue)>::empty());
                assert(old(code)@ + Seq::<char>::empty() =~= old(code)@);
                while i < methods.len()
                    invariant
                        i <= methods@.len(),
                        path_item_text(self.openapi, path@, *item) == methods_text(
                            self.openapi,
                            path@,
                            methods@,
                        ),
                        code@ == old(code)@ + methods_text(
                            self.openapi,
                            path@,
                            methods@.take(i as int),
                        ),
                    decreases methods@.len() - i,
                {
                    assert(methods@.take(i + 1).drop_last() =~= methods@.take(i as int));
                    assert(methods@.take(i + 1).last() == methods@[i as int]);
                    let entry = &methods[i];
                    match &entry.1 {
                        JsonValue::Object(_) => {
                            self.generate_tool(code, path, entry.0.as_str(), &entry.1);
                        },
                        _ => {
                            assert(code@ =~= code@ + Seq::<char>::empty());
                        },
                    }
                    i = i + 1;
                }
                assert(methods@.take(i as int) =~= methods@);
            },
            _ => {
                assert(old(code)@ + Seq::<char>::empty() =~= old(code)@);
            },
        }
    }

    /// Appends the tool of one operation.
    fn generate_tool(&self, code: &mut String, path: &str, method: &str, operation: &JsonValue)
        ensures
            final(code)@ == old(code)@ + tool_text(self.description(), path@, method@, *operation),
    {
        let name = operation_identifier(operation, method, path);
        let params = self.collect_parameters(operation);
        let with_query = any_query(&params);
        push_tool_header(code, name.as_str(), &params);
        let ghost after_header = code@;
        if with_query {
            code.append(
                "    const search = new URLSearchParams();\n    Object.entries(params).forEach(([key, value]) => {\n      if (value) search.set(key, String(value));\n    });\n\n",
            );
        }
        let ghost after_query = code@;
        let upper = uppercase(method);
        let options = request_options(upper.as_str(), params.len() > 0);
        code.append("    const result = await callBackend<any>(\n      \"");
        code.append(path);
        if with_query {
            code.append("?${search.toString()}");
        }
        code.append("\",\n      ");
        code.append(options.as_str());
        code.append("\n    );\n\n");
        let ghost after_call = code@;
        assert(after_call =~= after_query + crate::emit::call_text(
            path@,
            with_query,
            options@,
        ));
        code.append(
            "    return {\n      content: [\n        {\n          type: \"text\",\n          text: JSON.stringify(result, null, 2),\n        },\n      ],\n    };\n  }\n);\n",
        );
        assert(params@.len() == views(params@).len());
        assert(code@ =~= old(code)@ + tool_text(self.openapi, path@, method@, *operation));
    }

    /// All parameters of an operation: its query parameters, then those of
    /// its request body, a `$ref` there read from this description.
    pub fn collect_parameters(&self, operation: &JsonValue) -> (r: Vec<Param>)
        ensures
            views(r@) == params_of(self.description(), *operation),
    {
        let mut out = query_parameters(operation);
        let mut body = body_parameters(&self.openapi, operation);
        let ghost q = out@;
        let ghost b = body@;
        out.append(&mut body);
        assert(views(out@) =~= views(q) + views(b));
        out
    }

    /// Appends the preamble.
    fn add_imports(&self, code: &mut String)
        ensures
            final(code)@ == old(code)@ + preamble_text(),
    {
        code.append(PREAMBLE);
    }

    /// Appends the closing.
    fn add_server_connection(&self, code: &mut String)
        ensures
            final(code)@ == old(code)@ + closing_text(),
    {
        code.append(CLOSING);
    }
}

} // verus!
