use openapi_to_mcp::emit::{operation_identifier, render_param, request_options, validation_expression};
use openapi_to_mcp::generator::{CodeGenerator, CLOSING, PREAMBLE};
use openapi_to_mcp::json::JsonValue;
use openapi_to_mcp::params::{query_parameters, Param};
use openapi_to_mcp::schema::{kind_expression, schema_kind, Primitive, SchemaKind};
use openapi_to_mcp::text::{replace_slashes, strip_prefix};

fn text(s: &str) -> JsonValue {
    JsonValue::Str(s.to_string())
}

fn obj(entries: Vec<(&str, JsonValue)>) -> JsonValue {
    JsonValue::Object(entries.into_iter().map(|(k, v)| (k.to_string(), v)).collect())
}

fn arr(items: Vec<JsonValue>) -> JsonValue {
    JsonValue::Array(items)
}

fn typed(t: &str) -> JsonValue {
    obj(vec![("type", text(t))])
}

fn query_param(name: &str, schema_type: &str) -> JsonValue {
    obj(vec![
        ("name", text(name)),
        ("in", text("query")),
        ("schema", typed(schema_type)),
    ])
}

fn json_body(schema: JsonValue) -> JsonValue {
    obj(vec![(
        "content",
        obj(vec![("application/json", obj(vec![("schema", schema)]))]),
    )])
}

fn doc_with_paths(paths: JsonValue) -> JsonValue {
    obj(vec![("openapi", text("3.0.0")), ("paths", paths)])
}

fn p(name: &str, required: bool, kind: SchemaKind, in_query: bool) -> Param {
    Param { name: name.to_string(), required, kind, in_query }
}

const RESPONSE: &str = "    return {\n      content: [\n        {\n          type: \"text\",\n          text: JSON.stringify(result, null, 2),\n        },\n      ],\n    };\n  }\n);\n";

const QUERY_BLOCK: &str = "    const search = new URLSearchParams();\n    Object.entries(params).forEach(([key, value]) => {\n      if (value) search.set(key, String(value));\n    });\n\n";

#[test]
fn absent_paths_give_preamble_and_closing_only() {
    let g = CodeGenerator::new(obj(vec![("openapi", text("3.0.0"))]));
    let out = g.generate();
    assert_eq!(out, format!("{}{}", PREAMBLE, CLOSING));
    assert!(!out.contains("server.tool("));
}

#[test]
fn empty_paths_give_preamble_and_closing_only() {
    let g = CodeGenerator::new(doc_with_paths(obj(vec![])));
    assert_eq!(g.generate(), format!("{}{}", PREAMBLE, CLOSING));
}

#[test]
fn preamble_and_closing_text() {
    assert!(PREAMBLE.starts_with("/**\n * Generated MCP server from OpenAPI spec.\n */\n"));
    assert!(PREAMBLE.contains("const server = new McpServer({\n  name: \"Generated-MCP\",\n  version: \"1.0.0\",\n});\n"));
    assert_eq!(
        CLOSING,
        "\nconst transport = new StdioServerTransport();\nawait server.connect(transport);\n"
    );
}

#[test]
fn identifier_derived_from_method_and_path() {
    let op = obj(vec![("summary", text("list"))]);
    assert_eq!(operation_identifier(&op, "get", "/users/{id}/posts"), "get__users_{id}_posts");
}

#[test]
fn identifier_uses_operation_id() {
    let op = obj(vec![("operationId", text("listUsers"))]);
    assert_eq!(operation_identifier(&op, "get", "/users"), "listUsers");
}

#[test]
fn empty_operation_id_is_replaced_by_derived_name() {
    let op = obj(vec![("operationId", text(""))]);
    assert_eq!(operation_identifier(&op, "post", "/a/b"), "post__a_b");
}

#[test]
fn replace_slashes_changes_every_slash() {
    assert_eq!(replace_slashes("/a//b/"), "_a__b_");
    assert_eq!(replace_slashes(""), "");
    assert_eq!(replace_slashes("plain"), "plain");
}

#[test]
fn query_params_are_optional_strings_whatever_their_schema() {
    let op = obj(vec![(
        "parameters",
        arr(vec![
            query_param("limit", "integer"),
            query_param("flag", "boolean"),
            obj(vec![("name", text("id")), ("in", text("path"))]),
            text("not an object"),
            obj(vec![("in", text("query"))]),
        ]),
    )]);
    let ps = query_parameters(&op);
    assert_eq!(
        ps,
        vec![
            p("limit", false, SchemaKind::Primitive(Primitive::String), true),
            p("flag", false, SchemaKind::Primitive(Primitive::String), true),
        ]
    );
    for q in &ps {
        assert_eq!(validation_expression(q), "z.string().optional()");
    }
    assert_eq!(render_param(&ps[0]), "limit: z.string().optional()");
}

#[test]
fn body_properties_required_and_optional_in_order() {
    let schema = obj(vec![
        ("type", text("object")),
        ("required", arr(vec![text("a")])),
        ("properties", obj(vec![("a", typed("string")), ("b", typed("number"))])),
    ]);
    let op = obj(vec![("requestBody", json_body(schema))]);
    let g = CodeGenerator::new(obj(vec![]));
    let ps = g.collect_parameters(&op);
    assert_eq!(
        ps,
        vec![
            p("a", true, SchemaKind::Primitive(Primitive::String), false),
            p("b", false, SchemaKind::Primitive(Primitive::Number), false),
        ]
    );
    assert_eq!(render_param(&ps[0]), "a: z.string()");
    assert_eq!(render_param(&ps[1]), "b: z.number().optional()");
}

#[test]
fn reference_body_matches_inline_body() {
    let pet = obj(vec![
        ("required", arr(vec![text("name")])),
        (
            "properties",
            obj(vec![
                ("name", typed("string")),
                ("age", typed("integer")),
                ("tags", obj(vec![("type", text("array")), ("items", typed("string"))])),
            ]),
        ),
    ]);
    let doc = obj(vec![(
        "components",
        obj(vec![("schemas", obj(vec![("Pet", pet)]))]),
    )]);
    let by_ref = obj(vec![(
        "requestBody",
        json_body(obj(vec![("$ref", text("#/components/schemas/Pet"))])),
    )]);
    let inline_pet = obj(vec![
        ("required", arr(vec![text("name")])),
        (
            "properties",
            obj(vec![
                ("name", typed("string")),
                ("age", typed("integer")),
                ("tags", obj(vec![("type", text("array")), ("items", typed("string"))])),
            ]),
        ),
    ]);
    let inline = obj(vec![("requestBody", json_body(inline_pet))]);
    let g = CodeGenerator::new(doc);
    let a = g.collect_parameters(&by_ref);
    let b = g.collect_parameters(&inline);
    assert_eq!(a, b);
    assert_eq!(
        a,
        vec![
            p("name", true, SchemaKind::Primitive(Primitive::String), false),
            p("age", false, SchemaKind::Primitive(Primitive::Integer), false),
            p("tags", false, SchemaKind::Array(Some(Primitive::String)), false),
        ]
    );
}

#[test]
fn unresolved_reference_gives_no_body_params() {
    let doc = obj(vec![("components", obj(vec![("schemas", obj(vec![]))]))]);
    let op = obj(vec![(
        "requestBody",
        json_body(obj(vec![("$ref", text("#/components/schemas/Missing"))])),
    )]);
    let g = CodeGenerator::new(doc);
    assert!(g.collect_parameters(&op).is_empty());
}

#[test]
fn missing_body_links_give_no_params() {
    let g = CodeGenerator::new(obj(vec![]));
    let no_json = obj(vec![(
        "requestBody",
        obj(vec![("content", obj(vec![("text/plain", obj(vec![]))]))]),
    )]);
    assert!(g.collect_parameters(&no_json).is_empty());
    let no_props = obj(vec![("requestBody", json_body(typed("object")))]);
    assert!(g.collect_parameters(&no_props).is_empty());
    assert!(g.collect_parameters(&text("x")).is_empty());
}

#[test]
fn duplicate_names_are_kept() {
    let op = obj(vec![
        ("parameters", arr(vec![query_param("id", "string")])),
        (
            "requestBody",
            json_body(obj(vec![("properties", obj(vec![("id", typed("integer"))]))])),
        ),
    ]);
    let g = CodeGenerator::new(obj(vec![]));
    assert_eq!(
        g.collect_parameters(&op),
        vec![
            p("id", false, SchemaKind::Primitive(Primitive::String), true),
            p("id", false, SchemaKind::Primitive(Primitive::Integer), false),
        ]
    );
}

#[test]
fn strip_prefix_takes_one_copy_of_the_prefix() {
    assert_eq!(strip_prefix("#/components/schemas/Pet", "#/components/schemas/"), "Pet");
    assert_eq!(
        strip_prefix("#/components/schemas/#/components/schemas/Pet", "#/components/schemas/"),
        "#/components/schemas/Pet"
    );
    assert_eq!(strip_prefix("Pet", "#/components/schemas/"), "Pet");
    assert_eq!(strip_prefix("abc", ""), "abc");
}

#[test]
fn reference_to_component_named_with_prefix_resolves_once() {
    let odd = obj(vec![("properties", obj(vec![("x", typed("boolean"))]))]);
    let doc = obj(vec![(
        "components",
        obj(vec![("schemas", obj(vec![("#/components/schemas/X", odd)]))]),
    )]);
    let op = obj(vec![(
        "requestBody",
        json_body(obj(vec![("$ref", text("#/components/schemas/#/components/schemas/X"))])),
    )]);
    let g = CodeGenerator::new(doc);
    assert_eq!(
        g.collect_parameters(&op),
        vec![p("x", false, SchemaKind::Primitive(Primitive::Boolean), false)]
    );
}

#[test]
fn type_mapping_table() {
    assert_eq!(schema_kind(&typed("string")), SchemaKind::Primitive(Primitive::String));
    assert_eq!(schema_kind(&typed("number")), SchemaKind::Primitive(Primitive::Number));
    assert_eq!(schema_kind(&typed("integer")), SchemaKind::Primitive(Primitive::Integer));
    assert_eq!(schema_kind(&typed("boolean")), SchemaKind::Primitive(Primitive::Boolean));
    assert_eq!(schema_kind(&typed("object")), SchemaKind::Unknown);
    assert_eq!(schema_kind(&obj(vec![])), SchemaKind::Unknown);
    assert_eq!(schema_kind(&obj(vec![("type", JsonValue::Bool(true))])), SchemaKind::Unknown);
    assert_eq!(schema_kind(&typed("array")), SchemaKind::Array(None));
    let arr_of = |t: &str| obj(vec![("type", text("array")), ("items", typed(t))]);
    assert_eq!(schema_kind(&arr_of("boolean")), SchemaKind::Array(Some(Primitive::Boolean)));
    assert_eq!(schema_kind(&arr_of("object")), SchemaKind::Array(None));
    let ref_items = obj(vec![
        ("type", text("array")),
        ("items", obj(vec![("$ref", text("#/components/schemas/Pet"))])),
    ]);
    assert_eq!(schema_kind(&ref_items), SchemaKind::Array(None));
}

#[test]
fn validator_expressions() {
    assert_eq!(kind_expression(SchemaKind::Primitive(Primitive::String)), "z.string()");
    assert_eq!(kind_expression(SchemaKind::Primitive(Primitive::Number)), "z.number()");
    assert_eq!(kind_expression(SchemaKind::Primitive(Primitive::Integer)), "z.number().int()");
    assert_eq!(kind_expression(SchemaKind::Primitive(Primitive::Boolean)), "z.boolean()");
    assert_eq!(
        kind_expression(SchemaKind::Array(Some(Primitive::Integer))),
        "z.array(z.number().int())"
    );
    assert_eq!(kind_expression(SchemaKind::Array(None)), "z.array(z.any())");
    assert_eq!(kind_expression(SchemaKind::Unknown), "z.any()");
    let q = p("n", true, SchemaKind::Array(Some(Primitive::Number)), false);
    assert_eq!(render_param(&q), "n: z.array(z.number())");
}

#[test]
fn get_sends_no_body() {
    let r = request_options("GET", true);
    assert_eq!(r, "{\n        method: \"GET\"\n      }");
    assert!(!r.contains("body") && !r.contains("Content-Type"));
}

#[test]
fn post_put_patch_send_json_body() {
    for m in ["POST", "PUT", "PATCH"] {
        for has in [false, true] {
            let r = request_options(m, has);
            assert_eq!(
                r,
                format!("{{\n        method: \"{}\",\n        headers: {{ \"Content-Type\": \"application/json\" }},\n        body: JSON.stringify(params)\n      }}", m)
            );
        }
    }
}

#[test]
fn delete_sends_body_only_with_params() {
    assert_eq!(request_options("DELETE", false), "{\n        method: \"DELETE\"\n      }");
    let r = request_options("DELETE", true);
    assert!(r.contains("body: JSON.stringify(params)"));
    assert!(r.contains("\"Content-Type\": \"application/json\""));
}

#[test]
fn other_methods_pass_through_without_body() {
    assert_eq!(request_options("OPTIONS", true), "{\n        method: \"OPTIONS\"\n      }");
}

#[test]
fn end_to_end_get_items_with_query() {
    let op = obj(vec![("parameters", arr(vec![query_param("q", "string")]))]);
    let doc = doc_with_paths(obj(vec![("/items", obj(vec![("get", op)]))]));
    let out = CodeGenerator::new(doc).generate();
    let tool = format!(
        "\nserver.tool(\n  \"get__items\",\n  {{\n    q: z.string().optional()\n  }},\n  async (params) => {{\n{}    const result = await callBackend<any>(\n      \"/items?${{search.toString()}}\",\n      {{\n        method: \"GET\"\n      }}\n    );\n\n{}",
        QUERY_BLOCK, RESPONSE
    );
    assert_eq!(out, format!("{}{}{}", PREAMBLE, tool, CLOSING));
}

#[test]
fn lower_case_method_is_upper_cased_in_dispatch() {
    let body = json_body(obj(vec![("properties", obj(vec![("name", typed("string"))]))]));
    let op = obj(vec![("operationId", text("createPet")), ("requestBody", body)]);
    let doc = doc_with_paths(obj(vec![("/pets", obj(vec![("post", op)]))]));
    let out = CodeGenerator::new(doc).generate();
    let tool = format!(
        "\nserver.tool(\n  \"createPet\",\n  {{\n    name: z.string().optional()\n  }},\n  async (params) => {{\n    const result = await callBackend<any>(\n      \"/pets\",\n      {{\n        method: \"POST\",\n        headers: {{ \"Content-Type\": \"application/json\" }},\n        body: JSON.stringify(params)\n      }}\n    );\n\n{}",
        RESPONSE
    );
    assert_eq!(out, format!("{}{}{}", PREAMBLE, tool, CLOSING));
}

#[test]
fn delete_without_params_has_no_body_in_document() {
    let doc = doc_with_paths(obj(vec![("/pets/{id}", obj(vec![("delete", obj(vec![]))]))]));
    let out = CodeGenerator::new(doc).generate();
    assert!(out.contains("\"delete__pets_{id}\",\n  {\n    \n  },"));
    assert!(out.contains("{\n        method: \"DELETE\"\n      }"));
    assert!(!out.contains("body: JSON.stringify(params)"));
    assert!(!out.contains("URLSearchParams();\n    Object"));
}

#[test]
fn body_param_named_query_builds_no_query_string() {
    let body = json_body(obj(vec![("properties", obj(vec![("query", typed("string"))]))]));
    let op = obj(vec![("requestBody", body)]);
    let doc = doc_with_paths(obj(vec![("/search", obj(vec![("put", op)]))]));
    let out = CodeGenerator::new(doc).generate();
    assert!(!out.contains("search.toString()"));
    assert!(out.contains("query: z.string().optional()"));
}

#[test]
fn malformed_path_items_and_operations_are_skipped() {
    let doc = doc_with_paths(obj(vec![
        ("/bad", text("oops")),
        ("/ok", obj(vec![("parameters", arr(vec![])), ("get", obj(vec![]))])),
    ]));
    let out = CodeGenerator::new(doc).generate();
    assert_eq!(out.matches("server.tool(").count(), 1);
    assert!(out.contains("\"get__ok\""));
}

#[test]
fn tools_follow_description_order() {
    let doc = doc_with_paths(obj(vec![
        ("/b", obj(vec![("post", obj(vec![])), ("get", obj(vec![]))])),
        ("/a", obj(vec![("get", obj(vec![]))])),
    ]));
    let out = CodeGenerator::new(doc).generate();
    let i1 = out.find("\"post__b\"").unwrap();
    let i2 = out.find("\"get__b\"").unwrap();
    let i3 = out.find("\"get__a\"").unwrap();
    assert!(i1 < i2 && i2 < i3);
}

#[test]
fn generating_twice_gives_identical_documents() {
    let make = || {
        let op = obj(vec![("parameters", arr(vec![query_param("q", "string")]))]);
        doc_with_paths(obj(vec![("/items", obj(vec![("get", op)]))]))
    };
    let g = CodeGenerator::new(make());
    let first = g.generate();
    let second = g.generate();
    assert_eq!(first, second);
    assert_eq!(first, CodeGenerator::new(make()).generate());
}

#[test]
fn repeated_key_reads_as_last_value() {
    let v = obj(vec![("k", text("first")), ("k", text("second"))]);
    assert_eq!(v.get("k").and_then(|x| x.as_str()), Some("second"));
    assert!(v.get("missing").is_none());
    assert!(text("s").get("k").is_none());
}
