//! The type mapper: what a property's schema declares, and the validation
//! expression written for it.
use vstd::prelude::*;

use crate::json::{field, field_of, text_of, JsonValue};
use crate::text::same_text;

verus! {

/// A scalar type that a schema can declare.
#[derive(Clone, Copy, Debug, PartialEq, Eq)]
pub enum Primitive {
    String,
    Number,
    Integer,
    Boolean,
}

/// What the generator knows of a property's type.
#[derive(Clone, Copy, Debug, PartialEq, Eq)]
pub enum SchemaKind {
    Primitive(Primitive),
    /// An array, with the scalar type of its items when they declare one.
    Array(Option<Primitive>),
    Unknown,
}

/// The scalar type a `type` name stands for.
pub open spec fn primitive_named(t: Seq<char>) -> Option<Primitive> {
    if t == "string"@ {
        Some(Primitive::String)
    } else if t == "number"@ {
        Some(Primitive::Number)
    } else if t == "integer"@ {
        Some(Primitive::Integer)
    } else if t == "boolean"@ {
        Some(Primitive::Boolean)
    } else {
        None
    }
}

/// The kind of a schema, read from its `type` and, for an array, from the
/// `type` of its `items`. Anything else reads as unknown.
pub open spec fn kind_of(schema: JsonValue) -> SchemaKind {
    match text_of(field(schema, "type"@)) {
        Some(t) => match primitive_named(t) {
            Some(p) => SchemaKind::Primitive(p),
            None => if t == "array"@ {
                SchemaKind::Array(
                    match text_of(field_of(field(schema, "items"@), "type"@)) {
                        Some(it) => primitive_named(it),
                        None => None,
                    },
                )
            } else {
                SchemaKind::Unknown
            },
        },
        None => SchemaKind::Unknown,
    }
}

/// The validator of a scalar type.
pub open spec fn primitive_expr(p: Primitive) -> Seq<char> {
    match p {
        Primitive::String => "z.string()"@,
        Primitive::Number => "z.number()"@,
        Primitive::Integer => "z.number().int()"@,
        Primitive::Boolean => "z.boolean()"@,
    }
}

/// The validator of a kind, in its required form.
pub open spec fn kind_expr(k: SchemaKind) -> Seq<char> {
    match k {
        SchemaKind::Primitive(p) => primitive_expr(p),
        SchemaKind::Array(Some(p)) => "z.array("@ + primitive_expr(p) + ")"@,
        SchemaKind::Array(None) => "z.array(z.any())"@,
        SchemaKind::Unknown => "z.any()"@,
    }
}

/// Reads a `type` name.
pub fn primitive_from_name(t: &str) -> (r: Option<Primitive>)
    ensures
        r == primitive_named(t@),
{
    if same_text(t, "string") {
        Some(Primitive::String)
    } else if same_text(t, "number") {
        Some(Primitive::Number)
    } else if same_text(t, "integer") {
        Some(Primitive::Integer)
    } else if same_text(t, "boolean") {
        Some(Primitive::Boolean)
    } else {
        None
    }
}

/// Reads the kind of a schema.
pub fn schema_kind(schema: &JsonValue) -> (r: SchemaKind)
    ensures
        r == kind_of(*schema),
{
    let declared = match schema.get("type") {
        Some(t) => t.as_str(),
        None => None,
    };
    match declared {
        Some(t) => match primitive_from_name(t) {
            Some(p) => SchemaKind::Primitive(p),
            None => if same_text(t, "array") {
                let item_type = match schema.get("items") {
                    Some(items) => match items.get("type") {
                        Some(it) => it.as_str(),
                        None => None,
                    },
                    None => None,
                };
                match item_type {
                    Some(it) => SchemaKind::Array(primitive_from_name(it)),
                    None => SchemaKind::Array(None),
                }
            } else {
                SchemaKind::Unknown
            },
        },
        None => SchemaKind::Unknown,
    }
}

/// The validator of a scalar type.
pub fn primitive_expression(p: Primitive) -> (r: String)
    ensures
        r@ == primitive_expr(p),
{
    match p {
        Primitive::String => String::from_str("z.string()"),
        Primitive::Number => String::from_str("z.number()"),
        Primitive::Integer => String::from_str("z.number().int()"),
        Primitive::Boolean => String::from_str("z.boolean()"),
    }
}

/// The validator of a kind, in its required form.
pub fn kind_expression(k: SchemaKind) -> (r: String)
    ensures
        r@ == kind_expr(k),
{
    match k {
        SchemaKind::Primitive(p) => primitive_expression(p),
        SchemaKind::Array(Some(p)) => {
            let mut out = String::from_str("z.array(");
            let inner = primitive_expression(p);
            out.append(inner.as_str());
            out.append(")");
            out
        },
        SchemaKind::Array(None) => String::from_str("z.array(z.any())"),
        SchemaKind::Unknown => String::from_str("z.any()"),
    }
}

} // verus!
