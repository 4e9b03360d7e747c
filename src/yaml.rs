//! Reading the annotation text as YAML, by the `serde_yaml` crate.
use crate::decode::{
    decode_document, document_config, document_valid, ConfigError, Node, Scalar,
};
use crate::settings::Settings;
use serde_yaml::Value;
use vstd::prelude::*;

verus! {

#[verifier::external_type_specification]
#[verifier::external_body]
pub struct ExYamlValue(serde_yaml::Value);

#[verifier::external_type_specification]
#[verifier::external_body]
pub struct ExYamlError(serde_yaml::Error);

/// A parsed annotation document.
#[derive(Debug)]
pub enum Document {
    /// A mapping: its entries in document order.
    Entries(Vec<(Scalar, Node)>),
    /// Any other top-level value.
    Bare(Scalar),
}

/// The document that a YAML text parses to; `None` when it is not
/// well-formed YAML.
pub uninterp spec fn yaml_document(raw: Seq<char>) -> Option<Document>;

/// Converts one serde_yaml value that stands where a scalar is expected; a
/// number keeps the text that its `Display` gives.
#[verifier::external_body]
fn scalar_of(v: &Value) -> Scalar {
    match v {
        Value::Null => Scalar::Null,
        Value::Bool(b) => Scalar::Bool(*b),
        Value::Number(n) => Scalar::Num(n.as_u64(), n.to_string()),
        Value::String(s) => Scalar::Str(s.clone()),
        _ => Scalar::Other,
    }
}

/// Converts the serde_yaml value that a field name is given.
#[verifier::external_body]
fn node_of(v: &Value) -> Node {
    match v {
        Value::Mapping(m) => Node::Object(m.iter().map(|(k, x)| (scalar_of(k), scalar_of(x))).collect()),
        _ => Node::Scalar(scalar_of(v)),
    }
}

/// Relies on serde_yaml::from_str into a `Value`, whose mappings keep
/// document order: the result depends on the text alone. The value is
/// converted one for one by `node_of` and `scalar_of`, which read the
/// variants of `Value`, `Number::as_u64` and `Number`'s `Display`.
#[verifier::external_body]
fn parse_document(raw: &str) -> (r: Result<Document, serde_yaml::Error>)
    ensures
        r is Ok <==> yaml_document(raw@) is Some,
        r is Ok ==> yaml_document(raw@) == Some(r->Ok_0),
{
    match serde_yaml::from_str::<Value>(raw)? {
        Value::Mapping(m) => Ok(Document::Entries(m.iter().map(|(k, x)| (scalar_of(k), node_of(x))).collect())),
        v => Ok(Document::Bare(scalar_of(&v))),
    }
}

/// The entries of a document; an empty document has none, and any other
/// value that is not a mapping has no entries at all.
pub open spec fn document_entries(d: Document) -> Option<Seq<(Scalar, Node)>> {
    match d {
        Document::Entries(es) => Some(es@),
        Document::Bare(Scalar::Null) => Some(Seq::empty()),
        Document::Bare(_) => None,
    }
}

/// The configuration that an annotation text decodes to.
pub open spec fn decoded(raw: Seq<char>) -> Result<Seq<(String, Settings)>, ConfigError> {
    match yaml_document(raw) {
        None => Err(ConfigError::Syntax),
        Some(d) => match document_entries(d) {
            None => Err(ConfigError::NotAMapping),
            Some(doc) => if document_valid(doc) {
                Ok(document_config(doc))
            } else {
                Err(ConfigError::InvalidEntry)
            },
        },
    }
}

/// Decodes the annotation text into the configuration of each named field.
pub fn decode(raw: &str) -> (r: Result<Vec<(String, Settings)>, ConfigError>)
    ensures
        match r {
            Ok(cfg) => decoded(raw@) == Ok::<Seq<(String, Settings)>, ConfigError>(cfg@),
            Err(e) => decoded(raw@) == Err::<Seq<(String, Settings)>, ConfigError>(e),
        },
{
    let d = match parse_document(raw) {
        Ok(d) => d,
        Err(_) => {
            return Err(ConfigError::Syntax);
        },
    };
    match d {
        Document::Entries(doc) => decode_document(&doc),
        Document::Bare(Scalar::Null) => {
            let empty: Vec<(Scalar, Node)> = Vec::new();
            assert(empty@ =~= Seq::<(Scalar, Node)>::empty());
            decode_document(&empty)
        },
        Document::Bare(_) => Err(ConfigError::NotAMapping),
    }
}

} // verus!
