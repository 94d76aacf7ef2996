//! Validating JSON values against the schemas that are compiled into the tool.

use vstd::prelude::*;
use serde_json::Value;
use jsonschema::error::ValidationErrorKind;
use crate::assets;
use crate::json;
use crate::json::Tree;
use crate::text;

verus! {

/// What kind of rule a value breaks.
pub enum ViolationKind {
    /// A required member is missing; the name of the member as a JSON value.
    Required(Value),
    /// There are members that the schema does not know.
    AdditionalProperties(Vec<String>),
    /// Any other rule.
    Other,
}

/// A broken rule: where, what kind, and the validator's own message.
pub struct Violation {
    /// JSON pointer to the offending value.
    pub instance_path: String,
    pub message: String,
    pub kind: ViolationKind,
}

/// The kind of a violation as plain values.
#[verifier::ext_equal]
pub enum KindModel {
    Required(Tree),
    AdditionalProperties(Seq<Seq<char>>),
    Other,
}

/// A violation as plain values.
#[verifier::ext_equal]
pub struct ViolationModel {
    pub instance_path: Seq<char>,
    pub message: Seq<char>,
    pub kind: KindModel,
}

impl View for ViolationKind {
    type V = KindModel;

    open spec fn view(&self) -> KindModel {
        match self {
            ViolationKind::Required(v) => KindModel::Required(json::json_tree(*v)),
            ViolationKind::AdditionalProperties(keys) => KindModel::AdditionalProperties(
                text::views(keys@),
            ),
            ViolationKind::Other => KindModel::Other,
        }
    }
}

impl View for Violation {
    type V = ViolationModel;

    open spec fn view(&self) -> ViolationModel {
        ViolationModel {
            instance_path: self.instance_path@,
            message: self.message@,
            kind: self.kind@,
        }
    }
}

/// What the validator says of a value under a schema: the first violation,
/// where there is one; or, where the schema does not compile, the message.
pub uninterp spec fn schema_verdict(schema: Tree, value: Tree) -> Result<
    Option<ViolationModel>,
    Seq<char>,
>;

/// `t` is one of the schemas that are compiled into the tool.
pub open spec fn built_in_schema(t: Tree) -> bool {
    ||| resume_schema() == Ok::<Tree, Seq<char>>(t)
    ||| keyword_schema() == Ok::<Tree, Seq<char>>(t)
}

/// The schema of the resume document.
pub open spec fn resume_schema() -> Result<Tree, Seq<char>> {
    json::json_parsed(assets::YAML_SCHEMA@)
}

/// The structured-output block of the keyword call.
pub open spec fn keyword_format() -> Result<Tree, Seq<char>> {
    json::json_parsed(assets::KEYWORD_RESPONSE_FORMAT@)
}

/// The structured-output block of the scrape call.
pub open spec fn scrape_format() -> Result<Tree, Seq<char>> {
    json::json_parsed(assets::SCRAPE_RESPONSE_FORMAT@)
}

/// The schema of the keyword catalogue: the inner schema of its
/// structured-output block.
pub open spec fn keyword_schema() -> Result<Tree, Seq<char>> {
    match keyword_format() {
        Ok(t) => match json::tree_path2(t, "json_schema"@, "schema"@) {
            Some(inner) => Ok(inner),
            None => Err("ats_keyword_extraction.json must contain /json_schema/schema"@),
        },
        Err(e) => Err(e),
    }
}

/// `JSONSchema::options().compile` on a schema, and the first of the errors of
/// `JSONSchema::validate` on a value. The verdict depends on the schema and the
/// value alone: the schemas of the tool use neither references nor conditional
/// keywords, and their keywords and members are walked in the order of the keys.
/// `validate` fails only with at least one error.
#[verifier::external_body]
pub(crate) fn first_violation(schema: &Value, value: &Value) -> (r: Result<
    Option<Violation>,
    String,
>)
    requires
        built_in_schema(json::json_tree(*schema)),
    ensures
        verdict_model(r) == schema_verdict(json::json_tree(*schema), json::json_tree(*value)),
{
    let validator = jsonschema::JSONSchema::options().compile(schema).map_err(|e| e.to_string())?;
    let first = validator.validate(value).err().and_then(|mut errors| errors.next());
    Ok(first.map(|e| Violation {
        instance_path: e.instance_path.to_string(),
        message: e.to_string(),
        kind: match e.kind {
            ValidationErrorKind::Required { property } => ViolationKind::Required(property),
            ValidationErrorKind::AdditionalProperties { unexpected } =>
                ViolationKind::AdditionalProperties(unexpected),
            _ => ViolationKind::Other,
        },
    }))
}

/// A verdict as plain values.
pub open spec fn verdict_model(r: Result<Option<Violation>, String>) -> Result<
    Option<ViolationModel>,
    Seq<char>,
> {
    match r {
        Ok(None) => Ok(None),
        Ok(Some(v)) => Ok(Some(v@)),
        Err(e) => Err(e@),
    }
}

/// A parsed value, or the message of the failure.
pub open spec fn value_model(r: Result<Value, String>) -> Result<Tree, Seq<char>> {
    match r {
        Ok(v) => Ok(json::json_tree(v)),
        Err(e) => Err(e@),
    }
}

/// The schema of the resume document.
pub(crate) fn load_resume_schema() -> (r: Result<Value, String>)
    ensures
        value_model(r) == resume_schema(),
{
    json::parse(assets::YAML_SCHEMA)
}

/// The structured-output block of the keyword call.
pub fn keyword_response_format() -> (r: Result<Value, String>)
    ensures
        value_model(r) == keyword_format(),
{
    json::parse(assets::KEYWORD_RESPONSE_FORMAT)
}

/// The structured-output block of the scrape call.
pub fn scrape_response_format() -> (r: Result<Value, String>)
    ensures
        value_model(r) == scrape_format(),
{
    json::parse(assets::SCRAPE_RESPONSE_FORMAT)
}

/// The schema of the keyword catalogue.
pub(crate) fn load_keyword_schema() -> (r: Result<Value, String>)
    ensures
        value_model(r) == keyword_schema(),
{
    let envelope = keyword_response_format()?;
    match json::member2(&envelope, "json_schema", "schema") {
        Some(inner) => Ok(inner.clone()),
        None => Err("ats_keyword_extraction.json must contain /json_schema/schema".to_string()),
    }
}

} // verus!
