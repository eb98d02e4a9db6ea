//! The table of conversion rules: which target type stands for a source
//! type, depending on where in the event the value sits.

use vstd::prelude::*;

verus! {

/// The place in an event where a value sits.
#[derive(Debug, Clone, Copy, PartialEq, Eq, Structural)]
pub enum LambdaContext {
    EventRoot,
    HeaderValue,
    StatusCode,
    Timestamp,
    Records,
    RequestContext,
    PathParameters,
    QueryStringParameters,
    Body,
}

/// One rule: a source type seen in a given place becomes a target type,
/// with an attribute for its serialization where one is needed.
#[derive(Debug)]
pub struct TypeConversionRule {
    pub python_pattern: String,
    pub rust_type: String,
    pub lambda_context: LambdaContext,
    pub serde_attribute: Option<String>,
}

/// Mathematical value of a [`TypeConversionRule`].
pub struct TypeConversionRuleView {
    pub python_pattern: Seq<char>,
    pub rust_type: Seq<char>,
    pub lambda_context: LambdaContext,
    pub serde_attribute: Option<Seq<char>>,
}

impl View for TypeConversionRule {
    type V = TypeConversionRuleView;

    open spec fn view(&self) -> TypeConversionRuleView {
        TypeConversionRuleView {
            python_pattern: self.python_pattern@,
            rust_type: self.rust_type@,
            lambda_context: self.lambda_context,
            serde_attribute: match self.serde_attribute {
                Some(text) => Some(text@),
                None => None,
            },
        }
    }
}

impl Clone for TypeConversionRule {
    fn clone(&self) -> (copy: Self)
        ensures
            copy@ == self@,
    {
        TypeConversionRule {
            python_pattern: self.python_pattern.clone(),
            rust_type: self.rust_type.clone(),
            lambda_context: self.lambda_context,
            serde_attribute: self.serde_attribute.clone(),
        }
    }
}

/// The rules of `rules`, each as its mathematical value.
pub open spec fn rule_views(rules: Seq<TypeConversionRule>) -> Seq<TypeConversionRuleView> {
    rules.map_values(|rule: TypeConversionRule| rule@)
}

/// The rule with the given parts.
pub open spec fn rule(
    python_pattern: Seq<char>,
    rust_type: Seq<char>,
    lambda_context: LambdaContext,
    serde_attribute: Option<Seq<char>>,
) -> TypeConversionRuleView {
    TypeConversionRuleView { python_pattern, rust_type, lambda_context, serde_attribute }
}

/// The conversion rules, in their fixed order.
pub open spec fn conversion_rules() -> Seq<TypeConversionRuleView> {
    seq![
        rule(
            "dict"@,
            "T: Deserialize"@,
            LambdaContext::EventRoot,
            Some("#[serde(rename_all = \"camelCase\")]"@),
        ),
        rule(
            "str"@,
            "HeaderValue"@,
            LambdaContext::HeaderValue,
            Some("#[serde(with = \"http_serde::header_value\")]"@),
        ),
        rule("int"@, "u16"@, LambdaContext::StatusCode, None),
        rule(
            "float"@,
            "f64"@,
            LambdaContext::Timestamp,
            Some("#[serde(with = \"aws_lambda_events::time::float_unix_epoch\")]"@),
        ),
        rule("List[dict]"@, "Vec<Record>"@, LambdaContext::Records, None),
        rule(
            "Dict[str, str]"@,
            "HashMap<String, String>"@,
            LambdaContext::PathParameters,
            Some("#[serde(default)]"@),
        ),
        rule(
            "Dict[str, List[str]]"@,
            "HashMap<String, Vec<String>>"@,
            LambdaContext::QueryStringParameters,
            Some("#[serde(default)]"@),
        ),
        rule("str"@, "Option<String>"@, LambdaContext::Body, None),
    ]
}

/// A rule for a `dict` at the root of the event.
pub open spec fn is_root_dict_rule(rule: TypeConversionRuleView) -> bool {
    rule.python_pattern == "dict"@ && rule.lambda_context == LambdaContext::EventRoot
}

/// The table of rules is not empty, and it holds one rule for a `dict` at the
/// root of the event and no second one: the first rule, which names an
/// attribute for the serialization.
pub proof fn lemma_one_root_dict_rule()
    ensures
        conversion_rules().len() == 8,
        forall|i: int|
            0 <= i < conversion_rules().len() ==> (is_root_dict_rule(#[trigger] conversion_rules()[i])
                <==> i == 0),
        conversion_rules()[0].serde_attribute is Some,
{
}

/// Makes one rule from its parts.
fn make_rule(
    python_pattern: &str,
    rust_type: &str,
    lambda_context: LambdaContext,
    serde_attribute: Option<&str>,
) -> (made: TypeConversionRule)
    ensures
        made@ == rule(
            python_pattern@,
            rust_type@,
            lambda_context,
            match serde_attribute {
                Some(text) => Some(text@),
                None => None,
            },
        ),
{
    TypeConversionRule {
        python_pattern: python_pattern.to_string(),
        rust_type: rust_type.to_string(),
        lambda_context,
        serde_attribute: match serde_attribute {
            Some(text) => Some(text.to_string()),
            None => None,
        },
    }
}

/// Builds the table of conversion rules.
pub fn type_conversion_rules() -> (rules: Vec<TypeConversionRule>)
    ensures
        rule_views(rules@) == conversion_rules(),
{
    let mut rules: Vec<TypeConversionRule> = Vec::new();
    rules.push(
        make_rule(
            "dict",
            "T: Deserialize",
            LambdaContext::EventRoot,
            Some("#[serde(rename_all = \"camelCase\")]"),
        ),
    );
    rules.push(
        make_rule(
            "str",
            "HeaderValue",
            LambdaContext::HeaderValue,
            Some("#[serde(with = \"http_serde::header_value\")]"),
        ),
    );
    rules.push(make_rule("int", "u16", LambdaContext::StatusCode, None));
    rules.push(
        make_rule(
            "float",
            "f64",
            LambdaContext::Timestamp,
            Some("#[serde(with = \"aws_lambda_events::time::float_unix_epoch\")]"),
        ),
    );
    rules.push(make_rule("List[dict]", "Vec<Record>", LambdaContext::Records, None));
    rules.push(
        make_rule(
            "Dict[str, str]",
            "HashMap<String, String>",
            LambdaContext::PathParameters,
            Some("#[serde(default)]"),
        ),
    );
    rules.push(
        make_rule(
            "Dict[str, List[str]]",
            "HashMap<String, Vec<String>>",
            LambdaContext::QueryStringParameters,
            Some("#[serde(default)]"),
        ),
    );
    rules.push(make_rule("str", "Option<String>", LambdaContext::Body, None));
    assert(rule_views(rules@) =~= conversion_rules());
    rules
}

} // verus!
