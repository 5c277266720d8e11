//! Policy enforcement: field naming conventions and custom pattern rules,
//! checked against schema text.

use crate::config::{CustomPolicyRule, FieldNamingPolicy, SchemaPolicies, SchemaPoliciesView};
use crate::json_tree::{json_tree_of, parse_json_tree, JsonTree};
use crate::text::{decimal, decimal_string, str_equal};
use vstd::prelude::*;

verus! {

// ---------------------------------------------------------------------------
// Character classes
// ---------------------------------------------------------------------------

/// Whether `c` has Unicode's Lowercase property.
pub uninterp spec fn is_lowercase_char(c: char) -> bool;

/// Whether `c` has Unicode's Uppercase property.
pub uninterp spec fn is_uppercase_char(c: char) -> bool;

/// Whether `c` is in one of Unicode's numeric general categories.
pub uninterp spec fn is_numeric_char(c: char) -> bool;

/// Relies on char::is_lowercase.
#[verifier::external_body]
fn char_is_lowercase(c: char) -> (r: bool)
    ensures
        r == is_lowercase_char(c),
{
    c.is_lowercase()
}

/// Relies on char::is_uppercase.
#[verifier::external_body]
fn char_is_uppercase(c: char) -> (r: bool)
    ensures
        r == is_uppercase_char(c),
{
    c.is_uppercase()
}

/// Relies on char::is_numeric.
#[verifier::external_body]
fn char_is_numeric(c: char) -> (r: bool)
    ensures
        r == is_numeric_char(c),
{
    c.is_numeric()
}

// ---------------------------------------------------------------------------
// Naming conventions
// ---------------------------------------------------------------------------

pub open spec fn is_snake_case(name: Seq<char>) -> bool {
    forall|i: int|
        0 <= i < name.len() ==> is_lowercase_char(#[trigger] name[i]) || is_numeric_char(name[i])
            || name[i] == '_'
}

pub open spec fn has_no_separator(name: Seq<char>) -> bool {
    !name.contains('_') && !name.contains('-')
}

pub open spec fn is_camel_case(name: Seq<char>) -> bool {
    name.len() > 0 && is_lowercase_char(name[0]) && has_no_separator(name)
}

pub open spec fn is_pascal_case(name: Seq<char>) -> bool {
    name.len() > 0 && is_uppercase_char(name[0]) && has_no_separator(name)
}

/// Whether a field name follows a convention; a convention other than the
/// three known ones accepts every name.
pub open spec fn follows_convention(name: Seq<char>, convention: Seq<char>) -> bool {
    if convention == "snake_case"@ {
        is_snake_case(name)
    } else if convention == "camelCase"@ {
        is_camel_case(name)
    } else if convention == "PascalCase"@ {
        is_pascal_case(name)
    } else {
        true
    }
}

fn contains_char(s: &str, c: char) -> (r: bool)
    ensures
        r == s@.contains(c),
{
    let n = s.unicode_len();
    let mut i: usize = 0;
    while i < n
        invariant
            n == s@.len(),
            i <= n,
            forall|j: int| 0 <= j < i ==> s@[j] != c,
        decreases n - i,
    {
        if s.get_char(i) == c {
            return true;
        }
        i = i + 1;
    }
    false
}

fn all_snake_chars(s: &str) -> (r: bool)
    ensures
        r == is_snake_case(s@),
{
    let n = s.unicode_len();
    let mut i: usize = 0;
    while i < n
        invariant
            n == s@.len(),
            i <= n,
            forall|j: int|
                0 <= j < i ==> is_lowercase_char(#[trigger] s@[j]) || is_numeric_char(s@[j])
                    || s@[j] == '_',
        decreases n - i,
    {
        let c = s.get_char(i);
        if !(char_is_lowercase(c) || char_is_numeric(c) || c == '_') {
            return false;
        }
        i = i + 1;
    }
    true
}

fn separator_free(s: &str) -> (r: bool)
    ensures
        r == has_no_separator(s@),
{
    !contains_char(s, '_') && !contains_char(s, '-')
}

// ---------------------------------------------------------------------------
// Findings
// ---------------------------------------------------------------------------

/// How severe the findings of a rule are.
#[derive(Debug, Clone, Copy, PartialEq, Eq, Structural)]
pub enum Severity {
    Info,
    Warning,
    Error,
}

/// The format of a schema document.
#[derive(Debug, Clone, Copy, PartialEq, Eq, Structural)]
pub enum SchemaFormat {
    JsonSchema,
    Avro,
    Protobuf,
}

/// One reported policy violation.
#[derive(Debug)]
pub struct ValidationError {
    pub rule_id: String,
    pub message: String,
    /// Where in the document the violation is, as a path from the root `$`.
    pub location: Option<String>,
    /// How the violation may be fixed.
    pub suggestion: Option<String>,
}

pub ghost struct ValidationErrorView {
    pub rule_id: Seq<char>,
    pub message: Seq<char>,
    pub location: Option<Seq<char>>,
    pub suggestion: Option<Seq<char>>,
}

impl View for ValidationError {
    type V = ValidationErrorView;

    open spec fn view(&self) -> ValidationErrorView {
        ValidationErrorView {
            rule_id: self.rule_id@,
            message: self.message@,
            location: match self.location {
                Some(l) => Some(l@),
                None => None,
            },
            suggestion: match self.suggestion {
                Some(s) => Some(s@),
                None => None,
            },
        }
    }
}

pub open spec fn views(v: Seq<ValidationError>) -> Seq<ValidationErrorView> {
    v.map_values(|e: ValidationError| e@)
}

impl ValidationError {
    pub fn new(rule_id: String, message: String) -> (r: Self)
        ensures
            r.rule_id == rule_id,
            r.message == message,
            r.location is None,
            r.suggestion is None,
    {
        ValidationError { rule_id, message, location: None, suggestion: None }
    }

    pub fn with_location(self, location: String) -> (r: Self)
        ensures
            r == (ValidationError { location: Some(location), ..self }),
    {
        ValidationError { location: Some(location), ..self }
    }

    pub fn with_suggestion(self, suggestion: String) -> (r: Self)
        ensures
            r == (ValidationError { suggestion: Some(suggestion), ..self }),
    {
        ValidationError { suggestion: Some(suggestion), ..self }
    }
}

/// The finding for a field whose name breaks the convention.
pub open spec fn naming_violation(key: Seq<char>, convention: Seq<char>, field_path: Seq<char>) -> ValidationErrorView {
    ValidationErrorView {
        rule_id: "field-naming-policy"@,
        message: "Field '"@ + key + "' does not follow "@ + convention + " naming convention"@,
        location: Some(field_path),
        suggestion: Some("Rename field to follow "@ + convention + " convention"@),
    }
}

pub open spec fn field_path(path: Seq<char>, key: Seq<char>) -> Seq<char> {
    path + "."@ + key
}

pub open spec fn item_path(path: Seq<char>, index: nat) -> Seq<char> {
    path + "["@ + decimal(index) + "]"@
}

/// The naming findings of a tree at `path`, in document order: each key is
/// checked before the keys beneath it.
pub open spec fn tree_findings(t: JsonTree, convention: Seq<char>, path: Seq<char>) -> Seq<ValidationErrorView>
    decreases t, 0nat,
{
    match t {
        JsonTree::Object(entries) => object_findings(entries, convention, path, entries.len() as nat),
        JsonTree::Array(items) => array_findings(items, convention, path, items.len() as nat),
        JsonTree::Scalar => Seq::empty(),
    }
}

/// The findings of the first `n` entries of an object at `path`.
pub open spec fn object_findings(
    entries: Vec<(String, JsonTree)>,
    convention: Seq<char>,
    path: Seq<char>,
    n: nat,
) -> Seq<ValidationErrorView>
    decreases entries, n,
{
    if n == 0 || n > entries.len() {
        Seq::empty()
    } else {
        let key = entries[n - 1].0@;
        let own = if follows_convention(key, convention) {
            Seq::empty()
        } else {
            seq![naming_violation(key, convention, field_path(path, key))]
        };
        object_findings(entries, convention, path, (n - 1) as nat) + own + tree_findings(
            entries[n - 1].1,
            convention,
            field_path(path, key),
        )
    }
}

/// The findings of the first `n` items of an array at `path`.
pub open spec fn array_findings(
    items: Vec<JsonTree>,
    convention: Seq<char>,
    path: Seq<char>,
    n: nat,
) -> Seq<ValidationErrorView>
    decreases items, n,
{
    if n == 0 || n > items.len() {
        Seq::empty()
    } else {
        array_findings(items, convention, path, (n - 1) as nat) + tree_findings(
            items[n - 1],
            convention,
            item_path(path, (n - 1) as nat),
        )
    }
}

/// The naming findings for a schema text under the given policies: none
/// unless naming is enforced, the format is JSON Schema and the text parses.
pub open spec fn naming_findings(
    policies: SchemaPoliciesView,
    schema: Seq<char>,
    format: SchemaFormat,
) -> Seq<ValidationErrorView> {
    if policies.field_naming.enforce && format == SchemaFormat::JsonSchema {
        match json_tree_of(schema) {
            Some(t) => tree_findings(t, policies.field_naming.convention@, "$"@),
            None => Seq::empty(),
        }
    } else {
        Seq::empty()
    }
}

/// The finding for a mandatory custom rule that the schema does not satisfy.
pub open spec fn custom_violation(rule: CustomPolicyRule) -> ValidationErrorView {
    ValidationErrorView {
        rule_id: "custom-policy-"@ + rule.name@,
        message: "Schema violates policy: "@ + rule.description@,
        location: None,
        suggestion: Some("Review schema against policy requirements"@),
    }
}

/// Whether `pattern` compiles as a regular expression.
pub uninterp spec fn regex_compiles(pattern: Seq<char>) -> bool;

/// Whether the compiled `pattern` matches somewhere in `text`.
pub uninterp spec fn regex_is_match(pattern: Seq<char>, text: Seq<char>) -> bool;

/// What matching `pattern` against `text` gives: `None` for a malformed
/// pattern, else whether it matches.
pub open spec fn match_outcome(pattern: Seq<char>, text: Seq<char>) -> Option<bool> {
    if regex_compiles(pattern) {
        Some(regex_is_match(pattern, text))
    } else {
        None
    }
}

/// Relies on regex::Regex::new, which compiles `pattern` or fails on a
/// malformed or oversized one, and on regex::Regex::is_match, whether the
/// compiled pattern matches anywhere in `text`.
#[verifier::external_body]
fn pattern_outcome(pattern: &str, text: &str) -> (r: Option<bool>)
    ensures
        r is Some == regex_compiles(pattern@),
        r matches Some(b) ==> b == regex_is_match(pattern@, text@),
{
    match regex::Regex::new(pattern) {
        Ok(re) => Some(re.is_match(text)),
        Err(_) => None,
    }
}

/// The findings of one custom rule, given what matching its pattern gave.
pub open spec fn outcome_findings(rule: CustomPolicyRule, outcome: Option<bool>) -> Seq<ValidationErrorView> {
    if rule.pattern is Some && rule.mandatory && outcome == Some(false) {
        seq![custom_violation(rule)]
    } else {
        Seq::empty()
    }
}

/// The findings of one custom rule against a schema text.
pub open spec fn rule_findings(rule: CustomPolicyRule, text: Seq<char>) -> Seq<ValidationErrorView> {
    match rule.pattern {
        Some(p) => outcome_findings(rule, match_outcome(p@, text)),
        None => Seq::empty(),
    }
}

/// The findings of a list of custom rules, in list order.
pub open spec fn custom_findings(rules: Seq<CustomPolicyRule>, text: Seq<char>) -> Seq<ValidationErrorView>
    decreases rules.len(),
{
    if rules.len() == 0 {
        Seq::empty()
    } else {
        custom_findings(rules.drop_last(), text) + rule_findings(rules.last(), text)
    }
}

/// All findings of the policies for a schema text: naming findings first,
/// then custom-rule findings.
pub open spec fn policy_findings(
    policies: SchemaPoliciesView,
    schema: Seq<char>,
    format: SchemaFormat,
) -> Seq<ValidationErrorView> {
    naming_findings(policies, schema, format) + custom_findings(policies.custom_rules, schema)
}

proof fn lemma_views_push(s: Seq<ValidationError>, e: ValidationError)
    ensures
        views(s.push(e)) == views(s).push(e@),
{
    assert(views(s.push(e)) =~= views(s).push(e@));
}

proof fn lemma_views_concat(a: Seq<ValidationError>, b: Seq<ValidationError>)
    ensures
        views(a + b) == views(a) + views(b),
{
    assert(views(a + b) =~= views(a) + views(b));
}

fn concat3(a: &str, b: &str, c: &str) -> (r: String)
    ensures
        r@ == a@ + b@ + c@,
{
    let mut s = String::from_str(a);
    s.append(b);
    s.append(c);
    s
}

fn naming_error(key: &str, convention: &str, location: String) -> (r: ValidationError)
    ensures
        r@ == naming_violation(key@, convention@, location@),
{
    let mut message = concat3("Field '", key, "' does not follow ");
    message.append(convention);
    message.append(" naming convention");
    let suggestion = concat3("Rename field to follow ", convention, " convention");
    ValidationError::new(String::from_str("field-naming-policy"), message).with_location(
        location,
    ).with_suggestion(suggestion)
}

/// A rule that checks schema documents against the naming and custom
/// policies it holds.
pub struct PolicyBasedValidationRule {
    policies: SchemaPolicies,
}

impl View for PolicyBasedValidationRule {
    type V = SchemaPoliciesView;

    closed spec fn view(&self) -> SchemaPoliciesView {
        self.policies@
    }
}

impl PolicyBasedValidationRule {
    /// Creates a rule that enforces `policies`.
    pub fn new(policies: SchemaPolicies) -> (r: Self)
        ensures
            r@ == policies@,
    {
        PolicyBasedValidationRule { policies }
    }

    /// Replaces the policies, as after a refresh.
    pub fn update_policies(&mut self, policies: SchemaPolicies)
        ensures
            final(self)@ == policies@,
    {
        self.policies = policies;
    }

    /// Whether `field_name` follows `convention`.
    pub fn matches_naming_convention(&self, field_name: &str, convention: &str) -> (r: bool)
        ensures
            r == follows_convention(field_name@, convention@),
    {
        if str_equal(convention, "snake_case") {
            all_snake_chars(field_name)
        } else if str_equal(convention, "camelCase") {
            field_name.unicode_len() > 0 && char_is_lowercase(field_name.get_char(0))
                && separator_free(field_name)
        } else if str_equal(convention, "PascalCase") {
            field_name.unicode_len() > 0 && char_is_uppercase(field_name.get_char(0))
                && separator_free(field_name)
        } else {
            true
        }
    }

    /// Appends to `errors` a finding for every object key beneath `value`
    /// that breaks the policy's convention, in document order, with paths
    /// extending `path`.
    pub fn check_json_field_names(
        &self,
        value: &JsonTree,
        policy: &FieldNamingPolicy,
        errors: &mut Vec<ValidationError>,
        path: &str,
    )
        ensures
            views(final(errors)@) == views(old(errors)@) + tree_findings(
                *value,
                policy.convention@,
                path@,
            ),
        decreases value,
    {
        let ghost start = views(errors@);
        match value {
            JsonTree::Object(entries) => {
                let mut i: usize = 0;
                while i < entries.len()
                    invariant
                        *value == JsonTree::Object(*entries),
                        i <= entries.len(),
                        views(errors@) == start + object_findings(
                            *entries,
                            policy.convention@,
                            path@,
                            i as nat,
                        ),
                    decreases entries.len() - i,
                {
                    let key = &entries[i].0;
                    let location = concat3(path, ".", key.as_str());
                    if !self.matches_naming_convention(key.as_str(), policy.convention.as_str()) {
                        let e = naming_error(key.as_str(), policy.convention.as_str(), location.clone());
                        proof {
                            lemma_views_push(errors@, e);
                        }
                        errors.push(e);
                    }
                    proof {
                        vstd::std_specs::vec::axiom_vec_index_decreases(*entries, i as int);
                        assert(decreases_to!(*value => (*value)->Object_0));
                        assert(decreases_to!(*entries => entries[i as int]));
                        assert(decreases_to!(entries[i as int] => entries[i as int].1));
                    }
                    self.check_json_field_names(&entries[i].1, policy, errors, location.as_str());
                    i = i + 1;
                }
            },
            JsonTree::Array(items) => {
                let mut i: usize = 0;
                while i < items.len()
                    invariant
                        *value == JsonTree::Array(*items),
                        i <= items.len(),
                        views(errors@) == start + array_findings(
                            *items,
                            policy.convention@,
                            path@,
                            i as nat,
                        ),
                    decreases items.len() - i,
                {
                    let index = decimal_string(i);
                    let mut location = concat3(path, "[", index.as_str());
                    location.append("]");
                    proof {
                        vstd::std_specs::vec::axiom_vec_index_decreases(*items, i as int);
                        assert(decreases_to!(*value => (*value)->Array_0));
                        assert(decreases_to!(*items => items[i as int]));
                    }
                    self.check_json_field_names(&items[i], policy, errors, location.as_str());
                    i = i + 1;
                }
            },
            JsonTree::Scalar => {},
        }
        assert(views(errors@) =~= start + tree_findings(*value, policy.convention@, path@));
    }

    /// The naming findings for `schema`: none unless naming is enforced and
    /// the format is JSON Schema; text that does not parse yields none.
    pub fn validate_field_naming(&self, schema: &str, format: SchemaFormat) -> (r: Vec<ValidationError>)
        ensures
            views(r@) == naming_findings(self@, schema@, format),
    {
        let mut errors: Vec<ValidationError> = Vec::new();
        if !self.policies.field_naming.enforce {
            return errors;
        }
        if format == SchemaFormat::JsonSchema {
            if let Some(tree) = parse_json_tree(schema) {
                proof {
                    assert(views(errors@) =~= Seq::<ValidationErrorView>::empty());
                }
                self.check_json_field_names(&tree, &self.policies.field_naming, &mut errors, "$");
                return errors;
            }
        }
        assert(views(errors@) =~= Seq::<ValidationErrorView>::empty());
        errors
    }

    /// The findings of the custom rules for `schema`, in list order.
    pub fn apply_custom_rules(&self, schema: &str) -> (r: Vec<ValidationError>)
        ensures
            views(r@) == custom_findings(self@.custom_rules, schema@),
    {
        let rules = &self.policies.custom_rules;
        let mut errors: Vec<ValidationError> = Vec::new();
        let mut i: usize = 0;
        assert(views(errors@) =~= custom_findings(rules@.take(0), schema@));
        while i < rules.len()
            invariant
                i <= rules.len(),
                views(errors@) == custom_findings(rules@.take(i as int), schema@),
            decreases rules.len() - i,
        {
            let rule = &rules[i];
            assert(rules@.take(i + 1).drop_last() == rules@.take(i as int));
            if let Some(pattern) = &rule.pattern {
                let outcome = pattern_outcome(pattern.as_str(), schema);
                let found = custom_rule_finding(rule, outcome);
                if let Some(e) = found {
                    proof {
                        lemma_views_push(errors@, e);
                    }
                    errors.push(e);
                }
            }
            assert(views(errors@) =~= custom_findings(rules@.take(i + 1), schema@));
            i = i + 1;
        }
        assert(rules@.take(rules.len() as int) == rules@);
        errors
    }

    /// All findings for `schema`: naming findings first, then custom-rule
    /// findings.
    pub fn validate_schema(&self, schema: &str, format: SchemaFormat) -> (r: Vec<ValidationError>)
        ensures
            views(r@) == policy_findings(self@, schema@, format),
    {
        let mut errors = self.validate_field_naming(schema, format);
        let mut custom = self.apply_custom_rules(schema);
        proof {
            lemma_views_concat(errors@, custom@);
        }
        errors.append(&mut custom);
        errors
    }
}

/// The finding of one custom rule, given what matching its pattern against
/// the schema gave (`None` for a malformed pattern, which is skipped).
pub fn custom_rule_finding(rule: &CustomPolicyRule, outcome: Option<bool>) -> (r: Option<ValidationError>)
    ensures
        r is Some == (rule.pattern is Some && rule.mandatory && outcome == Some(false)),
        r matches Some(e) ==> seq![e@] == outcome_findings(*rule, outcome),
        r is None ==> outcome_findings(*rule, outcome).len() == 0,
{
    if rule.pattern.is_some() && rule.mandatory && outcome == Some(false) {
        let mut rule_id = String::from_str("custom-policy-");
        rule_id.append(rule.name.as_str());
        let mut message = String::from_str("Schema violates policy: ");
        message.append(rule.description.as_str());
        let e = ValidationError::new(rule_id, message).with_suggestion(
            String::from_str("Review schema against policy requirements"),
        );
        assert(e@ == custom_violation(*rule));
        Some(e)
    } else {
        None
    }
}

/// A check that the validation pipeline runs against schema documents.
pub trait ValidationRule {
    fn name(&self) -> &str;

    fn severity(&self) -> Severity;

    /// The findings for `schema`, or an error where the rule could not run.
    fn validate(&self, schema: &str, format: SchemaFormat) -> Result<Vec<ValidationError>, String>;
}

impl ValidationRule for PolicyBasedValidationRule {
    fn name(&self) -> (r: &str)
        ensures
            r@ == "config-manager-policy"@,
    {
        "config-manager-policy"
    }

    fn severity(&self) -> (r: Severity)
        ensures
            r == Severity::Warning,
    {
        Severity::Warning
    }

    /// Never fails: a malformed schema text or pattern yields no finding.
    fn validate(&self, schema: &str, format: SchemaFormat) -> (r: Result<Vec<ValidationError>, String>)
        ensures
            r matches Ok(v) && views(v@) == policy_findings(self@, schema@, format),
    {
        Ok(self.validate_schema(schema, format))
    }
}

/// Extension of a validation engine that takes its policies from the
/// configuration authority.
pub trait ValidationEngineExt {
    fn with_config_manager_policies(&mut self, policies: SchemaPolicies) -> &mut Self;
}

// ---------------------------------------------------------------------------
// Laws
// ---------------------------------------------------------------------------

/// Every name follows a convention other than the three known ones, and
/// whether a name follows a convention depends on the name and the
/// convention alone.
pub proof fn lemma_convention_is_pure(
    name1: Seq<char>,
    convention1: Seq<char>,
    name2: Seq<char>,
    convention2: Seq<char>,
)
    requires
        name1 == name2,
        convention1 == convention2,
    ensures
        follows_convention(name1, convention1) == follows_convention(name2, convention2),
        convention1 != "snake_case"@ && convention1 != "camelCase"@ && convention1
            != "PascalCase"@ ==> follows_convention(name1, convention1),
{
}

/// A custom rule without a pattern yields no finding; a rule that is not
/// mandatory yields no finding whatever the match; a mandatory rule whose
/// well-formed pattern does not match the schema text yields exactly one.
pub proof fn lemma_custom_rule_findings(rule: CustomPolicyRule, text: Seq<char>)
    ensures
        rule.pattern is None ==> rule_findings(rule, text).len() == 0,
        !rule.mandatory ==> rule_findings(rule, text).len() == 0,
        rule.mandatory && rule.pattern is Some && regex_compiles(rule.pattern->0@)
            && !regex_is_match(rule.pattern->0@, text) ==> rule_findings(rule, text).len() == 1,
{
}

} // verus!
