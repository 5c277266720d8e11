use schema_registry_core::{
    custom_rule_finding, decimal_string, str_equal, CustomPolicyRule, FieldNamingPolicy, JsonTree,
    PolicyBasedValidationRule, SchemaFormat, SchemaPolicies, Severity, ValidationRule,
};

fn enforcing(convention: &str) -> SchemaPolicies {
    let mut policies = SchemaPolicies::default();
    policies.field_naming = FieldNamingPolicy { convention: convention.to_string(), enforce: true };
    policies
}

fn rule(name: &str, pattern: Option<&str>, mandatory: bool) -> CustomPolicyRule {
    CustomPolicyRule {
        name: name.to_string(),
        description: format!("{} description", name),
        pattern: pattern.map(|p| p.to_string()),
        mandatory,
    }
}

#[test]
fn test_snake_case_validation() {
    let rule = PolicyBasedValidationRule::new(SchemaPolicies::default());
    assert!(rule.matches_naming_convention("user_name", "snake_case"));
    assert!(rule.matches_naming_convention("user_id_123", "snake_case"));
    assert!(!rule.matches_naming_convention("userName", "snake_case"));
    assert!(!rule.matches_naming_convention("UserName", "snake_case"));
}

#[test]
fn test_camel_case_validation() {
    let rule = PolicyBasedValidationRule::new(SchemaPolicies::default());
    assert!(rule.matches_naming_convention("userName", "camelCase"));
    assert!(rule.matches_naming_convention("userId123", "camelCase"));
    assert!(!rule.matches_naming_convention("UserName", "camelCase"));
    assert!(!rule.matches_naming_convention("user_name", "camelCase"));
}

#[test]
fn test_pascal_case_validation() {
    let rule = PolicyBasedValidationRule::new(SchemaPolicies::default());
    assert!(rule.matches_naming_convention("UserName", "PascalCase"));
    assert!(rule.matches_naming_convention("UserId123", "PascalCase"));
    assert!(!rule.matches_naming_convention("userName", "PascalCase"));
    assert!(!rule.matches_naming_convention("user_name", "PascalCase"));
}

#[test]
fn test_policy_rule_creation() {
    let policies = SchemaPolicies::default();
    let rule = PolicyBasedValidationRule::new(policies);
    assert_eq!(rule.name(), "config-manager-policy");
    assert_eq!(rule.severity(), Severity::Warning);
}

#[test]
fn conventions_on_the_named_examples() {
    let rule = PolicyBasedValidationRule::new(SchemaPolicies::default());
    for (name, snake, camel, pascal) in [
        ("user_name", true, false, false),
        ("userName", false, true, false),
        ("UserName", false, false, true),
    ] {
        assert_eq!(rule.matches_naming_convention(name, "snake_case"), snake);
        assert_eq!(rule.matches_naming_convention(name, "camelCase"), camel);
        assert_eq!(rule.matches_naming_convention(name, "PascalCase"), pascal);
        assert!(rule.matches_naming_convention(name, "kebab-case"));
        assert!(rule.matches_naming_convention(name, ""));
    }
}

#[test]
fn convention_edge_cases() {
    let rule = PolicyBasedValidationRule::new(SchemaPolicies::default());
    assert!(rule.matches_naming_convention("", "snake_case"));
    assert!(!rule.matches_naming_convention("", "camelCase"));
    assert!(!rule.matches_naming_convention("", "PascalCase"));
    assert!(!rule.matches_naming_convention("user-name", "camelCase"));
    assert!(!rule.matches_naming_convention("User-Name", "PascalCase"));
    assert!(!rule.matches_naming_convention("user-name", "snake_case"));
    assert!(rule.matches_naming_convention("été_2", "snake_case"));
    assert!(rule.matches_naming_convention("Élan", "PascalCase"));
    assert!(!rule.matches_naming_convention("1abc", "camelCase"));
    assert!(!rule.matches_naming_convention("SNAKE_case", "snake_case"));
}

#[test]
fn naming_finding_for_one_camel_case_key() {
    let rule = PolicyBasedValidationRule::new(enforcing("snake_case"));
    let findings = rule.validate(r#"{"userName": 1}"#, SchemaFormat::JsonSchema).unwrap();
    assert_eq!(findings.len(), 1);
    let f = &findings[0];
    assert_eq!(f.rule_id, "field-naming-policy");
    assert_eq!(f.message, "Field 'userName' does not follow snake_case naming convention");
    assert_eq!(f.location.as_deref(), Some("$.userName"));
    assert_eq!(f.suggestion.as_deref(), Some("Rename field to follow snake_case convention"));
}

#[test]
fn naming_walks_nested_objects_and_arrays() {
    let rule = PolicyBasedValidationRule::new(enforcing("snake_case"));
    let schema = r#"{"items": [{"badKey": 1}, 2, {"ok_key": {"Deep": true}}], "zeta": null}"#;
    let findings = rule.validate_schema(schema, SchemaFormat::JsonSchema);
    let locations: Vec<&str> =
        findings.iter().map(|f| f.location.as_deref().unwrap()).collect();
    assert_eq!(locations, vec!["$.items[0].badKey", "$.items[2].ok_key.Deep"]);
}

#[test]
fn naming_checks_a_key_before_the_keys_beneath_it() {
    let rule = PolicyBasedValidationRule::new(enforcing("camelCase"));
    let findings = rule.validate_schema(r#"{"a_b": {"c_d": 1}}"#, SchemaFormat::JsonSchema);
    let locations: Vec<&str> =
        findings.iter().map(|f| f.location.as_deref().unwrap()).collect();
    assert_eq!(locations, vec!["$.a_b", "$.a_b.c_d"]);
}

#[test]
fn naming_needs_enforcement_json_format_and_parsable_text() {
    let mut lenient = enforcing("snake_case");
    lenient.field_naming.enforce = false;
    let rule = PolicyBasedValidationRule::new(lenient);
    assert!(rule.validate_schema(r#"{"userName": 1}"#, SchemaFormat::JsonSchema).is_empty());

    let rule = PolicyBasedValidationRule::new(enforcing("snake_case"));
    assert!(rule.validate_schema(r#"{"userName": 1}"#, SchemaFormat::Avro).is_empty());
    assert!(rule.validate_schema(r#"{"userName": 1}"#, SchemaFormat::Protobuf).is_empty());
    assert!(rule.validate_schema(r#"{"userName": "#, SchemaFormat::JsonSchema).is_empty());
    assert!(rule.validate_schema("", SchemaFormat::JsonSchema).is_empty());

    let rule = PolicyBasedValidationRule::new(enforcing("whatever"));
    assert!(rule.validate_schema(r#"{"user-Name": 1}"#, SchemaFormat::JsonSchema).is_empty());
}

#[test]
fn walker_on_a_tree_built_by_hand() {
    let rule = PolicyBasedValidationRule::new(SchemaPolicies::default());
    let policy = FieldNamingPolicy { convention: "PascalCase".to_string(), enforce: true };
    let tree = JsonTree::Array(vec![
        JsonTree::Scalar,
        JsonTree::Object(vec![
            ("Good".to_string(), JsonTree::Scalar),
            ("bad".to_string(), JsonTree::Array(vec![JsonTree::Scalar])),
        ]),
    ]);
    let mut errors = Vec::new();
    rule.check_json_field_names(&tree, &policy, &mut errors, "root");
    assert_eq!(errors.len(), 1);
    assert_eq!(errors[0].location.as_deref(), Some("root[1].bad"));
    assert_eq!(errors[0].message, "Field 'bad' does not follow PascalCase naming convention");
}

#[test]
fn custom_rules_report_only_mandatory_mismatches() {
    let mut policies = SchemaPolicies::default();
    policies.custom_rules = vec![
        rule("no-pattern", None, true),
        rule("optional", Some("^never$"), false),
        rule("needs-type", Some(r#""type""#), true),
        rule("needs-id", Some(r#""\$id""#), true),
        rule("broken", Some("(unclosed"), true),
    ];
    let rule_set = PolicyBasedValidationRule::new(policies);
    let findings = rule_set.validate_schema(r#"{"type": "object"}"#, SchemaFormat::JsonSchema);
    assert_eq!(findings.len(), 1);
    assert_eq!(findings[0].rule_id, "custom-policy-needs-id");
    assert_eq!(findings[0].message, "Schema violates policy: needs-id description");
    assert_eq!(findings[0].location, None);
    assert_eq!(
        findings[0].suggestion.as_deref(),
        Some("Review schema against policy requirements")
    );
}

#[test]
fn custom_findings_follow_naming_findings_in_list_order() {
    let mut policies = enforcing("snake_case");
    policies.custom_rules = vec![rule("second", Some("zzz"), true), rule("first", Some("yyy"), true)];
    let rule_set = PolicyBasedValidationRule::new(policies);
    let findings = rule_set.validate_schema(r#"{"badName": 1}"#, SchemaFormat::Avro);
    let ids: Vec<&str> = findings.iter().map(|f| f.rule_id.as_str()).collect();
    assert_eq!(ids, vec!["custom-policy-second", "custom-policy-first"]);

    let findings = rule_set.validate_schema(r#"{"badName": 1}"#, SchemaFormat::JsonSchema);
    let ids: Vec<&str> = findings.iter().map(|f| f.rule_id.as_str()).collect();
    assert_eq!(ids, vec!["field-naming-policy", "custom-policy-second", "custom-policy-first"]);
}

#[test]
fn one_rule_given_its_match_outcome() {
    let mandatory = rule("m", Some("p"), true);
    assert!(custom_rule_finding(&mandatory, Some(false)).is_some());
    assert!(custom_rule_finding(&mandatory, Some(true)).is_none());
    assert!(custom_rule_finding(&mandatory, None).is_none());
    let optional = rule("o", Some("p"), false);
    assert!(custom_rule_finding(&optional, Some(false)).is_none());
    let bare = rule("b", None, true);
    assert!(custom_rule_finding(&bare, Some(false)).is_none());
    let found = custom_rule_finding(&mandatory, Some(false)).unwrap();
    assert_eq!(found.rule_id, "custom-policy-m");
}

#[test]
fn update_policies_replaces_the_rules() {
    let mut rule_set = PolicyBasedValidationRule::new(SchemaPolicies::default());
    assert!(rule_set.validate_schema(r#"{"badName": 1}"#, SchemaFormat::JsonSchema).is_empty());
    rule_set.update_policies(enforcing("snake_case"));
    assert_eq!(rule_set.validate_schema(r#"{"badName": 1}"#, SchemaFormat::JsonSchema).len(), 1);
}

#[test]
fn decimal_and_equality_helpers() {
    assert_eq!(decimal_string(0), "0");
    assert_eq!(decimal_string(7), "7");
    assert_eq!(decimal_string(10), "10");
    assert_eq!(decimal_string(8080), "8080");
    assert_eq!(decimal_string(usize::MAX), usize::MAX.to_string());
    assert!(str_equal("abc", "abc"));
    assert!(!str_equal("abc", "abd"));
    assert!(!str_equal("abc", "ab"));
    assert!(str_equal("", ""));
}
