use launchdarkly_server_sdk::events::context::{contains_name, Attribute, Context};

fn text(s: &str) -> String {
    s.to_string()
}

fn attribute(name: &str, value: &str) -> Attribute {
    Attribute { name: text(name), value: text(value) }
}

fn sample() -> Context {
    let mut context = Context::new(text("user"), text("alice"));
    context.attributes.push(attribute("email", "\"a@example.com\""));
    context.attributes.push(attribute("age", "30"));
    context.attributes.push(attribute("city", "\"Oslo\""));
    context
}

fn pairs(attributes: &[Attribute]) -> Vec<(String, String)> {
    attributes.iter().map(|a| (a.name.clone(), a.value.clone())).collect()
}

#[test]
fn new_context_is_bare() {
    let context = Context::new(text("org"), text("acme"));
    assert_eq!(context.kind, "org");
    assert_eq!(context.key, "acme");
    assert!(!context.anonymous);
    assert!(context.attributes.is_empty());
    assert!(context.private_attributes.is_empty());
}

#[test]
fn private_attribute_is_absent_and_siblings_are_unchanged() {
    let mut context = sample();
    context.private_attributes.push(text("email"));
    let out = context.redact(false, &Vec::new());
    assert_eq!(
        pairs(&out.attributes),
        vec![(text("age"), text("30")), (text("city"), text("\"Oslo\""))]
    );
    assert_eq!(out.redacted_attributes, vec![text("email")]);
    assert_eq!(out.kind, "user");
    assert_eq!(out.key, "alice");
    assert!(!out.anonymous);
    // the caller's context is as it was
    assert_eq!(context.attributes.len(), 3);
    assert_eq!(context.attributes[0].name, "email");
    assert_eq!(context.attributes[0].value, "\"a@example.com\"");
}

#[test]
fn globally_private_attribute_is_absent() {
    let context = sample();
    let out = context.redact(false, &vec![text("city"), text("unknown")]);
    assert_eq!(
        pairs(&out.attributes),
        vec![(text("email"), text("\"a@example.com\"")), (text("age"), text("30"))]
    );
    assert_eq!(out.redacted_attributes, vec![text("city")]);
}

#[test]
fn all_attributes_private_leaves_kind_and_key_only() {
    let mut context = sample();
    context.anonymous = true;
    let out = context.redact(true, &Vec::new());
    assert!(out.attributes.is_empty());
    assert_eq!(out.redacted_attributes, vec![text("email"), text("age"), text("city")]);
    assert_eq!(out.kind, "user");
    assert_eq!(out.key, "alice");
    assert!(out.anonymous);
}

#[test]
fn nothing_private_sends_everything_unchanged() {
    let context = sample();
    let out = context.redact(false, &Vec::new());
    assert_eq!(pairs(&out.attributes), pairs(&context.attributes));
    assert!(out.redacted_attributes.is_empty());
}

#[test]
fn duplicate_holds_the_same_values() {
    let mut context = sample();
    context.private_attributes.push(text("age"));
    context.anonymous = true;
    let copy = context.duplicate();
    assert_eq!(copy.kind, context.kind);
    assert_eq!(copy.key, context.key);
    assert_eq!(copy.anonymous, context.anonymous);
    assert_eq!(pairs(&copy.attributes), pairs(&context.attributes));
    assert_eq!(copy.private_attributes, context.private_attributes);
}

#[test]
fn contains_name_finds_exact_names_only() {
    let names = vec![text("a"), text("bc")];
    assert!(contains_name(&names, &text("a")));
    assert!(contains_name(&names, &text("bc")));
    assert!(!contains_name(&names, &text("b")));
    assert!(!contains_name(&Vec::new(), &text("a")));
}
