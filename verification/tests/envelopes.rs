use std::collections::HashMap;

use hcp::Content;
use hcp::Context;
use hcp::File;
use hcp::Header;
use hcp::Request;
use hcp::Response;
use hcp::TemplateError;

fn text(s: &str) -> Content {
    Content::Text(s.to_string())
}

#[test]
fn mime_types() {
    assert_eq!(File::YAML_MIME_TYPE, "application/yaml+hcf");
    assert_eq!(File::JSON_MIME_TYPE, "application/json+hcf");
    assert_eq!(Request::MIME_TYPE, "application/cbor+hcprequest");
    assert_eq!(Response::MIME_TYPE, "application/cbor+hcpresponse");
}

#[test]
fn file_default_is_empty() {
    let f = File::default();
    assert!(f.content.is_empty());
    assert!(f.extra.is_empty());
}

#[test]
fn request_default_is_empty() {
    let r = Request::default();
    assert!(r.features.is_empty());
    assert!(r.identities.is_empty());
    assert!(r.extra.is_empty());
}

#[test]
fn request_carries_identities_and_extra() {
    let mut r = Request::default();
    r.features.push("feature".to_string());
    r.identities.insert("scope".to_string(), uuid::Uuid::nil());
    r.extra.insert("data".to_string(), serde_json::Value::Null);
    assert_eq!(r.identities.get("scope"), Some(&uuid::Uuid::nil()));
    assert_eq!(r.extra.get("data"), Some(&serde_json::Value::Null));
}

#[test]
fn header_holds_its_fields() {
    let h = Header {
        scopes: vec!["identity".to_string()],
        features: vec!["live".to_string(), "forms".to_string()],
        required: vec![],
    };
    assert_eq!(h.scopes.len(), 1);
    assert_eq!(h.features.len(), 2);
    assert!(h.required.is_empty());
}

#[test]
fn file_template_resolves_each_node_and_keeps_extra() {
    let mut extra = HashMap::new();
    extra.insert("meta".to_string(), serde_json::Value::Bool(true));
    let f = File { content: vec![Content::Ctx("k".to_string()), text("b")], extra };
    let mut ctx = Context::new();
    ctx.insert("k".to_string(), text("a"));
    let out = f.template(&ctx, &Vec::new()).unwrap();
    assert_eq!(out.content, vec![text("a"), text("b")]);
    assert_eq!(out.extra.get("meta"), Some(&serde_json::Value::Bool(true)));
}

#[test]
fn response_template_resolves_each_node_and_keeps_extra() {
    let mut extra = HashMap::new();
    extra.insert("meta".to_string(), serde_json::Value::Null);
    let r = Response {
        content: vec![Content::If(
            "f".to_string(),
            Box::new(text("on")),
            Box::new(text("off")),
        )],
        extra,
    };
    let out = r.template(&Context::new(), &vec!["f".to_string()]).unwrap();
    assert_eq!(out.content, vec![text("on")]);
    assert_eq!(out.extra.get("meta"), Some(&serde_json::Value::Null));
}

#[test]
fn response_template_reports_a_cycle() {
    let r = Response { content: vec![Content::Ctx("a".to_string())], extra: HashMap::new() };
    let mut ctx = Context::new();
    ctx.insert("a".to_string(), Content::Ctx("a".to_string()));
    match r.template(&ctx, &Vec::new()) {
        Err(e) => assert_eq!(e, TemplateError::Cycle),
        Ok(_) => panic!("expected a cycle error"),
    }
}
