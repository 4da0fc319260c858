use wasmcloud_host::claims::{Claims, ClaimsMetadata};
use wasmcloud_host::events::{
    actor_scaled, actors_started, config_set, event_subject, event_subject_named, event_type,
    format_actor_claims, linkdef_deleted, provider_health_check, provider_start_failed,
    JsonLeaf, JsonNode, ProviderClaims, provider_started,
};
use wasmcloud_host::reference::{RefError, ResourceRef};

fn actor_claims() -> Claims {
    Claims {
        issuer: "AISSUER".to_string(),
        subject: "MSUBJECT".to_string(),
        id: "tok".to_string(),
        issued_at: 5,
        not_before: None,
        expires: None,
        metadata: Some(ClaimsMetadata {
            name: Some("guest".to_string()),
            caps: Some(vec!["wasmcloud:builtin:logging".to_string()]),
            tags: None,
            rev: Some(3),
            ver: Some("1.2.3".to_string()),
            call_alias: None,
            provider: false,
            module_hash: "ABCD".to_string(),
        }),
    }
}

fn field<'a>(obj: &'a [(String, JsonNode)], key: &str) -> &'a JsonNode {
    &obj.iter().find(|(k, _)| k == key).expect("field present").1
}

#[test]
fn actors_started_carries_identity_and_count() {
    let c = actor_claims();
    let annotations = vec![("k".to_string(), "v".to_string())];
    let ev = actors_started(&c, &annotations, &"host1".to_string(), 3, &"oci://img".to_string());
    assert_eq!(ev.fields.len(), 6);
    assert_eq!(
        field(&ev.fields, "public_key"),
        &JsonNode::Leaf(JsonLeaf::Str("MSUBJECT".to_string()))
    );
    assert_eq!(field(&ev.fields, "count"), &JsonNode::Leaf(JsonLeaf::UInt(3)));
    assert_eq!(
        field(&ev.fields, "annotations"),
        &JsonNode::Leaf(JsonLeaf::StrMap(annotations.clone()))
    );
    match field(&ev.fields, "claims") {
        JsonNode::Obj(claims_obj) => {
            assert_eq!(
                claims_obj.iter().find(|(k, _)| k == "issuer").unwrap().1,
                JsonLeaf::Str("AISSUER".to_string())
            );
            assert_eq!(claims_obj.iter().find(|(k, _)| k == "tags").unwrap().1, JsonLeaf::Null);
            assert_eq!(
                claims_obj.iter().find(|(k, _)| k == "revision").unwrap().1,
                JsonLeaf::Int(3)
            );
        },
        other => panic!("claims must be an object, got {other:?}"),
    }
}

#[test]
fn claims_without_metadata_format_as_issuer_only() {
    let mut c = actor_claims();
    c.metadata = None;
    let fields = format_actor_claims(&c);
    assert_eq!(fields.len(), 3);
    assert_eq!(fields[0].0, "issuer");
    assert_eq!(fields[0].1, JsonLeaf::Str("AISSUER".to_string()));
}

#[test]
fn actor_scaled_orders_fields_as_published() {
    let c = actor_claims();
    let ev = actor_scaled(&c, &vec![], &"h".to_string(), 10, &"img".to_string());
    let keys: Vec<&str> = ev.fields.iter().map(|(k, _)| k.as_str()).collect();
    assert_eq!(
        keys,
        vec!["public_key", "claims", "annotations", "host_id", "image_ref", "max_instances"]
    );
}

#[test]
fn provider_started_hardcodes_compat_fields() {
    let pc = ProviderClaims {
        issuer: "APROV".to_string(),
        name: Some("kv".to_string()),
        ver: None,
        capid: "wasmcloud:keyvalue".to_string(),
    };
    let ev = provider_started(&pc, &vec![], &"h".to_string(), &"img".to_string(), &"P1".to_string());
    assert_eq!(
        field(&ev.fields, "link_name"),
        &JsonNode::Leaf(JsonLeaf::Str("default".to_string()))
    );
    assert_eq!(
        field(&ev.fields, "contract_id"),
        &JsonNode::Leaf(JsonLeaf::Str("wasmcloud:keyvalue".to_string()))
    );
    assert_eq!(field(&ev.fields, "public_key"), &JsonNode::Leaf(JsonLeaf::Str("P1".to_string())));
}

#[test]
fn small_events_hold_their_single_fields() {
    let ev = config_set(&"appcfg".to_string());
    assert_eq!(ev.fields.len(), 1);
    assert_eq!(ev.fields[0].0, "config_name");
    let ev = provider_health_check(&"PK".to_string(), &"default".to_string(), &"c:i".to_string());
    assert_eq!(ev.fields.len(), 3);
    let ev = provider_start_failed(&"ref".to_string(), &"pid".to_string(), &"boom".to_string());
    assert_eq!(field(&ev.fields, "error"), &JsonNode::Leaf(JsonLeaf::Str("boom".to_string())));
    let ev = linkdef_deleted(&"s".to_string(), &"n".to_string(), &"wasi".to_string(), &"http".to_string());
    assert_eq!(ev.fields.len(), 4);
}

#[test]
fn event_names_compose_subjects() {
    assert_eq!(event_type(&"actor_scaled".to_string()), "com.wasmcloud.lattice.actor_scaled");
    assert_eq!(event_subject(&"default".to_string()), "wasmbus.evt.default");
    assert_eq!(
        event_subject_named(&"default".to_string(), &"actor_scaled".to_string()),
        "wasmbus.evt.default.actor_scaled"
    );
}

#[test]
fn file_url_classifies_to_path() {
    let r = ResourceRef::try_from(&"file:///tmp/guest.wasm".to_string());
    assert_eq!(r, Ok(ResourceRef::File("/tmp/guest.wasm".to_string())));
}

#[test]
fn bindle_reference_keeps_its_id() {
    let r = ResourceRef::try_from(&"bindle://example.com/pkg@1.0".to_string());
    assert_eq!(r, Ok(ResourceRef::Bindle("example.com/pkg@1.0".to_string())));
}

#[test]
fn bare_reference_is_oci() {
    let r = ResourceRef::try_from(&"registry.io/app:v1".to_string());
    assert_eq!(r, Ok(ResourceRef::Oci("registry.io/app:v1".to_string())));
}

#[test]
fn https_scheme_is_unsupported() {
    let r = ResourceRef::try_from(&"https://example.com/x".to_string());
    assert_eq!(r, Err(RefError::UnsupportedScheme("https".to_string())));
}

#[test]
fn unparseable_reference_is_rejected() {
    let r = ResourceRef::try_from(&"http://[".to_string());
    assert!(matches!(r, Err(RefError::Parse(_))));
}
