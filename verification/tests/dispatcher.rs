use std::collections::BTreeMap;

use wasmcloud_host::claims::Claims;
use wasmcloud_host::dispatch::{
    BuiltinHandler, EchoHandler, Handler, NoopLogging, RandNumbergen,
};
use wasmcloud_host::errors::DispatchError;

fn test_claims() -> Claims {
    Claims {
        issuer: "ACCOUNTKEY".to_string(),
        subject: "MODULEKEY".to_string(),
        id: "tok".to_string(),
        issued_at: 0,
        not_before: None,
        expires: None,
        metadata: None,
    }
}

fn builtin() -> BuiltinHandler<NoopLogging, RandNumbergen, EchoHandler> {
    BuiltinHandler { logging: NoopLogging, numbergen: RandNumbergen, external: EchoHandler }
}

fn str_map(entries: &[(&str, &str)]) -> Vec<u8> {
    let m: BTreeMap<String, String> =
        entries.iter().map(|(k, v)| (k.to_string(), v.to_string())).collect();
    rmp_serde::to_vec_named(&m).unwrap()
}

fn u32_map(entries: &[(&str, u32)]) -> Vec<u8> {
    let m: BTreeMap<String, u32> = entries.iter().map(|(k, v)| (k.to_string(), *v)).collect();
    rmp_serde::to_vec_named(&m).unwrap()
}

const NS_LOG: &str = "wasmcloud:builtin:logging";
const NS_NUM: &str = "wasmcloud:builtin:numbergen";

#[test]
fn write_log_succeeds_with_no_payload_back() {
    let d = builtin();
    let payload = str_map(&[("level", "info"), ("text", "hello")]);
    let r = d.handle(
        &test_claims(),
        "".into(),
        NS_LOG.into(),
        "Logging.WriteLog".into(),
        Some(payload),
    );
    assert_eq!(r, Ok(Ok(None)));
}

#[test]
fn write_log_trace_level_is_infrastructure_error() {
    let d = builtin();
    let payload = str_map(&[("level", "trace"), ("text", "hello")]);
    let r = d.handle(
        &test_claims(),
        "".into(),
        NS_LOG.into(),
        "Logging.WriteLog".into(),
        Some(payload),
    );
    assert_eq!(r, Err(DispatchError::UnsupportedLogLevel));
}

#[test]
fn write_log_missing_payload_is_infrastructure_error() {
    let d = builtin();
    let r = d.handle(&test_claims(), "".into(), NS_LOG.into(), "Logging.WriteLog".into(), None);
    assert_eq!(r, Err(DispatchError::MissingPayload));
}

#[test]
fn write_log_undecodable_payload_is_infrastructure_error() {
    let d = builtin();
    let r = d.handle(
        &test_claims(),
        "".into(),
        NS_LOG.into(),
        "Logging.WriteLog".into(),
        Some(vec![0xc1]),
    );
    assert_eq!(r, Err(DispatchError::InvalidPayload));
}

#[test]
fn write_log_without_text_field_is_infrastructure_error() {
    let d = builtin();
    let payload = str_map(&[("level", "info")]);
    let r = d.handle(
        &test_claims(),
        "".into(),
        NS_LOG.into(),
        "Logging.WriteLog".into(),
        Some(payload),
    );
    assert_eq!(r, Err(DispatchError::InvalidPayload));
}

#[test]
fn random_in_range_with_equal_bounds_returns_serialized_bound() {
    let d = builtin();
    let payload = u32_map(&[("min", 5), ("max", 5)]);
    let r = d.handle(
        &test_claims(),
        "".into(),
        NS_NUM.into(),
        "NumberGen.RandomInRange".into(),
        Some(payload),
    );
    let bytes = r.unwrap().unwrap().unwrap();
    let v: u32 = rmp_serde::from_slice(&bytes).unwrap();
    assert_eq!(v, 5);
}

#[test]
fn random_in_range_stays_in_bounds() {
    let d = builtin();
    for _ in 0..32 {
        let payload = u32_map(&[("min", 10), ("max", 20)]);
        let r = d.handle(
            &test_claims(),
            "".into(),
            NS_NUM.into(),
            "NumberGen.RandomInRange".into(),
            Some(payload),
        );
        let bytes = r.unwrap().unwrap().unwrap();
        let v: u32 = rmp_serde::from_slice(&bytes).unwrap();
        assert!((10..=20).contains(&v));
    }
}

#[test]
fn random_in_range_empty_range_is_application_error() {
    let d = builtin();
    let payload = u32_map(&[("min", 9), ("max", 3)]);
    let r = d.handle(
        &test_claims(),
        "".into(),
        NS_NUM.into(),
        "NumberGen.RandomInRange".into(),
        Some(payload),
    );
    match r {
        Ok(Err(_)) => {},
        other => panic!("expected an application error, got {other:?}"),
    }
}

#[test]
fn random_in_range_missing_payload_is_infrastructure_error() {
    let d = builtin();
    let r = d.handle(
        &test_claims(),
        "".into(),
        NS_NUM.into(),
        "NumberGen.RandomInRange".into(),
        None,
    );
    assert_eq!(r, Err(DispatchError::MissingPayload));
}

#[test]
fn random_32_returns_serialized_number() {
    let d = builtin();
    let r = d.handle(&test_claims(), "".into(), NS_NUM.into(), "NumberGen.Random32".into(), None);
    let bytes = r.unwrap().unwrap().unwrap();
    let _: u32 = rmp_serde::from_slice(&bytes).unwrap();
}

#[test]
fn generate_guid_returns_serialized_uuid() {
    let d = builtin();
    let r = d.handle(
        &test_claims(),
        "".into(),
        NS_NUM.into(),
        "NumberGen.GenerateGuid".into(),
        None,
    );
    let bytes = r.unwrap().unwrap().unwrap();
    let s: String = rmp_serde::from_slice(&bytes).unwrap();
    assert_eq!(s.len(), 36);
    uuid::Uuid::parse_str(&s).expect("a parseable UUID");
}

#[test]
fn unknown_namespace_forwards_with_payload_unchanged() {
    let d = builtin();
    let payload = vec![1u8, 2, 3, 4];
    let r = d.handle(
        &test_claims(),
        "default".into(),
        "wasmcloud:keyvalue".into(),
        "KeyValue.Get".into(),
        Some(payload.clone()),
    );
    assert_eq!(r, Ok(Ok(Some(payload))));
}

#[test]
fn builtin_namespace_with_unknown_operation_forwards() {
    let d = builtin();
    let r = d.handle(
        &test_claims(),
        "".into(),
        NS_NUM.into(),
        "NumberGen.Unknown".into(),
        Some(vec![9]),
    );
    assert_eq!(r, Ok(Ok(Some(vec![9]))));
}

#[test]
fn unit_handler_reports_not_supported() {
    let d = BuiltinHandler { logging: NoopLogging, numbergen: RandNumbergen, external: () };
    let r = d.handle(&test_claims(), "".into(), "other:ns".into(), "Op".into(), None);
    assert_eq!(r, Ok(Err("not supported".to_string())));
}

#[test]
fn many_interleaved_calls_stay_independent() {
    let d = builtin();
    for i in 0..50u32 {
        let echo_payload = vec![i as u8, (i + 1) as u8];
        let r = d.handle(
            &test_claims(),
            "b".into(),
            "wasmcloud:test".into(),
            "Test.Op".into(),
            Some(echo_payload.clone()),
        );
        assert_eq!(r, Ok(Ok(Some(echo_payload))));
        let payload = u32_map(&[("min", i), ("max", i)]);
        let r = d.handle(
            &test_claims(),
            "".into(),
            NS_NUM.into(),
            "NumberGen.RandomInRange".into(),
            Some(payload),
        );
        let bytes = r.unwrap().unwrap().unwrap();
        let v: u32 = rmp_serde::from_slice(&bytes).unwrap();
        assert_eq!(v, i);
    }
}

#[test]
fn dispatch_error_messages_name_the_failure() {
    assert_eq!(DispatchError::MissingPayload.message(), "payload cannot be empty");
    assert_eq!(DispatchError::UnsupportedLogLevel.message(), "log level is not supported");
    assert_eq!(DispatchError::External("boom".to_string()).message(), "boom");
}
