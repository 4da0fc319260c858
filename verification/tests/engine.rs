use std::sync::Arc;

use data_encoding::{BASE64URL_NOPAD, HEXUPPER};
use sha2::Digest;
use wasmcloud_host::claims::ClaimsError;
use wasmcloud_host::component::ActorComponent;
use wasmcloud_host::config::{
    Runtime, RuntimeBuilder, DEFAULT_MAX_EXECUTION_SECS, MAX_COMPONENTS, MAX_COMPONENT_SIZE,
    MAX_LINEAR_MEMORY,
};
use wasmcloud_host::dispatch::{BuiltinHandler, EchoHandler, NoopLogging, RandNumbergen};
use wasmcloud_host::errors::CompileError;

fn leb(mut n: u64, out: &mut Vec<u8>) {
    loop {
        let b = (n & 0x7f) as u8;
        n >>= 7;
        if n == 0 {
            out.push(b);
            break;
        }
        out.push(b | 0x80);
    }
}

fn custom_section(name: &str, data: &[u8]) -> Vec<u8> {
    let mut body = Vec::new();
    leb(name.len() as u64, &mut body);
    body.extend_from_slice(name.as_bytes());
    body.extend_from_slice(data);
    let mut out = vec![0u8];
    leb(body.len() as u64, &mut out);
    out.extend_from_slice(&body);
    out
}

fn sign(base: &[u8]) -> Vec<u8> {
    let account = nkeys::KeyPair::new_account();
    let module = nkeys::KeyPair::new_module();
    let hash = HEXUPPER.encode(&sha2::Sha256::digest(base));
    let header = r#"{"typ":"jwt","alg":"Ed25519"}"#;
    let claims = format!(
        r#"{{"jti":"tok","iat":1700000000,"iss":"{iss}","sub":"{sub}","wascap":{{"name":"guest","hash":"{hash}","prov":false}}}}"#,
        iss = account.public_key(),
        sub = module.public_key(),
    );
    let head = BASE64URL_NOPAD.encode(header.as_bytes());
    let body = BASE64URL_NOPAD.encode(claims.as_bytes());
    let signing_input = format!("{head}.{body}");
    let sig = account.sign(signing_input.as_bytes()).unwrap();
    let jwt = format!("{signing_input}.{}", BASE64URL_NOPAD.encode(&sig));
    let mut out = base.to_vec();
    out.extend_from_slice(&custom_section("wasmcloud_jwt", jwt.as_bytes()));
    out
}

type TestHandler = BuiltinHandler<NoopLogging, RandNumbergen, EchoHandler>;

fn handler() -> Arc<TestHandler> {
    Arc::new(BuiltinHandler { logging: NoopLogging, numbergen: RandNumbergen, external: EchoHandler })
}

#[test]
fn builder_holds_defaults() {
    let b = Runtime::builder();
    assert_eq!(b.max_components, MAX_COMPONENTS);
    assert_eq!(b.max_component_size, MAX_COMPONENT_SIZE);
    assert_eq!(b.max_linear_memory, MAX_LINEAR_MEMORY);
    assert_eq!(b.max_execution_secs, DEFAULT_MAX_EXECUTION_SECS);
    assert!(!b.force_pooling_allocator);
    assert_eq!(MAX_COMPONENT_SIZE, 50 * 1024 * 1024);
    assert_eq!(MAX_LINEAR_MEMORY, 256 * 1024 * 1024);
    assert_eq!(MAX_COMPONENTS, 10_000);
    assert_eq!(DEFAULT_MAX_EXECUTION_SECS, 600);
}

#[test]
fn execution_time_is_clamped_to_one_second() {
    let b = RuntimeBuilder::new().max_execution_time(0);
    assert_eq!(b.max_execution_secs, 1);
    let b = RuntimeBuilder::new().max_execution_time(30);
    assert_eq!(b.max_execution_secs, 30);
}

#[test]
fn setters_keep_other_bounds() {
    let b = RuntimeBuilder::new().max_components(7).max_linear_memory(1024).max_component_size(
        2048,
    );
    assert_eq!(b.max_components, 7);
    assert_eq!(b.max_linear_memory, 1024);
    assert_eq!(b.max_component_size, 2048);
    assert_eq!(b.max_execution_secs, DEFAULT_MAX_EXECUTION_SECS);
}

#[test]
fn runtime_builds_and_reports_version() {
    let rt = Runtime::new().expect("runtime builds");
    assert_eq!(rt.version(), "0.1.0");
    assert_eq!(rt.max_component_size, MAX_COMPONENT_SIZE);
}

#[test]
fn oversize_module_with_valid_claims_is_rejected() {
    let rt = Runtime::builder().max_component_size(4).build().expect("runtime builds");
    let wasm = sign(&wat::parse_str("(component)").unwrap());
    let r = ActorComponent::new(&rt, handler(), &wasm);
    assert!(matches!(r, Err(CompileError::TooLarge)));
}

#[test]
fn claims_extraction_precedes_the_size_bound() {
    // an oversize module with no claims reports the claims failure:
    // extraction is the first compile step, the size bound the second
    let rt = Runtime::builder().max_component_size(1).build().expect("runtime builds");
    let wasm = vec![0u8; 64];
    let r = ActorComponent::new(&rt, handler(), &wasm);
    assert!(matches!(r, Err(CompileError::InvalidClaims(ClaimsError::Missing))));
}

#[test]
fn unsigned_module_fails_claims_extraction_before_compilation() {
    let rt = Runtime::new().expect("runtime builds");
    // unsigned garbage would also fail code generation; the claims check
    // comes first and names the missing section
    let wasm = vec![0xde, 0xad, 0xbe, 0xef];
    let r = ActorComponent::new(&rt, handler(), &wasm);
    assert!(matches!(r, Err(CompileError::InvalidClaims(ClaimsError::Missing))));
}

#[test]
fn signed_non_component_fails_compilation_after_claims() {
    let rt = Runtime::new().expect("runtime builds");
    // a signed core module has valid claims but is not a component
    let wasm = sign(&wat::parse_str("(module)").unwrap());
    let r = ActorComponent::new(&rt, handler(), &wasm);
    assert!(matches!(r, Err(CompileError::Compilation(_))));
}

#[test]
fn signed_component_compiles_and_instantiates() {
    let rt = Runtime::new().expect("runtime builds");
    let wasm = sign(&wat::parse_str("(component)").unwrap());
    let unit = ActorComponent::new(&rt, handler(), &wasm).expect("compiles");
    assert_eq!(unit.claims().metadata.as_ref().unwrap().name.as_deref(), Some("guest"));
    let mut instance = unit.instantiate().expect("instantiates");
    // the trivial component exports no guest-call: invoking it is a
    // host-side fault, not a panic
    let r = instance.call(&"ping".to_string(), None);
    assert!(r.is_err());
}

#[test]
fn compiling_twice_yields_equal_claims() {
    let rt = Runtime::new().expect("runtime builds");
    let wasm = sign(&wat::parse_str("(component)").unwrap());
    let u1 = ActorComponent::new(&rt, handler(), &wasm).expect("first compile");
    let u2 = ActorComponent::new(&rt, handler(), &wasm).expect("second compile");
    assert_eq!(u1.claims(), u2.claims());
}

#[test]
fn cloning_a_unit_shares_claims_and_still_instantiates() {
    let rt = Runtime::new().expect("runtime builds");
    let wasm = sign(&wat::parse_str("(component)").unwrap());
    let unit = ActorComponent::new(&rt, handler(), &wasm).expect("compiles");
    let copy = unit.clone();
    assert_eq!(unit.claims(), copy.claims());
    copy.instantiate().expect("the clone instantiates without recompiling");
}

#[test]
fn read_buffers_and_compiles() {
    let rt = Runtime::new().expect("runtime builds");
    let wasm = sign(&wat::parse_str("(component)").unwrap());
    let unit = ActorComponent::read(&rt, handler(), wasm).expect("compiles");
    assert_eq!(unit.claims().id, "tok");
}
