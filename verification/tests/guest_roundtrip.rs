use std::sync::Arc;

use data_encoding::{BASE64URL_NOPAD, HEXUPPER};
use sha2::Digest;
use wasmcloud_host::component::ActorComponent;
use wasmcloud_host::config::Runtime;
use wasmcloud_host::dispatch::{BuiltinHandler, EchoHandler, NoopLogging, RandNumbergen};

fn leb(mut n: u64, out: &mut Vec<u8>) {
    loop {
        let b = (n & 0x7f) as u8;
        n >>= 7;
        if n == 0 {
            out.push(b);
            break;
        }
        out.push(b | 0x80);
    }
}

fn custom_section(name: &str, data: &[u8]) -> Vec<u8> {
    let mut body = Vec::new();
    leb(name.len() as u64, &mut body);
    body.extend_from_slice(name.as_bytes());
    body.extend_from_slice(data);
    let mut out = vec![0u8];
    leb(body.len() as u64, &mut out);
    out.extend_from_slice(&body);
    out
}

fn sign(base: &[u8]) -> Vec<u8> {
    let account = nkeys::KeyPair::new_account();
    let module = nkeys::KeyPair::new_module();
    let hash = HEXUPPER.encode(&sha2::Sha256::digest(base));
    let header = r#"{"typ":"jwt","alg":"Ed25519"}"#;
    let claims = format!(
        r#"{{"jti":"tok","iat":1700000000,"iss":"{iss}","sub":"{sub}","wascap":{{"name":"pinger","hash":"{hash}","prov":false}}}}"#,
        iss = account.public_key(),
        sub = module.public_key(),
    );
    let head = BASE64URL_NOPAD.encode(header.as_bytes());
    let body = BASE64URL_NOPAD.encode(claims.as_bytes());
    let signing_input = format!("{head}.{body}");
    let sig = account.sign(signing_input.as_bytes()).unwrap();
    let jwt = format!("{signing_input}.{}", BASE64URL_NOPAD.encode(&sig));
    let mut out = base.to_vec();
    out.extend_from_slice(&custom_section("wasmcloud_jwt", jwt.as_bytes()));
    out
}

// A guest that, on any guest-call, issues one
// host-call("", "wasmcloud:builtin:numbergen", "NumberGen.Random32", none)
// and answers ok(none) when the host call succeeded with a payload, and an
// error string otherwise.
const PINGER: &str = r#"
(component
  (import "host" (instance $host
    (export "host-call" (func
      (param "binding" string)
      (param "namespace" string)
      (param "operation" string)
      (param "payload" (option (list u8)))
      (result (result (option (list u8)) (error string)))))
  ))
  (core module $libc
    (memory (export "memory") 2)
    (global $next (mut i32) (i32.const 8192))
    (func (export "realloc") (param i32 i32 i32 i32) (result i32)
      (local $ret i32)
      global.get $next
      i32.const 7
      i32.add
      i32.const -8
      i32.and
      local.set $ret
      local.get $ret
      local.get 3
      i32.add
      global.set $next
      local.get $ret)
  )
  (core instance $li (instantiate $libc))
  (alias core export $li "memory" (core memory $mem))
  (alias core export $li "realloc" (core func $realloc))
  (core func $hc (canon lower (func $host "host-call")
    (memory $mem) (realloc $realloc)))
  (core module $m
    (import "env" "host-call"
      (func $host_call (param i32 i32 i32 i32 i32 i32 i32 i32 i32 i32)))
    (import "libc" "memory" (memory 2))
    (data (i32.const 64) "wasmcloud:builtin:numbergen")
    (data (i32.const 96) "NumberGen.Random32")
    (data (i32.const 128) "host call failed")
    (func (export "guest-call") (param i32 i32 i32 i32 i32) (result i32)
      ;; host-call("", numbergen, Random32, none) with the return area at 1024
      (call $host_call
        (i32.const 0) (i32.const 0)
        (i32.const 64) (i32.const 27)
        (i32.const 96) (i32.const 18)
        (i32.const 0) (i32.const 0) (i32.const 0)
        (i32.const 1024))
      ;; ok with a present payload: answer ok(none); else: answer error
      (if (i32.and
            (i32.eqz (i32.load8_u (i32.const 1024)))
            (i32.eq (i32.load8_u (i32.const 1028)) (i32.const 1)))
        (then
          (i32.store (i32.const 2048) (i32.const 0))
          (i32.store (i32.const 2052) (i32.const 0)))
        (else
          (i32.store8 (i32.const 2048) (i32.const 1))
          (i32.store (i32.const 2052) (i32.const 128))
          (i32.store (i32.const 2056) (i32.const 16))))
      (i32.const 2048))
  )
  (core instance $mi (instantiate $m
    (with "env" (instance (export "host-call" (func $hc))))
    (with "libc" (instance (export "memory" (memory $mem))))))
  (func $gc
    (param "operation" string)
    (param "payload" (option (list u8)))
    (result (result (option (list u8)) (error string)))
    (canon lift (core func $mi "guest-call")
      (memory $mem) (realloc $realloc)))
  (export "guest-call" (func $gc))
)
"#;

#[test]
fn guest_call_reaches_builtin_numbergen_and_returns_ok() {
    let rt = Runtime::new().expect("runtime builds");
    let wasm = sign(&wat::parse_str(PINGER).expect("component text parses"));
    let handler = Arc::new(BuiltinHandler {
        logging: NoopLogging,
        numbergen: RandNumbergen,
        external: EchoHandler,
    });
    let unit = ActorComponent::new(&rt, handler, &wasm).expect("compiles");
    let mut instance = unit.instantiate().expect("instantiates");
    let r = instance.call(&"ping".to_string(), None).expect("no host fault");
    assert_eq!(r, Ok(None));
}

#[test]
fn each_instantiation_is_an_isolated_context() {
    let rt = Runtime::new().expect("runtime builds");
    let wasm = sign(&wat::parse_str(PINGER).expect("component text parses"));
    let handler = Arc::new(BuiltinHandler {
        logging: NoopLogging,
        numbergen: RandNumbergen,
        external: EchoHandler,
    });
    let unit = ActorComponent::new(&rt, handler, &wasm).expect("compiles");
    for _ in 0..3 {
        let mut instance = unit.instantiate().expect("instantiates");
        let r = instance.call(&"ping".to_string(), None).expect("no host fault");
        assert_eq!(r, Ok(None));
    }
}

#[test]
fn an_expired_execution_deadline_is_a_host_fault() {
    let rt = Runtime::builder().max_execution_time(1).build().expect("runtime builds");
    let wasm = sign(&wat::parse_str(PINGER).expect("component text parses"));
    let handler = Arc::new(BuiltinHandler {
        logging: NoopLogging,
        numbergen: RandNumbergen,
        external: EchoHandler,
    });
    let unit = ActorComponent::new(&rt, handler, &wasm).expect("compiles");
    let mut instance = unit.instantiate().expect("instantiates");
    // the context was created with a one-tick deadline; once the engine's
    // epoch has moved past it, the next guest call must be aborted as a
    // host fault rather than run
    rt.engine.increment_epoch();
    rt.engine.increment_epoch();
    let r = instance.call(&"ping".to_string(), None);
    assert!(r.is_err());
}
