use vstd::prelude::*;

use crate::claims::{Claims, ClaimsView};
use crate::errors::{DispatchError, DispatchErrorView};

verus! {

// The two-tier capability dispatcher.  Built-in capabilities
// (`wasmcloud:builtin:logging`, `wasmcloud:builtin:numbergen`) are served
// in process; every other `(namespace, operation)` pair is forwarded
// verbatim to an injected external handler.  The result distinguishes an
// infrastructure error (outer `Err`: the host could not process the call)
// from a guest-visible application error (inner `Err`).

/// Result of one capability dispatch: infrastructure error, application
/// error, or an optional payload.
pub type DispatchResult = Result<Result<Option<Vec<u8>>, String>, DispatchError>;

/// Mathematical image of [`DispatchResult`].
pub type DispatchResultView = Result<Result<Option<Seq<u8>>, Seq<char>>, DispatchErrorView>;

/// The image of a dispatch result.
pub open spec fn dispatch_view(r: DispatchResult) -> DispatchResultView {
    match r {
        Ok(Ok(p)) => Ok(Ok(p.deep_view())),
        Ok(Err(e)) => Ok(Err(e@)),
        Err(e) => Err(e@),
    }
}

/// The image of a unit-or-error result.
pub open spec fn unit_view(r: Result<(), String>) -> Result<(), Seq<char>> {
    match r {
        Ok(u) => Ok(u),
        Err(e) => Err(e@),
    }
}

/// The image of a string-or-error result.
pub open spec fn str_view(r: Result<String, String>) -> Result<Seq<char>, Seq<char>> {
    match r {
        Ok(v) => Ok(v@),
        Err(e) => Err(e@),
    }
}

/// The image of a number-or-error result.
pub open spec fn u32_view(r: Result<u32, String>) -> Result<u32, Seq<char>> {
    match r {
        Ok(v) => Ok(v),
        Err(e) => Err(e@),
    }
}

/// A log severity recognized by the built-in logging capability.
#[derive(Clone, Copy, Debug, PartialEq, Eq, Structural)]
pub enum LogLevel {
    Debug,
    Info,
    Warn,
    Error,
}

/// The level named by `s`, if `s` is one of the four recognized names.
/// The match is case-sensitive; anything else is rejected.
pub open spec fn level_of(s: Seq<char>) -> Option<LogLevel> {
    if s == "debug"@ {
        Some(LogLevel::Debug)
    } else if s == "info"@ {
        Some(LogLevel::Info)
    } else if s == "warn"@ {
        Some(LogLevel::Warn)
    } else if s == "error"@ {
        Some(LogLevel::Error)
    } else {
        None
    }
}

/// A logging capability provider.
pub trait Logging {
    /// Relation between a log request and any outcome this provider may
    /// return for it.
    spec fn logged(
        &self,
        level: LogLevel,
        claims: ClaimsView,
        text: Seq<char>,
        r: Result<(), Seq<char>>,
    ) -> bool;

    /// Log `text` at debug severity on behalf of the guest.
    fn debug(&self, claims: &Claims, text: String) -> (r: Result<(), String>)
        ensures
            self.logged(LogLevel::Debug, claims@, text@, unit_view(r)),
    ;

    /// Log `text` at info severity on behalf of the guest.
    fn info(&self, claims: &Claims, text: String) -> (r: Result<(), String>)
        ensures
            self.logged(LogLevel::Info, claims@, text@, unit_view(r)),
    ;

    /// Log `text` at warn severity on behalf of the guest.
    fn warn(&self, claims: &Claims, text: String) -> (r: Result<(), String>)
        ensures
            self.logged(LogLevel::Warn, claims@, text@, unit_view(r)),
    ;

    /// Log `text` at error severity on behalf of the guest.
    fn error(&self, claims: &Claims, text: String) -> (r: Result<(), String>)
        ensures
            self.logged(LogLevel::Error, claims@, text@, unit_view(r)),
    ;
}

/// A random-number capability provider.
pub trait Numbergen {
    /// Relation between a GUID request and any outcome.
    spec fn guid_ok(&self, claims: ClaimsView, r: Result<Seq<char>, Seq<char>>) -> bool;

    /// Relation between a ranged request and any outcome.
    spec fn range_ok(
        &self,
        claims: ClaimsView,
        min: u32,
        max: u32,
        r: Result<u32, Seq<char>>,
    ) -> bool;

    /// Relation between a raw 32-bit request and any outcome.
    spec fn r32_ok(&self, claims: ClaimsView, r: Result<u32, Seq<char>>) -> bool;

    /// A fresh GUID in 36-character hyphenated form.
    fn generate_guid(&self, claims: &Claims) -> (r: Result<String, String>)
        ensures
            r matches Ok(g) ==> g@.len() == 36,
            self.guid_ok(claims@, str_view(r)),
    ;

    /// A number in `[min, max]`; both bounds inclusive.
    fn random_in_range(&self, claims: &Claims, min: u32, max: u32) -> (r: Result<u32, String>)
        ensures
            r matches Ok(v) ==> min <= v && v <= max,
            self.range_ok(claims@, min, max, u32_view(r)),
    ;

    /// An unconstrained 32-bit number.
    fn random_32(&self, claims: &Claims) -> (r: Result<u32, String>)
        ensures
            self.r32_ok(claims@, u32_view(r)),
    ;
}

/// A capability handler: the single operation every implementation —
/// builtin composite, external pass-through, or test stub — must offer.
pub trait Handler {
    /// Relation between a capability call and any result this handler may
    /// return for it.
    spec fn handled(
        &self,
        claims: ClaimsView,
        binding: Seq<char>,
        namespace: Seq<char>,
        operation: Seq<char>,
        payload: Option<Seq<u8>>,
        r: DispatchResultView,
    ) -> bool;

    /// Handles one capability invocation.  The outer `Err` is a dispatch
    /// infrastructure error; the inner result is guest-visible.
    fn handle(
        &self,
        claims: &Claims,
        binding: String,
        namespace: String,
        operation: String,
        payload: Option<Vec<u8>>,
    ) -> (r: DispatchResult)
        ensures
            self.handled(
                claims@,
                binding@,
                namespace@,
                operation@,
                payload.deep_view(),
                dispatch_view(r),
            ),
    ;
}

impl Handler for () {
    open spec fn handled(
        &self,
        claims: ClaimsView,
        binding: Seq<char>,
        namespace: Seq<char>,
        operation: Seq<char>,
        payload: Option<Seq<u8>>,
        r: DispatchResultView,
    ) -> bool {
        r == Ok::<Result<Option<Seq<u8>>, Seq<char>>, DispatchErrorView>(
            Err("not supported"@),
        )
    }

    fn handle(
        &self,
        claims: &Claims,
        binding: String,
        namespace: String,
        operation: String,
        payload: Option<Vec<u8>>,
    ) -> (r: DispatchResult) {
        Ok(Err("not supported".to_owned()))
    }
}

/// A test stub: returns the payload back unchanged as the success value,
/// so a caller can observe that a call reached it intact.
pub struct EchoHandler;

impl Handler for EchoHandler {
    open spec fn handled(
        &self,
        claims: ClaimsView,
        binding: Seq<char>,
        namespace: Seq<char>,
        operation: Seq<char>,
        payload: Option<Seq<u8>>,
        r: DispatchResultView,
    ) -> bool {
        r == Ok::<Result<Option<Seq<u8>>, Seq<char>>, DispatchErrorView>(Ok(payload))
    }

    fn handle(
        &self,
        claims: &Claims,
        binding: String,
        namespace: String,
        operation: String,
        payload: Option<Vec<u8>>,
    ) -> (r: DispatchResult) {
        Ok(Ok(payload))
    }
}

/// A logging provider that accepts and discards every entry.
pub struct NoopLogging;

impl Logging for NoopLogging {
    open spec fn logged(
        &self,
        level: LogLevel,
        claims: ClaimsView,
        text: Seq<char>,
        r: Result<(), Seq<char>>,
    ) -> bool {
        r is Ok
    }

    fn debug(&self, claims: &Claims, text: String) -> (r: Result<(), String>) {
        Ok(())
    }

    fn info(&self, claims: &Claims, text: String) -> (r: Result<(), String>) {
        Ok(())
    }

    fn warn(&self, claims: &Claims, text: String) -> (r: Result<(), String>) {
        Ok(())
    }

    fn error(&self, claims: &Claims, text: String) -> (r: Result<(), String>) {
        Ok(())
    }
}

/// Relies on `rand::Rng::gen_range` over `rand::rngs::OsRng`: a uniformly
/// drawn value within the inclusive range.  The range must be non-empty,
/// since the underlying call panics on an empty one.
#[verifier::external_body]
fn os_random_in_range(min: u32, max: u32) -> (r: u32)
    requires
        min <= max,
    ensures
        min <= r <= max,
{
    rand::Rng::gen_range(&mut rand::rngs::OsRng, min..=max)
}

/// Relies on `rand::Rng::gen` over `rand::rngs::OsRng`: some 32-bit
/// value; nothing can be promised of it.
#[verifier::external_body]
fn os_random_u32() -> (r: u32) {
    rand::Rng::gen::<u32>(&mut rand::rngs::OsRng)
}

/// Relies on `uuid::Uuid::new_v4` and its `to_string`: a fresh v4 UUID in
/// hyphenated form, which is always 36 characters.
#[verifier::external_body]
fn new_guid_string() -> (r: String)
    ensures
        r@.len() == 36,
{
    uuid::Uuid::new_v4().to_string()
}

/// The random-number provider backed by the operating system's entropy.
pub struct RandNumbergen;

impl Numbergen for RandNumbergen {
    open spec fn guid_ok(&self, claims: ClaimsView, r: Result<Seq<char>, Seq<char>>) -> bool {
        r is Ok
    }

    open spec fn range_ok(
        &self,
        claims: ClaimsView,
        min: u32,
        max: u32,
        r: Result<u32, Seq<char>>,
    ) -> bool {
        if min <= max {
            r is Ok
        } else {
            r is Err
        }
    }

    open spec fn r32_ok(&self, claims: ClaimsView, r: Result<u32, Seq<char>>) -> bool {
        r is Ok
    }

    fn generate_guid(&self, claims: &Claims) -> (r: Result<String, String>) {
        Ok(new_guid_string())
    }

    fn random_in_range(&self, claims: &Claims, min: u32, max: u32) -> (r: Result<u32, String>) {
        if min > max {
            Err("empty range".to_owned())
        } else {
            Ok(os_random_in_range(min, max))
        }
    }

    fn random_32(&self, claims: &Claims) -> (r: Result<u32, String>) {
        Ok(os_random_u32())
    }
}

/// Fields of a MessagePack-encoded map with string values, in map order,
/// where the payload decodes to one.  Applied by [`decode_str_map`].
pub uninterp spec fn msgpack_str_map_of(p: Seq<u8>) -> Option<Seq<(Seq<char>, Seq<char>)>>;

/// Fields of a MessagePack-encoded map with 32-bit values, in map order,
/// where the payload decodes to one.  Applied by [`decode_u32_map`].
pub uninterp spec fn msgpack_u32_map_of(p: Seq<u8>) -> Option<Seq<(Seq<char>, u32)>>;

/// MessagePack encoding of a string value.  Applied by [`encode_str`].
pub uninterp spec fn msgpack_of_str(s: Seq<char>) -> Seq<u8>;

/// MessagePack encoding of a 32-bit value.  Applied by [`encode_u32`].
pub uninterp spec fn msgpack_of_u32(v: u32) -> Seq<u8>;

/// Relies on `rmp_serde::from_slice` into a string-to-string map: the
/// decoded fields, a function of the payload alone.
#[verifier::external_body]
fn decode_str_map(p: &Vec<u8>) -> (r: Option<Vec<(String, String)>>)
    ensures
        match r {
            Some(m) => msgpack_str_map_of(p@) == Some(m.deep_view()),
            None => msgpack_str_map_of(p@) is None,
        },
{
    let m: std::collections::BTreeMap<String, String> = rmp_serde::from_slice(
        p.as_slice(),
    ).ok()?;
    Some(m.into_iter().collect())
}

/// Relies on `rmp_serde::from_slice` into a string-to-u32 map: the
/// decoded fields, a function of the payload alone.
#[verifier::external_body]
fn decode_u32_map(p: &Vec<u8>) -> (r: Option<Vec<(String, u32)>>)
    ensures
        match r {
            Some(m) => msgpack_u32_map_of(p@) == Some(m.deep_view()),
            None => msgpack_u32_map_of(p@) is None,
        },
{
    let m: std::collections::BTreeMap<String, u32> = rmp_serde::from_slice(p.as_slice()).ok()?;
    Some(m.into_iter().collect())
}

/// Relies on `rmp_serde::to_vec_named` on a string: its MessagePack
/// encoding, a function of the string alone.  Encoding a string into a
/// fresh vector writes the marker and the bytes and cannot fail.
#[verifier::external_body]
fn encode_str(s: &String) -> (r: Vec<u8>)
    ensures
        r@ == msgpack_of_str(s@),
{
    rmp_serde::to_vec_named(s).unwrap()
}

/// Relies on `rmp_serde::to_vec_named` on a `u32`: its MessagePack
/// encoding, a function of the value alone.  Encoding an integer into a
/// fresh vector writes the marker and the bytes and cannot fail.
#[verifier::external_body]
fn encode_u32(v: u32) -> (r: Vec<u8>)
    ensures
        r@ == msgpack_of_u32(v),
{
    rmp_serde::to_vec_named(&v).unwrap()
}

/// The value under the first occurrence of `k` in `fields`, scanning from
/// `i`.
pub open spec fn lookup_from<T>(fields: Seq<(Seq<char>, T)>, k: Seq<char>, i: int) -> Option<T>
    decreases fields.len() - i,
{
    if i < 0 || i >= fields.len() {
        None
    } else if fields[i].0 == k {
        Some(fields[i].1)
    } else {
        lookup_from(fields, k, i + 1)
    }
}

/// The value under the first occurrence of `k` in `fields`.
pub open spec fn field_lookup<T>(fields: Seq<(Seq<char>, T)>, k: Seq<char>) -> Option<T> {
    lookup_from(fields, k, 0)
}

/// Looks up a string field by key.
fn lookup_string(fields: &Vec<(String, String)>, key: &String, i: usize) -> (r: Option<String>)
    requires
        i <= fields@.len(),
    ensures
        match r {
            Some(v) => lookup_from(fields.deep_view(), key@, i as int) == Some(v@),
            None => lookup_from(fields.deep_view(), key@, i as int) is None,
        },
    decreases fields@.len() - i,
{
    if i >= fields.len() {
        return None;
    }
    let pair = &fields[i];
    if pair.0 == *key {
        Some(pair.1.clone())
    } else {
        lookup_string(fields, key, i + 1)
    }
}

/// Looks up a 32-bit field by key.
fn lookup_u32(fields: &Vec<(String, u32)>, key: &String, i: usize) -> (r: Option<u32>)
    requires
        i <= fields@.len(),
    ensures
        r == lookup_from(fields.deep_view(), key@, i as int),
    decreases fields@.len() - i,
{
    if i >= fields.len() {
        return None;
    }
    let pair = &fields[i];
    if pair.0 == *key {
        Some(pair.1)
    } else {
        lookup_u32(fields, key, i + 1)
    }
}

/// The level named by `s`, if recognized.
fn parse_level(s: &String) -> (r: Option<LogLevel>)
    ensures
        r == level_of(s@),
{
    if *s == "debug".to_owned() {
        Some(LogLevel::Debug)
    } else if *s == "info".to_owned() {
        Some(LogLevel::Info)
    } else if *s == "warn".to_owned() {
        Some(LogLevel::Warn)
    } else if *s == "error".to_owned() {
        Some(LogLevel::Error)
    } else {
        None
    }
}

/// Wraps a logging outcome into the dispatch result shape: success
/// carries no payload, a provider failure is a guest-visible error.
pub open spec fn wrap_unit(lr: Result<(), Seq<char>>) -> DispatchResultView {
    match lr {
        Ok(u) => Ok(Ok(None)),
        Err(e) => Ok(Err(e)),
    }
}

/// A handler serving the built-in capabilities in process and forwarding
/// everything else to the injected external handler.
pub struct BuiltinHandler<L, N, H> {
    /// Serves `wasmcloud:builtin:logging`.
    pub logging: L,
    /// Serves `wasmcloud:builtin:numbergen`.
    pub numbergen: N,
    /// Serves every other namespace and operation.
    pub external: H,
}

impl<L: Logging, N: Numbergen, H: Handler> Handler for BuiltinHandler<L, N, H> {
    open spec fn handled(
        &self,
        claims: ClaimsView,
        binding: Seq<char>,
        namespace: Seq<char>,
        operation: Seq<char>,
        payload: Option<Seq<u8>>,
        r: DispatchResultView,
    ) -> bool {
        if namespace == "wasmcloud:builtin:logging"@ && operation == "Logging.WriteLog"@ {
            match payload {
                None => r == Err::<Result<Option<Seq<u8>>, Seq<char>>, DispatchErrorView>(
                    DispatchErrorView::MissingPayload,
                ),
                Some(pl) => match msgpack_str_map_of(pl) {
                    None => r == Err::<Result<Option<Seq<u8>>, Seq<char>>, DispatchErrorView>(
                        DispatchErrorView::InvalidPayload,
                    ),
                    Some(fields) => {
                        let lv = field_lookup(fields, "level"@);
                        let tx = field_lookup(fields, "text"@);
                        if lv is None || tx is None {
                            r == Err::<Result<Option<Seq<u8>>, Seq<char>>, DispatchErrorView>(
                                DispatchErrorView::InvalidPayload,
                            )
                        } else {
                            match level_of(lv.unwrap()) {
                                None => r == Err::<
                                    Result<Option<Seq<u8>>, Seq<char>>,
                                    DispatchErrorView,
                                >(DispatchErrorView::UnsupportedLogLevel),
                                Some(level) => exists|lr: Result<(), Seq<char>>|
                                    self.logging.logged(level, claims, tx.unwrap(), lr) && r
                                        == wrap_unit(lr),
                            }
                        }
                    },
                },
            }
        } else if namespace == "wasmcloud:builtin:numbergen"@ && operation
            == "NumberGen.GenerateGuid"@ {
            ||| exists|g: Seq<char>|
                self.numbergen.guid_ok(claims, Ok(g)) && g.len() == 36 && r == Ok::<
                    Result<Option<Seq<u8>>, Seq<char>>,
                    DispatchErrorView,
                >(Ok(Some(msgpack_of_str(g))))
            ||| exists|e: Seq<char>|
                self.numbergen.guid_ok(claims, Err(e)) && r == Ok::<
                    Result<Option<Seq<u8>>, Seq<char>>,
                    DispatchErrorView,
                >(Err(e))
        } else if namespace == "wasmcloud:builtin:numbergen"@ && operation
            == "NumberGen.RandomInRange"@ {
            match payload {
                None => r == Err::<Result<Option<Seq<u8>>, Seq<char>>, DispatchErrorView>(
                    DispatchErrorView::MissingPayload,
                ),
                Some(pl) => match msgpack_u32_map_of(pl) {
                    None => r == Err::<Result<Option<Seq<u8>>, Seq<char>>, DispatchErrorView>(
                        DispatchErrorView::InvalidPayload,
                    ),
                    Some(fields) => {
                        let mn = field_lookup(fields, "min"@);
                        let mx = field_lookup(fields, "max"@);
                        if mn is None || mx is None {
                            r == Err::<Result<Option<Seq<u8>>, Seq<char>>, DispatchErrorView>(
                                DispatchErrorView::InvalidPayload,
                            )
                        } else {
                            ||| exists|v: u32|
                                self.numbergen.range_ok(claims, mn.unwrap(), mx.unwrap(), Ok(v))
                                    && mn.unwrap() <= v <= mx.unwrap() && r == Ok::<
                                    Result<Option<Seq<u8>>, Seq<char>>,
                                    DispatchErrorView,
                                >(Ok(Some(msgpack_of_u32(v))))
                            ||| exists|e: Seq<char>|
                                self.numbergen.range_ok(claims, mn.unwrap(), mx.unwrap(), Err(e))
                                    && r == Ok::<
                                    Result<Option<Seq<u8>>, Seq<char>>,
                                    DispatchErrorView,
                                >(Err(e))
                        }
                    },
                },
            }
        } else if namespace == "wasmcloud:builtin:numbergen"@ && operation
            == "NumberGen.Random32"@ {
            ||| exists|v: u32|
                self.numbergen.r32_ok(claims, Ok(v)) && r == Ok::<
                    Result<Option<Seq<u8>>, Seq<char>>,
                    DispatchErrorView,
                >(Ok(Some(msgpack_of_u32(v))))
            ||| exists|e: Seq<char>|
                self.numbergen.r32_ok(claims, Err(e)) && r == Ok::<
                    Result<Option<Seq<u8>>, Seq<char>>,
                    DispatchErrorView,
                >(Err(e))
        } else {
            self.external.handled(claims, binding, namespace, operation, payload, r)
        }
    }

    fn handle(
        &self,
        claims: &Claims,
        binding: String,
        namespace: String,
        operation: String,
        payload: Option<Vec<u8>>,
    ) -> (r: DispatchResult) {
        let ns_logging = "wasmcloud:builtin:logging".to_owned();
        let ns_numbergen = "wasmcloud:builtin:numbergen".to_owned();
        if namespace == ns_logging && operation == "Logging.WriteLog".to_owned() {
            let pl = match payload {
                None => {
                    return Err(DispatchError::MissingPayload);
                },
                Some(p) => p,
            };
            proof {
                assert(pl.deep_view() =~= pl@);
            }
            let fields = match decode_str_map(&pl) {
                None => {
                    return Err(DispatchError::InvalidPayload);
                },
                Some(f) => f,
            };
            let lv = match lookup_string(&fields, &"level".to_owned(), 0) {
                None => {
                    return Err(DispatchError::InvalidPayload);
                },
                Some(v) => v,
            };
            let tx = match lookup_string(&fields, &"text".to_owned(), 0) {
                None => {
                    return Err(DispatchError::InvalidPayload);
                },
                Some(v) => v,
            };
            let level = match parse_level(&lv) {
                None => {
                    return Err(DispatchError::UnsupportedLogLevel);
                },
                Some(l) => l,
            };
            let res = match level {
                LogLevel::Debug => self.logging.debug(claims, tx),
                LogLevel::Info => self.logging.info(claims, tx),
                LogLevel::Warn => self.logging.warn(claims, tx),
                LogLevel::Error => self.logging.error(claims, tx),
            };
            let ghost lr = unit_view(res);
            let out: DispatchResult = match res {
                Ok(u) => Ok(Ok(None)),
                Err(e) => Ok(Err(e)),
            };
            proof {
                assert(dispatch_view(out) == wrap_unit(lr));
            }
            out
        } else if namespace == ns_numbergen && operation == "NumberGen.GenerateGuid".to_owned() {
            match self.numbergen.generate_guid(claims) {
                Ok(g) => {
                    let v = encode_str(&g);
                    proof {
                        assert(self.numbergen.guid_ok(claims@, Ok(g@)));
                        assert(v.deep_view() =~= v@);
                    }
                    Ok(Ok(Some(v)))
                },
                Err(e) => {
                    proof {
                        assert(self.numbergen.guid_ok(claims@, Err(e@)));
                    }
                    Ok(Err(e))
                },
            }
        } else if namespace == ns_numbergen && operation == "NumberGen.RandomInRange".to_owned() {
            let pl = match payload {
                None => {
                    return Err(DispatchError::MissingPayload);
                },
                Some(p) => p,
            };
            proof {
                assert(pl.deep_view() =~= pl@);
            }
            let fields = match decode_u32_map(&pl) {
                None => {
                    return Err(DispatchError::InvalidPayload);
                },
                Some(f) => f,
            };
            let mn = match lookup_u32(&fields, &"min".to_owned(), 0) {
                None => {
                    return Err(DispatchError::InvalidPayload);
                },
                Some(v) => v,
            };
            let mx = match lookup_u32(&fields, &"max".to_owned(), 0) {
                None => {
                    return Err(DispatchError::InvalidPayload);
                },
                Some(v) => v,
            };
            match self.numbergen.random_in_range(claims, mn, mx) {
                Ok(v) => {
                    let b = encode_u32(v);
                    proof {
                        assert(self.numbergen.range_ok(claims@, mn, mx, Ok(v)));
                        assert(b.deep_view() =~= b@);
                    }
                    Ok(Ok(Some(b)))
                },
                Err(e) => {
                    proof {
                        assert(self.numbergen.range_ok(claims@, mn, mx, Err(e@)));
                    }
                    Ok(Err(e))
                },
            }
        } else if namespace == ns_numbergen && operation == "NumberGen.Random32".to_owned() {
            match self.numbergen.random_32(claims) {
                Ok(v) => {
                    let b = encode_u32(v);
                    proof {
                        assert(self.numbergen.r32_ok(claims@, Ok(v)));
                        assert(b.deep_view() =~= b@);
                    }
                    Ok(Ok(Some(b)))
                },
                Err(e) => {
                    proof {
                        assert(self.numbergen.r32_ok(claims@, Err(e@)));
                    }
                    Ok(Err(e))
                },
            }
        } else {
            self.external.handle(claims, binding, namespace, operation, payload)
        }
    }
}

/// Dispatch completeness: a call whose `(namespace, operation)` matches
/// no built-in is governed by the external handler's own relation, with
/// the claims, binding, and payload passed through unchanged.
pub proof fn lemma_dispatch_forwards_external<L: Logging, N: Numbergen, H: Handler>(
    d: &BuiltinHandler<L, N, H>,
    claims: ClaimsView,
    binding: Seq<char>,
    namespace: Seq<char>,
    operation: Seq<char>,
    payload: Option<Seq<u8>>,
    r: DispatchResultView,
)
    requires
        d.handled(claims, binding, namespace, operation, payload, r),
        !(namespace == "wasmcloud:builtin:logging"@ && operation == "Logging.WriteLog"@),
        !(namespace == "wasmcloud:builtin:numbergen"@ && (operation == "NumberGen.GenerateGuid"@
            || operation == "NumberGen.RandomInRange"@ || operation == "NumberGen.Random32"@)),
    ensures
        d.external.handled(claims, binding, namespace, operation, payload, r),
{
}

/// A `Logging.WriteLog` call naming the unrecognized level `trace` fails
/// with the unsupported-level infrastructure error: not an application
/// error, and not success.
pub proof fn lemma_trace_level_is_infra_error<L: Logging, N: Numbergen, H: Handler>(
    d: &BuiltinHandler<L, N, H>,
    claims: ClaimsView,
    binding: Seq<char>,
    pl: Seq<u8>,
    fields: Seq<(Seq<char>, Seq<char>)>,
    r: DispatchResultView,
)
    requires
        d.handled(claims, binding, "wasmcloud:builtin:logging"@, "Logging.WriteLog"@, Some(pl), r),
        msgpack_str_map_of(pl) == Some(fields),
        field_lookup(fields, "level"@) == Some("trace"@),
        field_lookup(fields, "text"@) is Some,
    ensures
        r == Err::<Result<Option<Seq<u8>>, Seq<char>>, DispatchErrorView>(
            DispatchErrorView::UnsupportedLogLevel,
        ),
{
    reveal_strlit("trace");
    reveal_strlit("debug");
    reveal_strlit("info");
    reveal_strlit("warn");
    reveal_strlit("error");
    assert("trace"@.len() == 5 && "info"@.len() == 4 && "warn"@.len() == 4);
    assert("trace"@[0] == 't' && "debug"@[0] == 'd' && "error"@[0] == 'e');
    assert("trace"@ != "debug"@);
    assert("trace"@ != "info"@);
    assert("trace"@ != "warn"@);
    assert("trace"@ != "error"@);
}

/// A `Logging.WriteLog` call without a payload fails with the
/// missing-payload infrastructure error; it never reaches a provider.
pub proof fn lemma_missing_payload_is_infra_error<L: Logging, N: Numbergen, H: Handler>(
    d: &BuiltinHandler<L, N, H>,
    claims: ClaimsView,
    binding: Seq<char>,
    r: DispatchResultView,
)
    requires
        d.handled(claims, binding, "wasmcloud:builtin:logging"@, "Logging.WriteLog"@, None, r),
    ensures
        r == Err::<Result<Option<Seq<u8>>, Seq<char>>, DispatchErrorView>(
            DispatchErrorView::MissingPayload,
        ),
{
}

/// With the OS-backed number provider, a `NumberGen.RandomInRange` call
/// whose bounds are both `m` returns exactly the serialized `m`: the
/// sampled value is pinned by the range contract.
pub proof fn lemma_random_in_range_pinned<L: Logging, H: Handler>(
    d: &BuiltinHandler<L, RandNumbergen, H>,
    claims: ClaimsView,
    binding: Seq<char>,
    pl: Seq<u8>,
    fields: Seq<(Seq<char>, u32)>,
    m: u32,
    r: DispatchResultView,
)
    requires
        d.handled(
            claims,
            binding,
            "wasmcloud:builtin:numbergen"@,
            "NumberGen.RandomInRange"@,
            Some(pl),
            r,
        ),
        msgpack_u32_map_of(pl) == Some(fields),
        field_lookup(fields, "min"@) == Some(m),
        field_lookup(fields, "max"@) == Some(m),
    ensures
        r == Ok::<Result<Option<Seq<u8>>, Seq<char>>, DispatchErrorView>(
            Ok(Some(msgpack_of_u32(m))),
        ),
{
    reveal_strlit("wasmcloud:builtin:logging");
    reveal_strlit("wasmcloud:builtin:numbergen");
    reveal_strlit("Logging.WriteLog");
    reveal_strlit("NumberGen.GenerateGuid");
    reveal_strlit("NumberGen.RandomInRange");
    reveal_strlit("NumberGen.Random32");
    assert("wasmcloud:builtin:logging"@.len() == 25);
    assert("wasmcloud:builtin:numbergen"@.len() == 27);
    assert("NumberGen.GenerateGuid"@.len() == 22);
    assert("NumberGen.RandomInRange"@.len() == 23);
    assert("NumberGen.Random32"@.len() == 18);
}

} // verus!
