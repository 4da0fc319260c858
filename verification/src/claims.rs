use vstd::prelude::*;

use crate::wasmbin::{copy_range, jwt_section, jwt_section_of, strip_claims_sections, stripped};
use sha2::Digest;

verus! {

#[verifier::external_type_specification]
#[verifier::external_body]
pub struct ExJsonValue(serde_json::Value);

// A guest module carries its signed claims as a JWT embedded in a custom
// section named `jwt` or `wasmcloud_jwt`.  Extraction scans the module's
// top-level sections, decodes the token, verifies its Ed25519 signature
// against the issuer key, and checks that the module hash recorded in the
// claims matches the hash of the module with the claims sections removed.
// Extraction never executes, links, or instantiates the module.

/// Metadata block of a guest's claims: what the guest says about itself.
#[derive(Clone, Debug, PartialEq, Eq)]
pub struct ClaimsMetadata {
    /// Descriptive name of the guest.
    pub name: Option<String>,
    /// Capabilities the guest declares it will request.
    pub caps: Option<Vec<String>>,
    /// Arbitrary string tags.
    pub tags: Option<Vec<String>>,
    /// Monotonically increasing revision number.
    pub rev: Option<i32>,
    /// Human-friendly version string.
    pub ver: Option<String>,
    /// Code-friendly alias usable instead of the public key.
    pub call_alias: Option<String>,
    /// Whether the module is a capability provider.
    pub provider: bool,
    /// Upper-case hex SHA-256 of the module without its claims sections.
    pub module_hash: String,
}

/// Signed claims extracted from a guest module.
#[derive(Clone, Debug, PartialEq, Eq)]
pub struct Claims {
    /// Public key of the identity that signed the claims.
    pub issuer: String,
    /// The guest's own public identity.
    pub subject: String,
    /// Unique token id.
    pub id: String,
    /// Seconds since the epoch at which the token was issued.
    pub issued_at: u64,
    /// Start of the validity window, if bounded below.
    pub not_before: Option<u64>,
    /// End of the validity window, if bounded above.
    pub expires: Option<u64>,
    /// The metadata block; claims without one are rejected.
    pub metadata: Option<ClaimsMetadata>,
}

/// Mathematical image of [`ClaimsMetadata`].
pub struct ClaimsMetadataView {
    pub name: Option<Seq<char>>,
    pub caps: Option<Seq<Seq<char>>>,
    pub tags: Option<Seq<Seq<char>>>,
    pub rev: Option<i32>,
    pub ver: Option<Seq<char>>,
    pub call_alias: Option<Seq<char>>,
    pub provider: bool,
    pub module_hash: Seq<char>,
}

/// Mathematical image of [`Claims`].
pub struct ClaimsView {
    pub issuer: Seq<char>,
    pub subject: Seq<char>,
    pub id: Seq<char>,
    pub issued_at: u64,
    pub not_before: Option<u64>,
    pub expires: Option<u64>,
    pub metadata: Option<ClaimsMetadataView>,
}

impl View for ClaimsMetadata {
    type V = ClaimsMetadataView;

    open spec fn view(&self) -> ClaimsMetadataView {
        ClaimsMetadataView {
            name: self.name.deep_view(),
            caps: self.caps.deep_view(),
            tags: self.tags.deep_view(),
            rev: self.rev,
            ver: self.ver.deep_view(),
            call_alias: self.call_alias.deep_view(),
            provider: self.provider,
            module_hash: self.module_hash@,
        }
    }
}

impl View for Claims {
    type V = ClaimsView;

    open spec fn view(&self) -> ClaimsView {
        ClaimsView {
            issuer: self.issuer@,
            subject: self.subject@,
            id: self.id@,
            issued_at: self.issued_at,
            not_before: self.not_before,
            expires: self.expires,
            metadata: match self.metadata {
                Some(m) => Some(m@),
                None => None,
            },
        }
    }
}

/// Copies an optional list of strings, keeping its contents.
fn dup_opt_strings(o: &Option<Vec<String>>) -> (r: Option<Vec<String>>)
    ensures
        r.deep_view() == o.deep_view(),
{
    match o {
        None => None,
        Some(v) => {
            let mut out: Vec<String> = Vec::new();
            let mut i: usize = 0;
            while i < v.len()
                invariant
                    i <= v@.len(),
                    out@.len() == i,
                    forall|j: int| 0 <= j < i ==> out@[j] == v@[j],
                decreases v@.len() - i,
            {
                out.push(v[i].clone());
                i = i + 1;
            }
            proof {
                assert(out@ =~= v@);
                assert(out.deep_view() =~= v.deep_view());
            }
            Some(out)
        },
    }
}

/// Copies an optional string, keeping its contents.
fn dup_opt_string(o: &Option<String>) -> (r: Option<String>)
    ensures
        r == *o,
{
    match o {
        None => None,
        Some(s) => Some(s.clone()),
    }
}

impl Claims {
    /// A copy of the claims record with the same mathematical value.
    pub fn duplicate(&self) -> (r: Claims)
        ensures
            r@ == self@,
    {
        let metadata = match &self.metadata {
            None => None,
            Some(m) => Some(
                ClaimsMetadata {
                    name: dup_opt_string(&m.name),
                    caps: dup_opt_strings(&m.caps),
                    tags: dup_opt_strings(&m.tags),
                    rev: m.rev,
                    ver: dup_opt_string(&m.ver),
                    call_alias: dup_opt_string(&m.call_alias),
                    provider: m.provider,
                    module_hash: m.module_hash.clone(),
                },
            ),
        };
        Claims {
            issuer: self.issuer.clone(),
            subject: self.subject.clone(),
            id: self.id.clone(),
            issued_at: self.issued_at,
            not_before: self.not_before,
            expires: self.expires,
            metadata,
        }
    }
}

/// Why claims extraction rejected a module.  All variants surface to the
/// caller as one "invalid guest module" failure; none yields partial claims.
#[derive(Clone, Debug, PartialEq, Eq, Structural)]
pub enum ClaimsError {
    /// No `jwt`/`wasmcloud_jwt` custom section was found (or the module's
    /// section framing is unreadable).
    Missing,
    /// The token or its claims payload did not decode.
    Malformed,
    /// The Ed25519 signature does not verify against the issuer key.
    BadSignature,
    /// The recorded module hash does not match the module bytes.
    HashMismatch,
}

/// Both `d1 < d2` index the only two `.` bytes of `t`.
pub open spec fn is_dot_split(t: Seq<u8>, d1: int, d2: int) -> bool {
    &&& 0 <= d1 < d2 < t.len()
    &&& t[d1] == 46
    &&& t[d2] == 46
    &&& forall|x: int| 0 <= x < t.len() && t[x] == 46 ==> x == d1 || x == d2
}

/// A token split at its two dots: signing input (header and payload with
/// the dot between them), the payload segment, the signature segment.
pub open spec fn jwt_split(t: Seq<u8>) -> Option<(Seq<u8>, Seq<u8>, Seq<u8>)> {
    if exists|d1: int, d2: int| is_dot_split(t, d1, d2) {
        let (d1, d2) = choose|d1: int, d2: int| is_dot_split(t, d1, d2);
        Some(
            (
                t.subrange(0, d2),
                t.subrange(d1 + 1, d2),
                t.subrange(d2 + 1, t.len() as int),
            ),
        )
    } else {
        None
    }
}

/// A token has at most one valid dot split.
pub proof fn lemma_dot_split_unique(t: Seq<u8>, a1: int, a2: int, b1: int, b2: int)
    requires
        is_dot_split(t, a1, a2),
        is_dot_split(t, b1, b2),
    ensures
        a1 == b1 && a2 == b2,
{
    assert(t[a1] == 46 && t[a2] == 46);
    assert(a1 == b1 || a1 == b2);
    assert(a2 == b1 || a2 == b2);
    assert(b1 == a1 || b1 == a2);
    assert(b2 == a1 || b2 == a2);
}

/// Bytes decoded from unpadded URL-safe base64, where the input decodes.
/// Applied by [`b64url_decode`].
pub uninterp spec fn b64url_of(s: Seq<u8>) -> Option<Seq<u8>>;

/// Claims record parsed from the token's JSON payload, where it parses.
/// Applied by [`parse_claims_json`].
pub uninterp spec fn claims_json_of(b: Seq<u8>) -> Option<ClaimsView>;

/// Whether `sig` is a valid Ed25519 signature on `msg` under the public
/// key encoded by `issuer`.  Applied by [`ed25519_valid`].
pub uninterp spec fn sig_valid(issuer: Seq<char>, msg: Seq<u8>, sig: Seq<u8>) -> bool;

/// SHA-256 digest of `b`.  Applied by [`sha256`].
pub uninterp spec fn sha256_of(b: Seq<u8>) -> Seq<u8>;

/// The upper-case hex digit for a nibble.
pub open spec fn hex_digit(n: u8) -> char {
    if n < 10 {
        ((n + 0x30) as char)
    } else {
        ((n + 0x37) as char)
    }
}

/// Upper-case hex rendering of a byte string, two digits per byte.
pub open spec fn hex_chars_of(b: Seq<u8>) -> Seq<char> {
    Seq::new(
        2 * b.len(),
        |i: int| if i % 2 == 0 {
            hex_digit(b[i / 2] / 16)
        } else {
            hex_digit(b[i / 2] % 16)
        },
    )
}

/// What extraction returns on a whole module: the composition of the
/// section scan, the token split, the payload decode, the signature
/// check, and the module-hash check.  A function of the bytes alone.
pub open spec fn extraction_of(w: Seq<u8>) -> Result<ClaimsView, ClaimsError> {
    if stripped(w) is None || jwt_section_of(w) is None {
        Err(ClaimsError::Missing)
    } else {
        let tok = jwt_section_of(w).unwrap();
        match jwt_split(tok) {
            None => Err(ClaimsError::Malformed),
            Some((signing, payload_seg, sig_seg)) => match b64url_of(payload_seg) {
                None => Err(ClaimsError::Malformed),
                Some(payload) => match b64url_of(sig_seg) {
                    None => Err(ClaimsError::Malformed),
                    Some(sig) => match claims_json_of(payload) {
                        None => Err(ClaimsError::Malformed),
                        Some(c) => if c.metadata is None {
                            Err(ClaimsError::Malformed)
                        } else if !sig_valid(c.issuer, signing, sig) {
                            Err(ClaimsError::BadSignature)
                        } else if c.metadata.unwrap().module_hash != hex_chars_of(
                            sha256_of(stripped(w).unwrap()),
                        ) {
                            Err(ClaimsError::HashMismatch)
                        } else {
                            Ok(c)
                        },
                    },
                },
            },
        }
    }
}

/// Positions of the two dots of `t`, when `t` has exactly two.
fn find_dots(t: &Vec<u8>) -> (r: Option<(usize, usize)>)
    ensures
        match r {
            Some(p) => is_dot_split(t@, p.0 as int, p.1 as int),
            None => !exists|d1: int, d2: int| is_dot_split(t@, d1, d2),
        },
{
    let mut count: usize = 0;
    let mut first_dot: usize = 0;
    let mut second_dot: usize = 0;
    let mut third_dot: usize = 0;
    let mut i: usize = 0;
    while i < t.len()
        invariant
            i <= t@.len(),
            count == 0 ==> forall|x: int| 0 <= x < i ==> t@[x] != 46,
            count == 1 ==> first_dot < i && t@[first_dot as int] == 46 && forall|x: int|
                0 <= x < i && x != first_dot ==> t@[x] != 46,
            count == 2 ==> first_dot < second_dot < i && t@[first_dot as int] == 46 && t@[second_dot as int] == 46
                && forall|x: int| 0 <= x < i && x != first_dot && x != second_dot ==> t@[x] != 46,
            count >= 3 ==> first_dot < second_dot < third_dot < i && t@[first_dot as int] == 46 && t@[second_dot as int] == 46
                && t@[third_dot as int] == 46,
        decreases t@.len() - i,
    {
        if t[i] == 46 {
            if count == 0 {
                first_dot = i;
            } else if count == 1 {
                second_dot = i;
            } else if count == 2 {
                third_dot = i;
            }
            if count < 3 {
                count = count + 1;
            }
        }
        i = i + 1;
    }
    if count == 2 {
        Some((first_dot, second_dot))
    } else {
        proof {
            if exists|d1: int, d2: int| is_dot_split(t@, d1, d2) {
                let (d1, d2) = choose|d1: int, d2: int| is_dot_split(t@, d1, d2);
                if count == 0 {
                    assert(t@[d1] != 46);
                } else if count == 1 {
                    assert(d1 == first_dot && d2 == first_dot);
                } else {
                    assert(first_dot == d1 || first_dot == d2);
                    assert(second_dot == d1 || second_dot == d2);
                    assert(third_dot == d1 || third_dot == d2);
                }
            }
        }
        None
    }
}

/// Relies on `data_encoding::BASE64URL_NOPAD.decode`: unpadded URL-safe
/// base64 decoding, a function of the input bytes alone.
#[verifier::external_body]
fn b64url_decode(s: &Vec<u8>) -> (r: Option<Vec<u8>>)
    ensures
        match r {
            Some(v) => b64url_of(s@) == Some(v@),
            None => b64url_of(s@) is None,
        },
{
    match data_encoding::BASE64URL_NOPAD.decode(s.as_slice()) {
        Ok(v) => Some(v),
        Err(_) => None,
    }
}

/// Relies on `serde_json::Value::{get, as_str, as_array}` to read the
/// string-array fields of the metadata block.  Array elements that are
/// not strings are dropped rather than failing the whole record.
#[verifier::external_body]
fn json_str_array(w: &serde_json::Value, key: &str) -> (r: Option<Vec<String>>) {
    let items = w.get(key)?.as_array()?;
    Some(items.iter().filter_map(|e| e.as_str().map(String::from)).collect())
}

/// Relies on `serde_json::Value` field accessors to read the `wascap`
/// metadata block of a decoded claims payload, under the signing
/// tooling's key names (`name`, `caps`, `tags`, `rev`, `ver`,
/// `call_alias`, `prov`, `hash`).  A field of the wrong shape is read as
/// absent; `prov` defaults to false and `hash` to empty, as in the
/// signing tooling's JSON layout.
#[verifier::external_body]
fn parse_meta_value(w: &serde_json::Value) -> (r: ClaimsMetadata) {
    ClaimsMetadata {
        name: w.get("name").and_then(serde_json::Value::as_str).map(String::from),
        caps: json_str_array(w, "caps"),
        tags: json_str_array(w, "tags"),
        rev: w.get("rev").and_then(serde_json::Value::as_i64).map(|x| x as i32),
        ver: w.get("ver").and_then(serde_json::Value::as_str).map(String::from),
        call_alias: w.get("call_alias").and_then(serde_json::Value::as_str).map(String::from),
        provider: w.get("prov").and_then(serde_json::Value::as_bool).unwrap_or(false),
        module_hash: String::from(w.get("hash").and_then(serde_json::Value::as_str).unwrap_or("")),
    }
}

/// Relies on `serde_json::from_slice` to decode the claims payload: the
/// result is a function of the payload bytes alone, so it carries the
/// single name [`claims_json_of`] together with its field helpers.  The
/// `iss` and `sub` fields are required strings; the token id (`jti`)
/// defaults to empty and the issue time (`iat`) to zero when absent, as
/// in the signing tooling's JSON layout.
#[verifier::external_body]
fn parse_claims_json(b: &Vec<u8>) -> (r: Option<Claims>)
    ensures
        match r {
            Some(c) => claims_json_of(b@) == Some(c@),
            None => claims_json_of(b@) is None,
        },
{
    let v: serde_json::Value = serde_json::from_slice(b.as_slice()).ok()?;
    Some(Claims {
        issuer: String::from(v.get("iss")?.as_str()?),
        subject: String::from(v.get("sub")?.as_str()?),
        id: String::from(v.get("jti").and_then(serde_json::Value::as_str).unwrap_or("")),
        issued_at: v.get("iat").and_then(serde_json::Value::as_u64).unwrap_or(0),
        not_before: v.get("nbf").and_then(serde_json::Value::as_u64),
        expires: v.get("exp").and_then(serde_json::Value::as_u64),
        metadata: v.get("wascap").map(parse_meta_value),
    })
}

/// Relies on `nkeys::KeyPair::{from_public_key, verify}`: whether `sig`
/// is a valid Ed25519 signature on `msg` under the `issuer` key, a
/// function of the three arguments alone.  The token and the issuer come
/// from adversarial module bytes, and the underlying calls reject ill
/// shapes by panicking, so both are screened first: an Ed25519 signature
/// is exactly 64 bytes, and an encoded Ed25519 public key is exactly 56
/// base32 characters — nothing of another shape can verify, so `false`
/// is the honest answer for those inputs.
#[verifier::external_body]
fn ed25519_valid(issuer: &String, msg: &Vec<u8>, sig: &Vec<u8>) -> (r: bool)
    ensures
        r == sig_valid(issuer@, msg@, sig@),
{
    if sig.len() != 64 || issuer.len() != 56 {
        return false;
    }
    match nkeys::KeyPair::from_public_key(issuer.as_str()) {
        Ok(kp) => kp.verify(msg.as_slice(), sig.as_slice()).is_ok(),
        Err(_) => false,
    }
}

/// Relies on `sha2::Sha256::digest`: the 32-byte SHA-256 digest of the
/// input, a function of the input alone.
#[verifier::external_body]
fn sha256(b: &Vec<u8>) -> (r: Vec<u8>)
    ensures
        r@ == sha256_of(b@),
        r@.len() == 32,
{
    sha2::Sha256::digest(b.as_slice()).to_vec()
}

/// Relies on `data_encoding::HEXUPPER.encode`: upper-case hex, two digits
/// per byte, exactly [`hex_chars_of`].
#[verifier::external_body]
fn hex_upper(b: &Vec<u8>) -> (r: String)
    ensures
        r@ == hex_chars_of(b@),
{
    data_encoding::HEXUPPER.encode(b.as_slice())
}

/// Extracts and checks the signed claims of a guest module, without
/// executing, linking, or instantiating it.  Returns exactly
/// [`extraction_of`] on the module bytes: the claims record on success,
/// and the error that names the first check that failed otherwise.
pub fn extract_claims(wasm: &Vec<u8>) -> (r: Result<Claims, ClaimsError>)
    ensures
        match r {
            Ok(c) => extraction_of(wasm@) == Ok::<ClaimsView, ClaimsError>(c@),
            Err(e) => extraction_of(wasm@) == Err::<ClaimsView, ClaimsError>(e),
        },
{
    let stripped_bytes = match strip_claims_sections(wasm) {
        None => return Err(ClaimsError::Missing),
        Some(s) => s,
    };
    let tok = match jwt_section(wasm) {
        None => return Err(ClaimsError::Missing),
        Some(t) => t,
    };
    let (d1, d2) = match find_dots(&tok) {
        None => return Err(ClaimsError::Malformed),
        Some(p) => p,
    };
    proof {
        let (c1, c2) = choose|c1: int, c2: int| is_dot_split(tok@, c1, c2);
        lemma_dot_split_unique(tok@, c1, c2, d1 as int, d2 as int);
    }
    let signing = copy_range(&tok, 0, d2);
    let payload_seg = copy_range(&tok, d1 + 1, d2);
    let sig_seg = copy_range(&tok, d2 + 1, tok.len());
    let payload = match b64url_decode(&payload_seg) {
        None => return Err(ClaimsError::Malformed),
        Some(p) => p,
    };
    let sig = match b64url_decode(&sig_seg) {
        None => return Err(ClaimsError::Malformed),
        Some(s) => s,
    };
    let claims = match parse_claims_json(&payload) {
        None => return Err(ClaimsError::Malformed),
        Some(c) => c,
    };
    if claims.metadata.is_none() {
        return Err(ClaimsError::Malformed);
    }
    if !ed25519_valid(&claims.issuer, &signing, &sig) {
        return Err(ClaimsError::BadSignature);
    }
    let digest = sha256(&stripped_bytes);
    let expected = hex_upper(&digest);
    let matches_hash = match &claims.metadata {
        Some(m) => m.module_hash == expected,
        None => false,
    };
    if !matches_hash {
        return Err(ClaimsError::HashMismatch);
    }
    Ok(claims)
}

/// Claims extraction is deterministic: byte-identical modules yield
/// identical outcomes, claims and errors alike.
pub proof fn lemma_extraction_deterministic(w1: Seq<u8>, w2: Seq<u8>)
    requires
        w1 == w2,
    ensures
        extraction_of(w1) == extraction_of(w2),
{
}

/// A module without a claims section never yields claims: extraction
/// fails rather than returning an empty record.
pub proof fn lemma_missing_claims_fail(w: Seq<u8>)
    requires
        jwt_section_of(w) is None,
    ensures
        extraction_of(w) == Err::<ClaimsView, ClaimsError>(ClaimsError::Missing),
{
}

} // verus!

