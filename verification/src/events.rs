use vstd::prelude::*;
use vstd::string::StringExecFns;

use crate::claims::{Claims, ClaimsView};

verus! {

// Lifecycle events are published on the distributed bus as JSON.  The
// bus, the envelope, and the wire I/O are external collaborators; this
// module supplies the data the events are built from, as a small JSON
// model of plain values that the embedding process serializes.

/// A JSON scalar or flat aggregate carried by an event field.
#[derive(Clone, Debug, PartialEq, Eq)]
pub enum JsonLeaf {
    /// JSON `null`.
    Null,
    /// A boolean.
    Bool(bool),
    /// An unsigned number.
    UInt(u64),
    /// A signed number.
    Int(i64),
    /// A string.
    Str(String),
    /// An array of strings.
    StrArray(Vec<String>),
    /// An object of string values.
    StrMap(Vec<(String, String)>),
}

/// Mathematical image of [`JsonLeaf`].
pub enum JsonLeafView {
    Null,
    Bool(bool),
    UInt(u64),
    Int(i64),
    Str(Seq<char>),
    StrArray(Seq<Seq<char>>),
    StrMap(Seq<(Seq<char>, Seq<char>)>),
}

impl View for JsonLeaf {
    type V = JsonLeafView;

    open spec fn view(&self) -> JsonLeafView {
        match self {
            JsonLeaf::Null => JsonLeafView::Null,
            JsonLeaf::Bool(b) => JsonLeafView::Bool(*b),
            JsonLeaf::UInt(n) => JsonLeafView::UInt(*n),
            JsonLeaf::Int(n) => JsonLeafView::Int(*n),
            JsonLeaf::Str(s) => JsonLeafView::Str(s@),
            JsonLeaf::StrArray(a) => JsonLeafView::StrArray(a.deep_view()),
            JsonLeaf::StrMap(m) => JsonLeafView::StrMap(m.deep_view()),
        }
    }
}

/// An event field value: a leaf, or one nested object of leaves.
#[derive(Clone, Debug, PartialEq, Eq)]
pub enum JsonNode {
    /// A leaf value.
    Leaf(JsonLeaf),
    /// A nested object of leaf values.
    Obj(Vec<(String, JsonLeaf)>),
}

/// Mathematical image of [`JsonNode`].
pub enum JsonNodeView {
    Leaf(JsonLeafView),
    Obj(Seq<(Seq<char>, JsonLeafView)>),
}

/// The image of a nested-object field list.
pub open spec fn obj_fields_view(fields: Seq<(String, JsonLeaf)>) -> Seq<(Seq<char>, JsonLeafView)> {
    Seq::new(fields.len(), |i: int| (fields[i].0@, fields[i].1@))
}

impl View for JsonNode {
    type V = JsonNodeView;

    open spec fn view(&self) -> JsonNodeView {
        match self {
            JsonNode::Leaf(l) => JsonNodeView::Leaf(l@),
            JsonNode::Obj(fields) => JsonNodeView::Obj(obj_fields_view(fields@)),
        }
    }
}

/// An event payload: an object in field order.
#[derive(Clone, Debug, PartialEq, Eq)]
pub struct JsonObject {
    /// The fields, in the order they are emitted.
    pub fields: Vec<(String, JsonNode)>,
}

impl View for JsonObject {
    type V = Seq<(Seq<char>, JsonNodeView)>;

    open spec fn view(&self) -> Seq<(Seq<char>, JsonNodeView)> {
        Seq::new(self.fields@.len(), |i: int| (self.fields@[i].0@, self.fields@[i].1@))
    }
}

/// Copies a list of strings.
fn dup_strings(v: &Vec<String>) -> (r: Vec<String>)
    ensures
        r.deep_view() == v.deep_view(),
{
    let mut out: Vec<String> = Vec::new();
    let mut i: usize = 0;
    while i < v.len()
        invariant
            i <= v@.len(),
            out@.len() == i,
            forall|j: int| 0 <= j < i ==> out@[j] == v@[j],
        decreases v@.len() - i,
    {
        out.push(v[i].clone());
        i = i + 1;
    }
    proof {
        assert(out@ =~= v@);
        assert(out.deep_view() =~= v.deep_view());
    }
    out
}

/// Copies a list of string pairs.
fn dup_pairs(v: &Vec<(String, String)>) -> (r: Vec<(String, String)>)
    ensures
        r.deep_view() == v.deep_view(),
{
    let mut out: Vec<(String, String)> = Vec::new();
    let mut i: usize = 0;
    while i < v.len()
        invariant
            i <= v@.len(),
            out@.len() == i,
            forall|j: int| 0 <= j < i ==> out@[j] == v@[j],
        decreases v@.len() - i,
    {
        let p = &v[i];
        out.push((p.0.clone(), p.1.clone()));
        i = i + 1;
    }
    proof {
        assert(out@ =~= v@);
        assert(out.deep_view() =~= v.deep_view());
    }
    out
}

/// A string leaf from an optional string: `null` when absent.
pub open spec fn leaf_opt_str(o: Option<Seq<char>>) -> JsonLeafView {
    match o {
        Some(s) => JsonLeafView::Str(s),
        None => JsonLeafView::Null,
    }
}

/// An array leaf from an optional string list: `null` when absent.
pub open spec fn leaf_opt_arr(o: Option<Seq<Seq<char>>>) -> JsonLeafView {
    match o {
        Some(a) => JsonLeafView::StrArray(a),
        None => JsonLeafView::Null,
    }
}

/// A number leaf from an optional revision: `null` when absent.
pub open spec fn leaf_opt_int(o: Option<i32>) -> JsonLeafView {
    match o {
        Some(n) => JsonLeafView::Int(n as i64),
        None => JsonLeafView::Null,
    }
}

/// The claims object embedded in actor lifecycle events.  The relative
/// human rendering of the validity window is left to consumers; the two
/// `_human` fields carry the fixed defaults.
pub open spec fn actor_claims_fields(c: ClaimsView) -> Seq<(Seq<char>, JsonLeafView)> {
    match c.metadata {
        Some(m) => seq![
            ("call_alias"@, leaf_opt_str(m.call_alias)),
            ("caps"@, leaf_opt_arr(m.caps)),
            ("issuer"@, JsonLeafView::Str(c.issuer)),
            ("tags"@, leaf_opt_arr(m.tags)),
            ("name"@, leaf_opt_str(m.name)),
            ("version"@, leaf_opt_str(m.ver)),
            ("revision"@, leaf_opt_int(m.rev)),
            ("not_before_human"@, JsonLeafView::Str("immediately"@)),
            ("expires_human"@, JsonLeafView::Str("never"@)),
        ],
        None => seq![
            ("issuer"@, JsonLeafView::Str(c.issuer)),
            ("not_before_human"@, JsonLeafView::Str("immediately"@)),
            ("expires_human"@, JsonLeafView::Str("never"@)),
        ],
    }
}

/// A leaf from an optional string field.
fn opt_str_leaf(o: &Option<String>) -> (r: JsonLeaf)
    ensures
        r@ == leaf_opt_str(o.deep_view()),
{
    match o {
        Some(s) => JsonLeaf::Str(s.clone()),
        None => JsonLeaf::Null,
    }
}

/// An array leaf from an optional string list.
fn opt_arr_leaf(o: &Option<Vec<String>>) -> (r: JsonLeaf)
    ensures
        r@ == leaf_opt_arr(o.deep_view()),
{
    match o {
        Some(a) => JsonLeaf::StrArray(dup_strings(a)),
        None => JsonLeaf::Null,
    }
}

/// A number leaf from an optional revision.
fn opt_int_leaf(o: &Option<i32>) -> (r: JsonLeaf)
    ensures
        r@ == leaf_opt_int(*o),
{
    match o {
        Some(n) => JsonLeaf::Int(*n as i64),
        None => JsonLeaf::Null,
    }
}

/// The claims object of actor lifecycle events, as data.
pub fn format_actor_claims(claims: &Claims) -> (r: Vec<(String, JsonLeaf)>)
    ensures
        obj_fields_view(r@) == actor_claims_fields(claims@),
{
    let mut out: Vec<(String, JsonLeaf)> = Vec::new();
    match &claims.metadata {
        Some(m) => {
            out.push(("call_alias".to_owned(), opt_str_leaf(&m.call_alias)));
            out.push(("caps".to_owned(), opt_arr_leaf(&m.caps)));
            out.push(("issuer".to_owned(), JsonLeaf::Str(claims.issuer.clone())));
            out.push(("tags".to_owned(), opt_arr_leaf(&m.tags)));
            out.push(("name".to_owned(), opt_str_leaf(&m.name)));
            out.push(("version".to_owned(), opt_str_leaf(&m.ver)));
            out.push(("revision".to_owned(), opt_int_leaf(&m.rev)));
            out.push(("not_before_human".to_owned(), JsonLeaf::Str("immediately".to_owned())));
            out.push(("expires_human".to_owned(), JsonLeaf::Str("never".to_owned())));
        },
        None => {
            out.push(("issuer".to_owned(), JsonLeaf::Str(claims.issuer.clone())));
            out.push(("not_before_human".to_owned(), JsonLeaf::Str("immediately".to_owned())));
            out.push(("expires_human".to_owned(), JsonLeaf::Str("never".to_owned())));
        },
    }
    proof {
        assert(obj_fields_view(out@) =~= actor_claims_fields(claims@));
    }
    out
}

/// Data of the `actors_started` event.
pub fn actors_started(
    claims: &Claims,
    annotations: &Vec<(String, String)>,
    host_id: &String,
    count: u64,
    image_ref: &String,
) -> (r: JsonObject)
    ensures
        r@ =~~= seq![
            ("public_key"@, JsonNodeView::Leaf(JsonLeafView::Str(claims@.subject))),
            ("image_ref"@, JsonNodeView::Leaf(JsonLeafView::Str(image_ref@))),
            ("annotations"@, JsonNodeView::Leaf(JsonLeafView::StrMap(annotations.deep_view()))),
            ("host_id"@, JsonNodeView::Leaf(JsonLeafView::Str(host_id@))),
            ("claims"@, JsonNodeView::Obj(actor_claims_fields(claims@))),
            ("count"@, JsonNodeView::Leaf(JsonLeafView::UInt(count))),
        ],
{
    let mut out: Vec<(String, JsonNode)> = Vec::new();
    out.push(("public_key".to_owned(), JsonNode::Leaf(JsonLeaf::Str(claims.subject.clone()))));
    out.push(("image_ref".to_owned(), JsonNode::Leaf(JsonLeaf::Str(image_ref.clone()))));
    out.push(("annotations".to_owned(), JsonNode::Leaf(JsonLeaf::StrMap(dup_pairs(annotations)))));
    out.push(("host_id".to_owned(), JsonNode::Leaf(JsonLeaf::Str(host_id.clone()))));
    out.push(("claims".to_owned(), JsonNode::Obj(format_actor_claims(claims))));
    out.push(("count".to_owned(), JsonNode::Leaf(JsonLeaf::UInt(count))));
    JsonObject { fields: out }
}

/// Data of the `actors_start_failed` event.
pub fn actors_start_failed(
    claims: &Claims,
    annotations: &Vec<(String, String)>,
    host_id: &String,
    image_ref: &String,
    error: &String,
) -> (r: JsonObject)
    ensures
        r@ =~~= seq![
            ("public_key"@, JsonNodeView::Leaf(JsonLeafView::Str(claims@.subject))),
            ("image_ref"@, JsonNodeView::Leaf(JsonLeafView::Str(image_ref@))),
            ("annotations"@, JsonNodeView::Leaf(JsonLeafView::StrMap(annotations.deep_view()))),
            ("host_id"@, JsonNodeView::Leaf(JsonLeafView::Str(host_id@))),
            ("error"@, JsonNodeView::Leaf(JsonLeafView::Str(error@))),
        ],
{
    let mut out: Vec<(String, JsonNode)> = Vec::new();
    out.push(("public_key".to_owned(), JsonNode::Leaf(JsonLeaf::Str(claims.subject.clone()))));
    out.push(("image_ref".to_owned(), JsonNode::Leaf(JsonLeaf::Str(image_ref.clone()))));
    out.push(("annotations".to_owned(), JsonNode::Leaf(JsonLeaf::StrMap(dup_pairs(annotations)))));
    out.push(("host_id".to_owned(), JsonNode::Leaf(JsonLeaf::Str(host_id.clone()))));
    out.push(("error".to_owned(), JsonNode::Leaf(JsonLeaf::Str(error.clone()))));
    JsonObject { fields: out }
}

/// Data of the `actors_stopped` event.  `count` is how many instances
/// stopped and must not be zero; `remaining` is how many remain.
pub fn actors_stopped(
    claims: &Claims,
    annotations: &Vec<(String, String)>,
    host_id: &String,
    count: u64,
    remaining: u64,
    image_ref: &String,
) -> (r: JsonObject)
    requires
        count >= 1,
    ensures
        r@ =~~= seq![
            ("public_key"@, JsonNodeView::Leaf(JsonLeafView::Str(claims@.subject))),
            ("annotations"@, JsonNodeView::Leaf(JsonLeafView::StrMap(annotations.deep_view()))),
            ("host_id"@, JsonNodeView::Leaf(JsonLeafView::Str(host_id@))),
            ("count"@, JsonNodeView::Leaf(JsonLeafView::UInt(count))),
            ("remaining"@, JsonNodeView::Leaf(JsonLeafView::UInt(remaining))),
            ("image_ref"@, JsonNodeView::Leaf(JsonLeafView::Str(image_ref@))),
        ],
{
    let mut out: Vec<(String, JsonNode)> = Vec::new();
    out.push(("public_key".to_owned(), JsonNode::Leaf(JsonLeaf::Str(claims.subject.clone()))));
    out.push(("annotations".to_owned(), JsonNode::Leaf(JsonLeaf::StrMap(dup_pairs(annotations)))));
    out.push(("host_id".to_owned(), JsonNode::Leaf(JsonLeaf::Str(host_id.clone()))));
    out.push(("count".to_owned(), JsonNode::Leaf(JsonLeaf::UInt(count))));
    out.push(("remaining".to_owned(), JsonNode::Leaf(JsonLeaf::UInt(remaining))));
    out.push(("image_ref".to_owned(), JsonNode::Leaf(JsonLeaf::Str(image_ref.clone()))));
    JsonObject { fields: out }
}

/// Data of the `actor_scaled` event.  `max_instances` must not be zero.
pub fn actor_scaled(
    claims: &Claims,
    annotations: &Vec<(String, String)>,
    host_id: &String,
    max_instances: u64,
    image_ref: &String,
) -> (r: JsonObject)
    requires
        max_instances >= 1,
    ensures
        r@ =~~= seq![
            ("public_key"@, JsonNodeView::Leaf(JsonLeafView::Str(claims@.subject))),
            ("claims"@, JsonNodeView::Obj(actor_claims_fields(claims@))),
            ("annotations"@, JsonNodeView::Leaf(JsonLeafView::StrMap(annotations.deep_view()))),
            ("host_id"@, JsonNodeView::Leaf(JsonLeafView::Str(host_id@))),
            ("image_ref"@, JsonNodeView::Leaf(JsonLeafView::Str(image_ref@))),
            ("max_instances"@, JsonNodeView::Leaf(JsonLeafView::UInt(max_instances))),
        ],
{
    let mut out: Vec<(String, JsonNode)> = Vec::new();
    out.push(("public_key".to_owned(), JsonNode::Leaf(JsonLeaf::Str(claims.subject.clone()))));
    out.push(("claims".to_owned(), JsonNode::Obj(format_actor_claims(claims))));
    out.push(("annotations".to_owned(), JsonNode::Leaf(JsonLeaf::StrMap(dup_pairs(annotations)))));
    out.push(("host_id".to_owned(), JsonNode::Leaf(JsonLeaf::Str(host_id.clone()))));
    out.push(("image_ref".to_owned(), JsonNode::Leaf(JsonLeaf::Str(image_ref.clone()))));
    out.push(("max_instances".to_owned(), JsonNode::Leaf(JsonLeaf::UInt(max_instances))));
    JsonObject { fields: out }
}

/// Data of the `actor_scale_failed` event.  `max_instances` must not be
/// zero.
pub fn actor_scale_failed(
    claims: &Claims,
    annotations: &Vec<(String, String)>,
    host_id: &String,
    image_ref: &String,
    max_instances: u64,
    error: &String,
) -> (r: JsonObject)
    requires
        max_instances >= 1,
    ensures
        r@ =~~= seq![
            ("public_key"@, JsonNodeView::Leaf(JsonLeafView::Str(claims@.subject))),
            ("annotations"@, JsonNodeView::Leaf(JsonLeafView::StrMap(annotations.deep_view()))),
            ("host_id"@, JsonNodeView::Leaf(JsonLeafView::Str(host_id@))),
            ("image_ref"@, JsonNodeView::Leaf(JsonLeafView::Str(image_ref@))),
            ("max_instances"@, JsonNodeView::Leaf(JsonLeafView::UInt(max_instances))),
            ("error"@, JsonNodeView::Leaf(JsonLeafView::Str(error@))),
        ],
{
    let mut out: Vec<(String, JsonNode)> = Vec::new();
    out.push(("public_key".to_owned(), JsonNode::Leaf(JsonLeaf::Str(claims.subject.clone()))));
    out.push(("annotations".to_owned(), JsonNode::Leaf(JsonLeaf::StrMap(dup_pairs(annotations)))));
    out.push(("host_id".to_owned(), JsonNode::Leaf(JsonLeaf::Str(host_id.clone()))));
    out.push(("image_ref".to_owned(), JsonNode::Leaf(JsonLeaf::Str(image_ref.clone()))));
    out.push(("max_instances".to_owned(), JsonNode::Leaf(JsonLeaf::UInt(max_instances))));
    out.push(("error".to_owned(), JsonNode::Leaf(JsonLeaf::Str(error.clone()))));
    JsonObject { fields: out }
}

/// Data of the `linkdef_set` event.
pub fn linkdef_set(
    source_id: &String,
    target: &String,
    name: &String,
    wit_namespace: &String,
    wit_package: &String,
    interfaces: &Vec<String>,
    source_config: &Vec<String>,
    target_config: &Vec<String>,
) -> (r: JsonObject)
    ensures
        r@ =~~= seq![
            ("source_id"@, JsonNodeView::Leaf(JsonLeafView::Str(source_id@))),
            ("target"@, JsonNodeView::Leaf(JsonLeafView::Str(target@))),
            ("name"@, JsonNodeView::Leaf(JsonLeafView::Str(name@))),
            ("wit_namespace"@, JsonNodeView::Leaf(JsonLeafView::Str(wit_namespace@))),
            ("wit_package"@, JsonNodeView::Leaf(JsonLeafView::Str(wit_package@))),
            ("interfaces"@, JsonNodeView::Leaf(JsonLeafView::StrArray(interfaces.deep_view()))),
            (
                "source_config"@,
                JsonNodeView::Leaf(JsonLeafView::StrArray(source_config.deep_view())),
            ),
            (
                "target_config"@,
                JsonNodeView::Leaf(JsonLeafView::StrArray(target_config.deep_view())),
            ),
        ],
{
    let mut out: Vec<(String, JsonNode)> = Vec::new();
    out.push(("source_id".to_owned(), JsonNode::Leaf(JsonLeaf::Str(source_id.clone()))));
    out.push(("target".to_owned(), JsonNode::Leaf(JsonLeaf::Str(target.clone()))));
    out.push(("name".to_owned(), JsonNode::Leaf(JsonLeaf::Str(name.clone()))));
    out.push(("wit_namespace".to_owned(), JsonNode::Leaf(JsonLeaf::Str(wit_namespace.clone()))));
    out.push(("wit_package".to_owned(), JsonNode::Leaf(JsonLeaf::Str(wit_package.clone()))));
    out.push(("interfaces".to_owned(), JsonNode::Leaf(JsonLeaf::StrArray(dup_strings(interfaces)))));
    out.push(
        ("source_config".to_owned(), JsonNode::Leaf(JsonLeaf::StrArray(dup_strings(source_config)))),
    );
    out.push(
        ("target_config".to_owned(), JsonNode::Leaf(JsonLeaf::StrArray(dup_strings(target_config)))),
    );
    JsonObject { fields: out }
}

/// Data of the `linkdef_deleted` event.
pub fn linkdef_deleted(
    source_id: &String,
    name: &String,
    wit_namespace: &String,
    wit_package: &String,
) -> (r: JsonObject)
    ensures
        r@ =~~= seq![
            ("source_id"@, JsonNodeView::Leaf(JsonLeafView::Str(source_id@))),
            ("name"@, JsonNodeView::Leaf(JsonLeafView::Str(name@))),
            ("wit_namespace"@, JsonNodeView::Leaf(JsonLeafView::Str(wit_namespace@))),
            ("wit_package"@, JsonNodeView::Leaf(JsonLeafView::Str(wit_package@))),
        ],
{
    let mut out: Vec<(String, JsonNode)> = Vec::new();
    out.push(("source_id".to_owned(), JsonNode::Leaf(JsonLeaf::Str(source_id.clone()))));
    out.push(("name".to_owned(), JsonNode::Leaf(JsonLeaf::Str(name.clone()))));
    out.push(("wit_namespace".to_owned(), JsonNode::Leaf(JsonLeaf::Str(wit_namespace.clone()))));
    out.push(("wit_package".to_owned(), JsonNode::Leaf(JsonLeaf::Str(wit_package.clone()))));
    JsonObject { fields: out }
}

/// The claims of an out-of-process capability provider, as the event
/// data needs them.
#[derive(Clone, Debug, PartialEq, Eq)]
pub struct ProviderClaims {
    /// Public key of the identity that signed the provider.
    pub issuer: String,
    /// Descriptive name.
    pub name: Option<String>,
    /// Human-friendly version string.
    pub ver: Option<String>,
    /// The capability contract the provider serves.
    pub capid: String,
}

/// Mathematical image of [`ProviderClaims`].
pub struct ProviderClaimsView {
    pub issuer: Seq<char>,
    pub name: Option<Seq<char>>,
    pub ver: Option<Seq<char>>,
    pub capid: Seq<char>,
}

impl View for ProviderClaims {
    type V = ProviderClaimsView;

    open spec fn view(&self) -> ProviderClaimsView {
        ProviderClaimsView {
            issuer: self.issuer@,
            name: self.name.deep_view(),
            ver: self.ver.deep_view(),
            capid: self.capid@,
        }
    }
}

/// The claims object embedded in provider lifecycle events.
pub open spec fn provider_claims_fields(c: ProviderClaimsView) -> Seq<(Seq<char>, JsonLeafView)> {
    seq![
        ("issuer"@, JsonLeafView::Str(c.issuer)),
        ("tags"@, JsonLeafView::Null),
        ("name"@, leaf_opt_str(c.name)),
        ("version"@, leaf_opt_str(c.ver)),
        ("not_before_human"@, JsonLeafView::Str("immediately"@)),
        ("expires_human"@, JsonLeafView::Str("never"@)),
    ]
}

/// Data of the `provider_started` event.
pub fn provider_started(
    claims: &ProviderClaims,
    annotations: &Vec<(String, String)>,
    host_id: &String,
    image_ref: &String,
    provider_id: &String,
) -> (r: JsonObject)
    ensures
        r@ =~~= seq![
            ("host_id"@, JsonNodeView::Leaf(JsonLeafView::Str(host_id@))),
            ("image_ref"@, JsonNodeView::Leaf(JsonLeafView::Str(image_ref@))),
            ("provider_id"@, JsonNodeView::Leaf(JsonLeafView::Str(provider_id@))),
            ("annotations"@, JsonNodeView::Leaf(JsonLeafView::StrMap(annotations.deep_view()))),
            ("claims"@, JsonNodeView::Obj(provider_claims_fields(claims@))),
            ("instance_id"@, JsonNodeView::Leaf(JsonLeafView::Str(provider_id@))),
            ("public_key"@, JsonNodeView::Leaf(JsonLeafView::Str(provider_id@))),
            ("link_name"@, JsonNodeView::Leaf(JsonLeafView::Str("default"@))),
            ("contract_id"@, JsonNodeView::Leaf(JsonLeafView::Str(claims@.capid))),
        ],
{
    let mut cl: Vec<(String, JsonLeaf)> = Vec::new();
    cl.push(("issuer".to_owned(), JsonLeaf::Str(claims.issuer.clone())));
    cl.push(("tags".to_owned(), JsonLeaf::Null));
    cl.push(("name".to_owned(), opt_str_leaf(&claims.name)));
    cl.push(("version".to_owned(), opt_str_leaf(&claims.ver)));
    cl.push(("not_before_human".to_owned(), JsonLeaf::Str("immediately".to_owned())));
    cl.push(("expires_human".to_owned(), JsonLeaf::Str("never".to_owned())));
    proof {
        assert(obj_fields_view(cl@) =~= provider_claims_fields(claims@));
    }
    let mut out: Vec<(String, JsonNode)> = Vec::new();
    out.push(("host_id".to_owned(), JsonNode::Leaf(JsonLeaf::Str(host_id.clone()))));
    out.push(("image_ref".to_owned(), JsonNode::Leaf(JsonLeaf::Str(image_ref.clone()))));
    out.push(("provider_id".to_owned(), JsonNode::Leaf(JsonLeaf::Str(provider_id.clone()))));
    out.push(("annotations".to_owned(), JsonNode::Leaf(JsonLeaf::StrMap(dup_pairs(annotations)))));
    out.push(("claims".to_owned(), JsonNode::Obj(cl)));
    out.push(("instance_id".to_owned(), JsonNode::Leaf(JsonLeaf::Str(provider_id.clone()))));
    out.push(("public_key".to_owned(), JsonNode::Leaf(JsonLeaf::Str(provider_id.clone()))));
    out.push(("link_name".to_owned(), JsonNode::Leaf(JsonLeaf::Str("default".to_owned()))));
    out.push(("contract_id".to_owned(), JsonNode::Leaf(JsonLeaf::Str(claims.capid.clone()))));
    JsonObject { fields: out }
}

/// Data of the `provider_start_failed` event.
pub fn provider_start_failed(
    provider_ref: &String,
    provider_id: &String,
    error: &String,
) -> (r: JsonObject)
    ensures
        r@ =~~= seq![
            ("provider_ref"@, JsonNodeView::Leaf(JsonLeafView::Str(provider_ref@))),
            ("provider_id"@, JsonNodeView::Leaf(JsonLeafView::Str(provider_id@))),
            ("error"@, JsonNodeView::Leaf(JsonLeafView::Str(error@))),
            ("link_name"@, JsonNodeView::Leaf(JsonLeafView::Str("default"@))),
        ],
{
    let mut out: Vec<(String, JsonNode)> = Vec::new();
    out.push(("provider_ref".to_owned(), JsonNode::Leaf(JsonLeaf::Str(provider_ref.clone()))));
    out.push(("provider_id".to_owned(), JsonNode::Leaf(JsonLeaf::Str(provider_id.clone()))));
    out.push(("error".to_owned(), JsonNode::Leaf(JsonLeaf::Str(error.clone()))));
    out.push(("link_name".to_owned(), JsonNode::Leaf(JsonLeaf::Str("default".to_owned()))));
    JsonObject { fields: out }
}

/// Data of the `provider_stopped` event.
pub fn provider_stopped(
    claims: &ProviderClaims,
    annotations: &Vec<(String, String)>,
    host_id: &String,
    provider_id: &String,
    reason: &String,
) -> (r: JsonObject)
    ensures
        r@ =~~= seq![
            ("host_id"@, JsonNodeView::Leaf(JsonLeafView::Str(host_id@))),
            ("provider_id"@, JsonNodeView::Leaf(JsonLeafView::Str(provider_id@))),
            ("annotations"@, JsonNodeView::Leaf(JsonLeafView::StrMap(annotations.deep_view()))),
            ("reason"@, JsonNodeView::Leaf(JsonLeafView::Str(reason@))),
            ("instance_id"@, JsonNodeView::Leaf(JsonLeafView::Str(provider_id@))),
            ("public_key"@, JsonNodeView::Leaf(JsonLeafView::Str(provider_id@))),
            ("link_name"@, JsonNodeView::Leaf(JsonLeafView::Str("default"@))),
            ("contract_id"@, JsonNodeView::Leaf(JsonLeafView::Str(claims@.capid))),
        ],
{
    let mut out: Vec<(String, JsonNode)> = Vec::new();
    out.push(("host_id".to_owned(), JsonNode::Leaf(JsonLeaf::Str(host_id.clone()))));
    out.push(("provider_id".to_owned(), JsonNode::Leaf(JsonLeaf::Str(provider_id.clone()))));
    out.push(("annotations".to_owned(), JsonNode::Leaf(JsonLeaf::StrMap(dup_pairs(annotations)))));
    out.push(("reason".to_owned(), JsonNode::Leaf(JsonLeaf::Str(reason.clone()))));
    out.push(("instance_id".to_owned(), JsonNode::Leaf(JsonLeaf::Str(provider_id.clone()))));
    out.push(("public_key".to_owned(), JsonNode::Leaf(JsonLeaf::Str(provider_id.clone()))));
    out.push(("link_name".to_owned(), JsonNode::Leaf(JsonLeaf::Str("default".to_owned()))));
    out.push(("contract_id".to_owned(), JsonNode::Leaf(JsonLeaf::Str(claims.capid.clone()))));
    JsonObject { fields: out }
}

/// Data of the `provider_health_check` event.
pub fn provider_health_check(
    public_key: &String,
    link_name: &String,
    contract_id: &String,
) -> (r: JsonObject)
    ensures
        r@ =~~= seq![
            ("public_key"@, JsonNodeView::Leaf(JsonLeafView::Str(public_key@))),
            ("link_name"@, JsonNodeView::Leaf(JsonLeafView::Str(link_name@))),
            ("contract_id"@, JsonNodeView::Leaf(JsonLeafView::Str(contract_id@))),
        ],
{
    let mut out: Vec<(String, JsonNode)> = Vec::new();
    out.push(("public_key".to_owned(), JsonNode::Leaf(JsonLeaf::Str(public_key.clone()))));
    out.push(("link_name".to_owned(), JsonNode::Leaf(JsonLeaf::Str(link_name.clone()))));
    out.push(("contract_id".to_owned(), JsonNode::Leaf(JsonLeaf::Str(contract_id.clone()))));
    JsonObject { fields: out }
}

/// Data of the `config_set` event.
pub fn config_set(config_name: &String) -> (r: JsonObject)
    ensures
        r@ =~~= seq![("config_name"@, JsonNodeView::Leaf(JsonLeafView::Str(config_name@)))],
{
    let mut out: Vec<(String, JsonNode)> = Vec::new();
    out.push(("config_name".to_owned(), JsonNode::Leaf(JsonLeaf::Str(config_name.clone()))));
    JsonObject { fields: out }
}

/// Data of the `config_deleted` event.
pub fn config_deleted(config_name: &String) -> (r: JsonObject)
    ensures
        r@ =~~= seq![("config_name"@, JsonNodeView::Leaf(JsonLeafView::Str(config_name@)))],
{
    let mut out: Vec<(String, JsonNode)> = Vec::new();
    out.push(("config_name".to_owned(), JsonNode::Leaf(JsonLeaf::Str(config_name.clone()))));
    JsonObject { fields: out }
}

/// The event type published for an event name.
pub fn event_type(name: &String) -> (r: String)
    ensures
        r@ == "com.wasmcloud.lattice."@ + name@,
{
    String::from_str("com.wasmcloud.lattice.").concat(name.as_str())
}

/// The general subject events are published on for a lattice.
pub fn event_subject(lattice: &String) -> (r: String)
    ensures
        r@ == "wasmbus.evt."@ + lattice@,
{
    String::from_str("wasmbus.evt.").concat(lattice.as_str())
}

/// The per-event subject for a lattice and event name.
pub fn event_subject_named(lattice: &String, name: &String) -> (r: String)
    ensures
        r@ == "wasmbus.evt."@ + lattice@ + "."@ + name@,
{
    String::from_str("wasmbus.evt.").concat(lattice.as_str()).concat(".").concat(name.as_str())
}

} // verus!
