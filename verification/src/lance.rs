//! Routing of LanceDB connections to the Curvine object store.

use vstd::prelude::*;
use crate::text::{chars_of, has_prefix, push_str, str_starts_with, string_of};

verus! {

/// The URI scheme of Curvine.
pub const CURVINE_SCHEME: &'static str = "curvine";

/// The Curvine object store.
#[derive(Debug)]
pub struct CurvineObjectStore;

/// The provider that registers the Curvine object store.
#[derive(Debug)]
pub struct CurvineObjectStoreProvider;

impl CurvineObjectStoreProvider {
    /// The provider.
    pub fn new() -> (r: Self) {
        CurvineObjectStoreProvider
    }
}

/// A URI addresses Curvine.
pub open spec fn curvine_uri(uri: Seq<char>) -> bool {
    has_prefix(uri, "curvine://"@)
}

/// Whether `uri` addresses Curvine (starts with `curvine://`).
pub fn is_curvine_uri(uri: &str) -> (r: bool)
    ensures
        r == curvine_uri(uri@),
{
    str_starts_with(uri, "curvine://")
}

/// The value of property `key` among `props`, the first one from index `i`.
pub open spec fn property_from(props: Seq<(String, String)>, key: Seq<char>, i: int) -> Option<Seq<char>>
    decreases props.len() - i,
{
    if i < 0 || i >= props.len() {
        None
    } else if props[i].0@ == key {
        Some(props[i].1@)
    } else {
        property_from(props, key, i + 1)
    }
}

/// No property key occurs twice among `props`, as in the map the storage
/// options come in.
pub open spec fn property_keys_distinct(props: Seq<(String, String)>) -> bool {
    forall|i: int, j: int| 0 <= i < j < props.len() ==> #[trigger] props[i].0@ != #[trigger] props[j].0@
}

proof fn lemma_property_from_reaches(props: Seq<(String, String)>, key: Seq<char>, i: int, k: int)
    requires
        property_keys_distinct(props),
        0 <= i <= k < props.len(),
        props[k].0@ == key,
    ensures
        property_from(props, key, i) == Some(props[k].1@),
    decreases k - i,
{
    if i < k {
        assert(props[i].0@ != props[k].0@);
        lemma_property_from_reaches(props, key, i + 1, k);
    }
}

/// With distinct keys, looking up the key of any listed property gives that
/// property's value.
pub proof fn law_property_lookup_finds_entry(props: Seq<(String, String)>, k: int)
    requires
        property_keys_distinct(props),
        0 <= k < props.len(),
    ensures
        property_from(props, props[k].0@, 0) == Some(props[k].1@),
{
    lemma_property_from_reaches(props, props[k].0@, 0, k);
}

/// Some property value addresses Curvine.
pub open spec fn some_curvine_value(props: Seq<(String, String)>) -> bool {
    exists|i: int| 0 <= i < props.len() && curvine_uri(#[trigger] props[i].1@)
}

/// Property `key` is present and addresses Curvine.
pub open spec fn curvine_property(props: Seq<(String, String)>, key: Seq<char>) -> bool {
    property_from(props, key, 0) matches Some(v) && curvine_uri(v)
}

fn property(props: &Vec<(String, String)>, key: &str) -> (r: Option<String>)
    ensures
        match r {
            Some(v) => property_from(props@, key@, 0) == Some(v@),
            None => property_from(props@, key@, 0) is None,
        },
        r matches Some(v) ==> exists|j: int| 0 <= j < props@.len() && (#[trigger] props@[j]).1@ == v@,
{
    let k = chars_of(key);
    let mut i: usize = 0;
    while i < props.len()
        invariant
            i <= props@.len(),
            k@ == key@,
            property_from(props@, key@, 0) == property_from(props@, key@, i as int),
        decreases props@.len() - i,
    {
        if crate::units::chars_eq(&chars_of(props[i].0.as_str()), &k) {
            let v = props[i].1.clone();
            assert(props@[i as int].1@ == v@);
            return Some(v);
        }
        i = i + 1;
    }
    None
}

/// The Curvine URI among namespace properties: the `root` property if it
/// addresses Curvine, else the `uri` property if it does, else any property
/// value that does (which one is not fixed), else none.
pub fn find_curvine_uri(properties: &Vec<(String, String)>) -> (r: Option<String>)
    requires
        property_keys_distinct(properties@),
    ensures
        curvine_property(properties@, "root"@)
            ==> (r matches Some(x) && Some(x@) == property_from(properties@, "root"@, 0)),
        !curvine_property(properties@, "root"@) && curvine_property(properties@, "uri"@)
            ==> (r matches Some(x) && Some(x@) == property_from(properties@, "uri"@, 0)),
        r is None <==> (!some_curvine_value(properties@) && !curvine_property(properties@, "root"@)
            && !curvine_property(properties@, "uri"@)),
        r matches Some(x) ==> curvine_uri(x@),
        r matches Some(x) ==> exists|j: int| 0 <= j < properties@.len() && (#[trigger] properties@[j]).1@ == x@,
{
    if let Some(v) = property(properties, "root") {
        if is_curvine_uri(v.as_str()) {
            return Some(v);
        }
    }
    if let Some(v) = property(properties, "uri") {
        if is_curvine_uri(v.as_str()) {
            return Some(v);
        }
    }
    let mut i: usize = 0;
    while i < properties.len()
        invariant
            i <= properties@.len(),
            !curvine_property(properties@, "root"@),
            !curvine_property(properties@, "uri"@),
            forall|j: int| 0 <= j < i ==> !curvine_uri(#[trigger] properties@[j].1@),
        decreases properties@.len() - i,
    {
        if is_curvine_uri(properties[i].1.as_str()) {
            let v = properties[i].1.clone();
            assert(properties@[i as int].1@ == v@);
            return Some(v);
        }
        i = i + 1;
    }
    None
}

/// The session a namespace connection uses.
#[derive(PartialEq, Eq, Structural, Clone, Copy, Debug)]
pub enum SessionChoice {
    /// The session that knows the Curvine object store.
    Curvine,
    /// The session the caller gave.
    Explicit,
    /// The connector's default session.
    Default,
}

/// The session of a namespace connection: Curvine's when a property
/// addresses Curvine (this overrides a session the caller gave), else the
/// caller's, else the default.
pub fn namespace_session(properties: &Vec<(String, String)>, has_explicit_session: bool) -> (r: SessionChoice)
    requires
        property_keys_distinct(properties@),
    ensures
        r == (if some_curvine_value(properties@) || curvine_property(properties@, "root"@)
            || curvine_property(properties@, "uri"@) {
            SessionChoice::Curvine
        } else if has_explicit_session {
            SessionChoice::Explicit
        } else {
            SessionChoice::Default
        }),
{
    if find_curvine_uri(properties).is_some() {
        SessionChoice::Curvine
    } else if has_explicit_session {
        SessionChoice::Explicit
    } else {
        SessionChoice::Default
    }
}

/// Whether a plain connection to `uri` uses the Curvine session.
pub fn connect_uses_curvine_session(uri: &str) -> (r: bool)
    ensures
        r == curvine_uri(uri@),
{
    is_curvine_uri(uri)
}

/// The error for a Curvine URI the object store does not serve.
#[derive(Debug)]
pub struct NotSupportedError {
    pub message: String,
}

/// The error for a Curvine URI the object store does not serve.
pub fn unsupported_curvine_uri(uri: &str) -> (r: NotSupportedError)
    ensures
        r.message@ == "Curvine object store, uri="@ + uri@ + " is not implemented"@,
{
    let mut m = string_of("Curvine object store, uri=");
    push_str(&mut m, uri);
    push_str(&mut m, " is not implemented");
    NotSupportedError { message: m }
}

} // verus!
