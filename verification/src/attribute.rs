//! Attribute keys, values and ordered attribute sets.
//!
//! The same attribute set type tags spans and metric observations. A set keeps
//! its entries in the order in which their keys first arrived and never holds
//! a key twice.

use opentelemetry_semantic_conventions::trace::{
    CLIENT_ADDRESS, ERROR_TYPE, HTTP_REQUEST_METHOD, HTTP_RESPONSE_STATUS_CODE, HTTP_ROUTE,
    NETWORK_PROTOCOL_VERSION, URL_PATH, URL_SCHEME, USER_AGENT_ORIGINAL,
};
use crate::assoc::{has_key, keys_distinct, lemma_lookup_at, lemma_upsert, lookup, position, upsert};
use vstd::prelude::*;

verus! {

/// The key of an attribute: one of the HTTP semantic-convention names that the
/// instrumentation writes itself, or a name chosen by a handler.
#[derive(Debug, PartialEq, Eq)]
pub enum AttrKey {
    UrlPath,
    UrlScheme,
    HttpRoute,
    HttpRequestMethod,
    HttpResponseStatusCode,
    NetworkProtocolVersion,
    ClientAddress,
    UserAgentOriginal,
    ErrorType,
    Custom(String),
}

/// Mathematical form of an [`AttrKey`].
pub enum KeyView {
    UrlPath,
    UrlScheme,
    HttpRoute,
    HttpRequestMethod,
    HttpResponseStatusCode,
    NetworkProtocolVersion,
    ClientAddress,
    UserAgentOriginal,
    ErrorType,
    Custom(Seq<char>),
}

impl KeyView {
    /// The name under which the key is exported.
    pub open spec fn name(self) -> Seq<char> {
        match self {
            KeyView::UrlPath => "url.path"@,
            KeyView::UrlScheme => "url.scheme"@,
            KeyView::HttpRoute => "http.route"@,
            KeyView::HttpRequestMethod => "http.request.method"@,
            KeyView::HttpResponseStatusCode => "http.response.status_code"@,
            KeyView::NetworkProtocolVersion => "network.protocol.version"@,
            KeyView::ClientAddress => "client.address"@,
            KeyView::UserAgentOriginal => "user_agent.original"@,
            KeyView::ErrorType => "error.type"@,
            KeyView::Custom(s) => s,
        }
    }
}

impl View for AttrKey {
    type V = KeyView;

    open spec fn view(&self) -> KeyView {
        match self {
            AttrKey::UrlPath => KeyView::UrlPath,
            AttrKey::UrlScheme => KeyView::UrlScheme,
            AttrKey::HttpRoute => KeyView::HttpRoute,
            AttrKey::HttpRequestMethod => KeyView::HttpRequestMethod,
            AttrKey::HttpResponseStatusCode => KeyView::HttpResponseStatusCode,
            AttrKey::NetworkProtocolVersion => KeyView::NetworkProtocolVersion,
            AttrKey::ClientAddress => KeyView::ClientAddress,
            AttrKey::UserAgentOriginal => KeyView::UserAgentOriginal,
            AttrKey::ErrorType => KeyView::ErrorType,
            AttrKey::Custom(s) => KeyView::Custom(s@),
        }
    }
}

/// The constant `URL_PATH` of `opentelemetry_semantic_conventions::trace`.
#[verifier::external_body]
fn url_path_name() -> (r: &'static str)
    ensures
        r@ == "url.path"@,
{
    URL_PATH
}

/// The constant `URL_SCHEME` of `opentelemetry_semantic_conventions::trace`.
#[verifier::external_body]
fn url_scheme_name() -> (r: &'static str)
    ensures
        r@ == "url.scheme"@,
{
    URL_SCHEME
}

/// The constant `HTTP_ROUTE` of `opentelemetry_semantic_conventions::trace`.
#[verifier::external_body]
fn http_route_name() -> (r: &'static str)
    ensures
        r@ == "http.route"@,
{
    HTTP_ROUTE
}

/// The constant `HTTP_REQUEST_METHOD` of
/// `opentelemetry_semantic_conventions::trace`.
#[verifier::external_body]
fn http_request_method_name() -> (r: &'static str)
    ensures
        r@ == "http.request.method"@,
{
    HTTP_REQUEST_METHOD
}

/// The constant `HTTP_RESPONSE_STATUS_CODE` of
/// `opentelemetry_semantic_conventions::trace`.
#[verifier::external_body]
fn http_response_status_code_name() -> (r: &'static str)
    ensures
        r@ == "http.response.status_code"@,
{
    HTTP_RESPONSE_STATUS_CODE
}

/// The constant `NETWORK_PROTOCOL_VERSION` of
/// `opentelemetry_semantic_conventions::trace`.
#[verifier::external_body]
fn network_protocol_version_name() -> (r: &'static str)
    ensures
        r@ == "network.protocol.version"@,
{
    NETWORK_PROTOCOL_VERSION
}

/// The constant `CLIENT_ADDRESS` of
/// `opentelemetry_semantic_conventions::trace`.
#[verifier::external_body]
fn client_address_name() -> (r: &'static str)
    ensures
        r@ == "client.address"@,
{
    CLIENT_ADDRESS
}

/// The constant `USER_AGENT_ORIGINAL` of
/// `opentelemetry_semantic_conventions::trace`.
#[verifier::external_body]
fn user_agent_original_name() -> (r: &'static str)
    ensures
        r@ == "user_agent.original"@,
{
    USER_AGENT_ORIGINAL
}

/// The constant `ERROR_TYPE` of `opentelemetry_semantic_conventions::trace`.
#[verifier::external_body]
fn error_type_name() -> (r: &'static str)
    ensures
        r@ == "error.type"@,
{
    ERROR_TYPE
}

impl AttrKey {
    /// The name under which the key is exported.
    pub fn name(&self) -> (r: String)
        ensures
            r@ == self@.name(),
    {
        match self {
            AttrKey::UrlPath => String::from_str(url_path_name()),
            AttrKey::UrlScheme => String::from_str(url_scheme_name()),
            AttrKey::HttpRoute => String::from_str(http_route_name()),
            AttrKey::HttpRequestMethod => String::from_str(http_request_method_name()),
            AttrKey::HttpResponseStatusCode => String::from_str(http_response_status_code_name()),
            AttrKey::NetworkProtocolVersion => String::from_str(network_protocol_version_name()),
            AttrKey::ClientAddress => String::from_str(client_address_name()),
            AttrKey::UserAgentOriginal => String::from_str(user_agent_original_name()),
            AttrKey::ErrorType => String::from_str(error_type_name()),
            AttrKey::Custom(s) => s.clone(),
        }
    }

    /// Whether two keys are the same key.
    pub fn same(&self, other: &AttrKey) -> (r: bool)
        ensures
            r == (self@ == other@),
    {
        match (self, other) {
            (AttrKey::UrlPath, AttrKey::UrlPath) => true,
            (AttrKey::UrlScheme, AttrKey::UrlScheme) => true,
            (AttrKey::HttpRoute, AttrKey::HttpRoute) => true,
            (AttrKey::HttpRequestMethod, AttrKey::HttpRequestMethod) => true,
            (AttrKey::HttpResponseStatusCode, AttrKey::HttpResponseStatusCode) => true,
            (AttrKey::NetworkProtocolVersion, AttrKey::NetworkProtocolVersion) => true,
            (AttrKey::ClientAddress, AttrKey::ClientAddress) => true,
            (AttrKey::UserAgentOriginal, AttrKey::UserAgentOriginal) => true,
            (AttrKey::ErrorType, AttrKey::ErrorType) => true,
            (AttrKey::Custom(a), AttrKey::Custom(b)) => *a == *b,
            _ => false,
        }
    }

    /// A copy of the key.
    pub fn duplicate(&self) -> (r: AttrKey)
        ensures
            r@ == self@,
    {
        match self {
            AttrKey::UrlPath => AttrKey::UrlPath,
            AttrKey::UrlScheme => AttrKey::UrlScheme,
            AttrKey::HttpRoute => AttrKey::HttpRoute,
            AttrKey::HttpRequestMethod => AttrKey::HttpRequestMethod,
            AttrKey::HttpResponseStatusCode => AttrKey::HttpResponseStatusCode,
            AttrKey::NetworkProtocolVersion => AttrKey::NetworkProtocolVersion,
            AttrKey::ClientAddress => AttrKey::ClientAddress,
            AttrKey::UserAgentOriginal => AttrKey::UserAgentOriginal,
            AttrKey::ErrorType => AttrKey::ErrorType,
            AttrKey::Custom(s) => AttrKey::Custom(s.clone()),
        }
    }
}

/// The value of an attribute.
#[derive(Debug, PartialEq, Eq)]
pub enum AttrValue {
    Str(String),
    Int(i64),
    Bool(bool),
}

/// Mathematical form of an [`AttrValue`].
pub enum ValueView {
    Str(Seq<char>),
    Int(i64),
    Bool(bool),
}

impl View for AttrValue {
    type V = ValueView;

    open spec fn view(&self) -> ValueView {
        match self {
            AttrValue::Str(s) => ValueView::Str(s@),
            AttrValue::Int(n) => ValueView::Int(*n),
            AttrValue::Bool(b) => ValueView::Bool(*b),
        }
    }
}

impl AttrValue {
    /// A text value.
    pub fn text(s: &str) -> (r: AttrValue)
        ensures
            r@ == ValueView::Str(s@),
    {
        AttrValue::Str(String::from_str(s))
    }

    /// A copy of the value.
    pub fn duplicate(&self) -> (r: AttrValue)
        ensures
            r@ == self@,
    {
        match self {
            AttrValue::Str(s) => AttrValue::Str(s.clone()),
            AttrValue::Int(n) => AttrValue::Int(*n),
            AttrValue::Bool(b) => AttrValue::Bool(*b),
        }
    }

    /// Whether two values are equal.
    pub fn same(&self, other: &AttrValue) -> (r: bool)
        ensures
            r == (self@ == other@),
    {
        match (self, other) {
            (AttrValue::Str(a), AttrValue::Str(b)) => *a == *b,
            (AttrValue::Int(a), AttrValue::Int(b)) => *a == *b,
            (AttrValue::Bool(a), AttrValue::Bool(b)) => *a == *b,
            _ => false,
        }
    }
}

/// One attribute: a key and its value.
#[derive(Debug, PartialEq, Eq)]
pub struct KeyValue {
    pub key: AttrKey,
    pub value: AttrValue,
}

impl View for KeyValue {
    type V = (KeyView, ValueView);

    open spec fn view(&self) -> (KeyView, ValueView) {
        (self.key@, self.value@)
    }
}

impl KeyValue {
    pub fn new(key: AttrKey, value: AttrValue) -> (r: KeyValue)
        ensures
            r@ == (key@, value@),
    {
        KeyValue { key, value }
    }

    /// A copy of the attribute.
    pub fn duplicate(&self) -> (r: KeyValue)
        ensures
            r@ == self@,
    {
        KeyValue { key: self.key.duplicate(), value: self.value.duplicate() }
    }
}

/// The mathematical form of an attribute set: its entries in order.
pub type Attrs = Seq<(KeyView, ValueView)>;

/// An ordered set of attributes.
#[derive(Debug, PartialEq, Eq)]
pub struct AttributeSet {
    entries: Vec<KeyValue>,
}

impl View for AttributeSet {
    type V = Attrs;

    closed spec fn view(&self) -> Attrs {
        Seq::new(self.entries@.len(), |i: int| self.entries@[i]@)
    }
}

impl AttributeSet {
    /// No key occurs twice.
    #[verifier::type_invariant]
    pub open spec fn inv(self) -> bool {
        keys_distinct(self@)
    }

    /// The empty set.
    pub fn new() -> (r: AttributeSet)
        ensures
            r@ == Attrs::empty(),
    {
        let r = AttributeSet { entries: Vec::new() };
        assert(r@ =~= Attrs::empty());
        r
    }

    /// The number of entries.
    pub fn len(&self) -> (n: usize)
        ensures
            n == self@.len(),
    {
        self.entries.len()
    }

    /// The entry at a place, in insertion order.
    pub fn entry(&self, i: usize) -> (r: Option<&KeyValue>)
        ensures
            i < self@.len() ==> r is Some && r->0@ == self@[i as int],
            i >= self@.len() ==> r is None,
    {
        if i < self.entries.len() {
            Some(&self.entries[i])
        } else {
            None
        }
    }

    /// The place of the entry with the key.
    fn find(&self, key: &AttrKey) -> (r: Option<usize>)
        ensures
            r is Some <==> has_key(self@, key@),
            r is Some ==> r->0 == position(self@, key@) && r->0 < self@.len(),
    {
        proof {
            use_type_invariant(self);
        }
        let mut i: usize = 0;
        while i < self.entries.len()
            invariant
                i <= self.entries@.len(),
                self@.len() == self.entries@.len(),
                keys_distinct(self@),
                forall|j: int| 0 <= j < i ==> (#[trigger] self@[j]).0 != key@,
            decreases self.entries@.len() - i,
        {
            if self.entries[i].key.same(key) {
                proof {
                    assert(self@[i as int].0 == key@);
                    lemma_lookup_at(self@, i as int);
                }
                return Some(i);
            }
            i = i + 1;
        }
        None
    }

    /// The value stored under the key, if any.
    pub fn get(&self, key: &AttrKey) -> (r: Option<&AttrValue>)
        ensures
            r is Some <==> lookup(self@, key@) is Some,
            r is Some ==> Some(r->0@) == lookup(self@, key@),
    {
        match self.find(key) {
            Some(i) => {
                assert(self@[i as int] == self.entries@[i as int]@);
                Some(&self.entries[i].value)
            },
            None => None,
        }
    }

    /// Gives the key the value. A key that is already there keeps its place.
    pub fn insert(&mut self, key: AttrKey, value: AttrValue)
        ensures
            final(self)@ == upsert(old(self)@, key@, value@),
    {
        proof {
            use_type_invariant(&*self);
            lemma_upsert(self@, key@, value@);
        }
        let found = self.find(&key);
        let ghost before = self@;
        let ghost kv = (key@, value@);
        let mut entries: Vec<KeyValue> = Vec::new();
        std::mem::swap(&mut entries, &mut self.entries);
        assert(before =~= Seq::new(entries@.len(), |i: int| entries@[i]@));
        match found {
            Some(i) => {
                entries.set(i, KeyValue { key, value });
            },
            None => {
                entries.push(KeyValue { key, value });
            },
        }
        assert(upsert(before, kv.0, kv.1) =~= Seq::new(entries@.len(), |i: int| entries@[i]@));
        self.entries = entries;
    }

    /// A copy of the set.
    pub fn duplicate(&self) -> (r: AttributeSet)
        ensures
            r@ == self@,
    {
        proof {
            use_type_invariant(self);
        }
        let mut entries: Vec<KeyValue> = Vec::new();
        let mut i: usize = 0;
        while i < self.entries.len()
            invariant
                i <= self.entries@.len(),
                entries@.len() == i,
                forall|j: int| 0 <= j < i ==> (#[trigger] entries@[j])@ == self.entries@[j]@,
            decreases self.entries@.len() - i,
        {
            entries.push(self.entries[i].duplicate());
            i = i + 1;
        }
        assert(Seq::new(entries@.len(), |i: int| entries@[i]@) =~= self@);
        AttributeSet { entries }
    }

    /// Whether two sets hold the same entries in the same order.
    pub fn same(&self, other: &AttributeSet) -> (r: bool)
        ensures
            r == (self@ == other@),
    {
        if self.entries.len() != other.entries.len() {
            assert(self@.len() != other@.len());
            return false;
        }
        let mut i: usize = 0;
        while i < self.entries.len()
            invariant
                i <= self.entries@.len(),
                self.entries@.len() == other.entries@.len(),
                forall|j: int| 0 <= j < i ==> (#[trigger] self.entries@[j])@ == other.entries@[j]@,
            decreases self.entries@.len() - i,
        {
            let a = &self.entries[i];
            let b = &other.entries[i];
            if !a.key.same(&b.key) || !a.value.same(&b.value) {
                assert(self@[i as int] != other@[i as int]);
                return false;
            }
            i = i + 1;
        }
        assert(self@ =~= other@);
        true
    }
}

} // verus!
