//! Extensions specific to the HTTP/2 protocol: the `:protocol` pseudo-header
//! value of the extended CONNECT handshake, and a builder that stages
//! overrides for the request pseudo-headers before encoding.

use vstd::prelude::*;
use vstd::utf8::*;

use crate::bytes_str::{bytes_content, BytesStr};
use crate::validate::{first_invalid_at, Utf8Error};

verus! {

#[verifier::external_type_specification]
#[verifier::external_body]
pub struct ExMethod(http::Method);

#[verifier::external_type_specification]
#[verifier::external_body]
pub struct ExScheme(http::uri::Scheme);

#[verifier::external_type_specification]
#[verifier::external_body]
pub struct ExAuthority(http::uri::Authority);

#[verifier::external_type_specification]
#[verifier::external_body]
pub struct ExPathAndQuery(http::uri::PathAndQuery);

/// Relies on `<http::Method as Clone>::clone`: the clone equals its source
/// (the type is a plain enumeration over its standard and extension names).
#[verifier::external_body]
fn method_clone(m: &http::Method) -> (r: http::Method)
    ensures
        r == *m,
{
    m.clone()
}

/// Relies on `<http::uri::Scheme as Clone>::clone`: the clone equals its
/// source (the type is a plain wrapper over its textual form).
#[verifier::external_body]
fn scheme_clone(s: &http::uri::Scheme) -> (r: http::uri::Scheme)
    ensures
        r == *s,
{
    s.clone()
}

/// The textual form of an authority, as `http::uri::Authority::as_str`
/// renders it: a function of the authority value alone.
pub uninterp spec fn authority_chars(a: http::uri::Authority) -> Seq<char>;

/// The textual form of a path and query, as
/// `http::uri::PathAndQuery::as_str` renders it (an empty path renders as
/// `"/"`): a function of the value alone.
pub uninterp spec fn path_and_query_chars(p: http::uri::PathAndQuery) -> Seq<char>;

/// Relies on `http::uri::Authority::as_str`: the authority's textual form.
#[verifier::external_body]
fn authority_as_str(a: &http::uri::Authority) -> (r: &str)
    ensures
        r@ == authority_chars(*a),
{
    a.as_str()
}

/// Relies on `http::uri::PathAndQuery::as_str`: the path and query's textual
/// form.
#[verifier::external_body]
fn path_and_query_as_str(p: &http::uri::PathAndQuery) -> (r: &str)
    ensures
        r@ == path_and_query_chars(*p),
{
    p.as_str()
}

/// Represents the `:protocol` pseudo-header used by the extended CONNECT
/// handshake, for example a WebSocket-style upgrade token.
///
/// Its view is the byte sequence of its payload, which is valid UTF-8 at all
/// times after construction.
#[derive(Debug)]
pub struct Protocol {
    value: BytesStr,
}

impl View for Protocol {
    type V = Seq<u8>;

    closed spec fn view(&self) -> Seq<u8> {
        self.value@
    }
}

impl Protocol {
    /// Converts a static string to a protocol name, reusing its storage.
    pub fn from_static(value: &'static str) -> (r: Self)
        ensures
            r@ == encode_utf8(value@),
    {
        Protocol { value: BytesStr::from_static(value) }
    }

    /// Copies a borrowed string of arbitrary lifetime into a protocol name.
    pub fn from_str(value: &str) -> (r: Self)
        ensures
            r@ == encode_utf8(value@),
    {
        Protocol { value: BytesStr::from_str(value) }
    }

    /// Decodes a protocol name received off the wire: succeeds exactly when
    /// the bytes are valid UTF-8, and otherwise reports the offset of the
    /// first invalid sequence.
    pub fn try_from(bytes: bytes::Bytes) -> (r: Result<Self, Utf8Error>)
        ensures
            valid_utf8(bytes_content(bytes)) ==> (r matches Ok(p) && p@ == bytes_content(bytes)),
            !valid_utf8(bytes_content(bytes)) ==> (r matches Err(e) && first_invalid_at(
                bytes_content(bytes),
                e.valid_up_to as int,
            )),
    {
        match BytesStr::try_from(bytes) {
            Ok(value) => Ok(Protocol { value }),
            Err(e) => Err(e),
        }
    }

    /// Returns a str representation of the header.
    pub fn as_str(&self) -> (r: &str)
        ensures
            r@ == decode_utf8(self@),
            encode_utf8(r@) == self@,
            valid_utf8(self@),
    {
        self.value.as_str()
    }

    /// Returns the raw payload bytes, for the encoder to write to the wire
    /// without re-validation.
    pub fn as_bytes(&self) -> (r: &[u8])
        ensures
            r@ == self@,
            valid_utf8(self@),
    {
        self.value.as_bytes()
    }
}

impl Clone for Protocol {
    /// The clone shares the same bytes: its byte view equals the source's.
    fn clone(&self) -> (r: Self)
        ensures
            r@ == self@,
    {
        Protocol { value: self.value.clone() }
    }
}

impl PartialEq for Protocol {
    fn eq(&self, other: &Self) -> (r: bool) {
        self.value == other.value
    }
}

impl vstd::std_specs::cmp::PartialEqSpecImpl for Protocol {
    open spec fn obeys_eq_spec() -> bool {
        true
    }

    /// Two protocol names are equal exactly when their payloads are equal.
    open spec fn eq_spec(&self, other: &Self) -> bool {
        self@ == other@
    }
}

impl Eq for Protocol {

}

/// Two protocol names with the same text compare equal, whatever storage
/// backs each of them.
pub proof fn lemma_protocol_eq_is_payload_eq(p: Protocol, q: Protocol)
    ensures
        vstd::std_specs::cmp::PartialEqSpec::eq_spec(&p, &q) <==> p@ == q@,
{
}

/// The abstract state of a [`PseudoHeadersOverride`]: each pseudo-header is
/// either unset or set, the string-valued fields viewed as their byte
/// payloads.
#[verifier::ext_equal]
pub ghost struct PseudoHeadersView {
    pub method: Option<http::Method>,
    pub scheme: Option<http::uri::Scheme>,
    pub authority: Option<Seq<u8>>,
    pub path: Option<Seq<u8>>,
    pub protocol: Option<Seq<u8>>,
}

/// The view of an override set with every field unset.
pub open spec fn empty_view() -> PseudoHeadersView {
    PseudoHeadersView {
        method: None,
        scheme: None,
        authority: None,
        path: None,
        protocol: None,
    }
}

/// The view after overriding `:method`, all other fields untouched.
pub open spec fn with_method(v: PseudoHeadersView, m: http::Method) -> PseudoHeadersView {
    PseudoHeadersView { method: Some(m), ..v }
}

/// The view after overriding `:scheme`, all other fields untouched.
pub open spec fn with_scheme(v: PseudoHeadersView, s: http::uri::Scheme) -> PseudoHeadersView {
    PseudoHeadersView { scheme: Some(s), ..v }
}

/// The view after overriding `:authority`, all other fields untouched.
pub open spec fn with_authority(v: PseudoHeadersView, a: Seq<u8>) -> PseudoHeadersView {
    PseudoHeadersView { authority: Some(a), ..v }
}

/// The view after overriding `:path`, all other fields untouched.
pub open spec fn with_path(v: PseudoHeadersView, p: Seq<u8>) -> PseudoHeadersView {
    PseudoHeadersView { path: Some(p), ..v }
}

/// The view after overriding `:protocol`, all other fields untouched.
pub open spec fn with_protocol(v: PseudoHeadersView, p: Seq<u8>) -> PseudoHeadersView {
    PseudoHeadersView { protocol: Some(p), ..v }
}

/// Allows overriding the request pseudo-headers before a request is encoded.
///
/// The five fields are independent: setting one never implies or forbids
/// setting another. The encoder that consumes the set reads the fields
/// directly.
#[derive(Debug)]
pub struct PseudoHeadersOverride {
    pub method: Option<http::Method>,
    pub scheme: Option<http::uri::Scheme>,
    pub authority: Option<BytesStr>,
    pub path: Option<BytesStr>,
    pub protocol: Option<Protocol>,
}

impl View for PseudoHeadersOverride {
    type V = PseudoHeadersView;

    open spec fn view(&self) -> PseudoHeadersView {
        PseudoHeadersView {
            method: self.method,
            scheme: self.scheme,
            authority: match self.authority {
                Some(a) => Some(a@),
                None => None,
            },
            path: match self.path {
                Some(p) => Some(p@),
                None => None,
            },
            protocol: match self.protocol {
                Some(p) => Some(p@),
                None => None,
            },
        }
    }
}

impl PseudoHeadersOverride {
    /// Creates an empty override set.
    pub fn new() -> (r: Self)
        ensures
            r@ == empty_view(),
    {
        PseudoHeadersOverride {
            method: None,
            scheme: None,
            authority: None,
            path: None,
            protocol: None,
        }
    }

    /// Overrides the `:method` pseudo-header.
    pub fn set_method(self, method: http::Method) -> (r: Self)
        ensures
            r@ == with_method(self@, method),
    {
        PseudoHeadersOverride { method: Some(method), ..self }
    }

    /// Overrides the `:scheme` pseudo-header.
    pub fn set_scheme(self, scheme: http::uri::Scheme) -> (r: Self)
        ensures
            r@ == with_scheme(self@, scheme),
    {
        PseudoHeadersOverride { scheme: Some(scheme), ..self }
    }

    /// Overrides the `:authority` pseudo-header using a parsed authority:
    /// the stored payload is the authority's textual form, and all other
    /// fields are untouched.
    pub fn set_authority(self, authority: http::uri::Authority) -> (r: Self)
        ensures
            r@ == with_authority(self@, encode_utf8(authority_chars(authority))),
    {
        let s = authority_as_str(&authority);
        self.set_authority_str(s)
    }

    /// Overrides the `:authority` pseudo-header using a raw string value;
    /// no validation against the authority grammar is performed here.
    pub fn set_authority_str(self, authority: &str) -> (r: Self)
        ensures
            r@ == with_authority(self@, encode_utf8(authority@)),
    {
        PseudoHeadersOverride { authority: Some(BytesStr::from_str(authority)), ..self }
    }

    /// Overrides the `:path` pseudo-header from a parsed path and query:
    /// the stored payload is the value's textual form, and all other fields
    /// are untouched.
    pub fn set_path_and_query(self, path: http::uri::PathAndQuery) -> (r: Self)
        ensures
            r@ == with_path(self@, encode_utf8(path_and_query_chars(path))),
    {
        let s = path_and_query_as_str(&path);
        self.set_path(s)
    }

    /// Overrides the `:path` pseudo-header using a raw string value.
    pub fn set_path(self, path: &str) -> (r: Self)
        ensures
            r@ == with_path(self@, encode_utf8(path@)),
    {
        PseudoHeadersOverride { path: Some(BytesStr::from_str(path)), ..self }
    }

    /// Overrides the `:protocol` pseudo-header of extended CONNECT.
    pub fn set_protocol(self, protocol: Protocol) -> (r: Self)
        ensures
            r@ == with_protocol(self@, protocol@),
    {
        PseudoHeadersOverride { protocol: Some(protocol), ..self }
    }
}

impl Clone for PseudoHeadersOverride {
    /// The clone stages the same overrides: its view equals the source's.
    fn clone(&self) -> (r: Self)
        ensures
            r@ == self@,
    {
        let r = PseudoHeadersOverride {
            method: match &self.method {
                Some(m) => Some(method_clone(m)),
                None => None,
            },
            scheme: match &self.scheme {
                Some(s) => Some(scheme_clone(s)),
                None => None,
            },
            authority: match &self.authority {
                Some(a) => Some(a.clone()),
                None => None,
            },
            path: match &self.path {
                Some(p) => Some(p.clone()),
                None => None,
            },
            protocol: match &self.protocol {
                Some(p) => Some(p.clone()),
                None => None,
            },
        };
        proof {
            assert(r@ =~= self@);
        }
        r
    }
}

impl Default for PseudoHeadersOverride {
    /// The default set has every field unset.
    fn default() -> (r: Self)
        ensures
            r@ == empty_view(),
    {
        PseudoHeadersOverride::new()
    }
}

/// A fresh set reports every field unset; after one setter, exactly that
/// field is set and all others remain unset: the fields are independent.
pub proof fn lemma_single_setter_independence(
    m: http::Method,
    s: http::uri::Scheme,
    a: Seq<u8>,
    p: Seq<u8>,
    pr: Seq<u8>,
)
    ensures
        with_method(empty_view(), m) == (PseudoHeadersView {
            method: Some(m),
            ..empty_view()
        }),
        with_scheme(empty_view(), s) == (PseudoHeadersView {
            scheme: Some(s),
            ..empty_view()
        }),
        with_authority(empty_view(), a) == (PseudoHeadersView {
            authority: Some(a),
            ..empty_view()
        }),
        with_path(empty_view(), p) == (PseudoHeadersView { path: Some(p), ..empty_view() }),
        with_protocol(empty_view(), pr) == (PseudoHeadersView {
            protocol: Some(pr),
            ..empty_view()
        }),
{
}

/// Setters of distinct fields commute: chaining any two of them on a set
/// yields the same set in either order.
pub proof fn lemma_setters_commute(
    v: PseudoHeadersView,
    m: http::Method,
    s: http::uri::Scheme,
    a: Seq<u8>,
    p: Seq<u8>,
    pr: Seq<u8>,
)
    ensures
        with_scheme(with_method(v, m), s) == with_method(with_scheme(v, s), m),
        with_authority(with_method(v, m), a) == with_method(with_authority(v, a), m),
        with_path(with_method(v, m), p) == with_method(with_path(v, p), m),
        with_protocol(with_method(v, m), pr) == with_method(with_protocol(v, pr), m),
        with_authority(with_scheme(v, s), a) == with_scheme(with_authority(v, a), s),
        with_path(with_scheme(v, s), p) == with_scheme(with_path(v, p), s),
        with_protocol(with_scheme(v, s), pr) == with_scheme(with_protocol(v, pr), s),
        with_path(with_authority(v, a), p) == with_authority(with_path(v, p), a),
        with_protocol(with_authority(v, a), pr) == with_authority(with_protocol(v, pr), a),
        with_protocol(with_path(v, p), pr) == with_path(with_protocol(v, pr), p),
{
}

/// One override call of a chain: which pseudo-header it sets, and to what.
pub ghost enum SetterCall {
    Method(http::Method),
    Scheme(http::uri::Scheme),
    Authority(Seq<u8>),
    Path(Seq<u8>),
    Protocol(Seq<u8>),
}

/// The view after one override call.
pub open spec fn apply_setter(v: PseudoHeadersView, c: SetterCall) -> PseudoHeadersView {
    match c {
        SetterCall::Method(m) => with_method(v, m),
        SetterCall::Scheme(s) => with_scheme(v, s),
        SetterCall::Authority(a) => with_authority(v, a),
        SetterCall::Path(p) => with_path(v, p),
        SetterCall::Protocol(p) => with_protocol(v, p),
    }
}

/// The view after a chain of override calls, applied left to right.
pub open spec fn apply_setters(v: PseudoHeadersView, cs: Seq<SetterCall>) -> PseudoHeadersView
    decreases cs.len(),
{
    if cs.len() == 0 {
        v
    } else {
        apply_setter(apply_setters(v, cs.drop_last()), cs.last())
    }
}

/// Holds when two calls set the same pseudo-header.
pub open spec fn same_field(c: SetterCall, d: SetterCall) -> bool {
    match (c, d) {
        (SetterCall::Method(_), SetterCall::Method(_)) => true,
        (SetterCall::Scheme(_), SetterCall::Scheme(_)) => true,
        (SetterCall::Authority(_), SetterCall::Authority(_)) => true,
        (SetterCall::Path(_), SetterCall::Path(_)) => true,
        (SetterCall::Protocol(_), SetterCall::Protocol(_)) => true,
        _ => false,
    }
}

/// Holds when the view carries the value that the given call stores.
pub open spec fn setter_applied(v: PseudoHeadersView, c: SetterCall) -> bool {
    match c {
        SetterCall::Method(m) => v.method == Some(m),
        SetterCall::Scheme(s) => v.scheme == Some(s),
        SetterCall::Authority(a) => v.authority == Some(a),
        SetterCall::Path(p) => v.path == Some(p),
        SetterCall::Protocol(p) => v.protocol == Some(p),
    }
}

/// In a chain whose calls all set distinct pseudo-headers, every call's
/// value survives to the end of the chain, whatever the order of the calls.
pub proof fn lemma_distinct_chain_applies_all(v: PseudoHeadersView, cs: Seq<SetterCall>)
    requires
        forall|j: int, k: int| 0 <= j < k < cs.len() ==> !same_field(cs[j], cs[k]),
    ensures
        forall|j: int| 0 <= j < cs.len() ==> setter_applied(apply_setters(v, cs), #[trigger] cs[j]),
    decreases cs.len(),
{
    if cs.len() > 0 {
        let pre = cs.drop_last();
        assert forall|j2: int, k2: int| 0 <= j2 < k2 < pre.len() implies !same_field(
            pre[j2],
            pre[k2],
        ) by {
            assert(pre[j2] == cs[j2]);
            assert(pre[k2] == cs[k2]);
        }
        lemma_distinct_chain_applies_all(v, pre);
        let w = apply_setters(v, pre);
        let r = apply_setter(w, cs.last());
        assert forall|j: int| 0 <= j < cs.len() implies setter_applied(r, #[trigger] cs[j]) by {
            if j < cs.len() - 1 {
                assert(pre[j] == cs[j]);
                assert(setter_applied(w, pre[j]));
                assert(!same_field(cs[j], cs.last()));
            }
        }
    }
}

/// Chaining all five setters on a fresh set, each field set once, yields a
/// set where every field equals the value passed, regardless of the order
/// of the calls.
pub proof fn lemma_full_chain(
    cs: Seq<SetterCall>,
    m: http::Method,
    s: http::uri::Scheme,
    a: Seq<u8>,
    p: Seq<u8>,
    pr: Seq<u8>,
)
    requires
        forall|j: int, k: int| 0 <= j < k < cs.len() ==> !same_field(cs[j], cs[k]),
        cs.contains(SetterCall::Method(m)),
        cs.contains(SetterCall::Scheme(s)),
        cs.contains(SetterCall::Authority(a)),
        cs.contains(SetterCall::Path(p)),
        cs.contains(SetterCall::Protocol(pr)),
    ensures
        apply_setters(empty_view(), cs) == (PseudoHeadersView {
            method: Some(m),
            scheme: Some(s),
            authority: Some(a),
            path: Some(p),
            protocol: Some(pr),
        }),
{
    lemma_distinct_chain_applies_all(empty_view(), cs);
    let r = apply_setters(empty_view(), cs);
    assert(setter_applied(r, SetterCall::Method(m)));
    assert(setter_applied(r, SetterCall::Scheme(s)));
    assert(setter_applied(r, SetterCall::Authority(a)));
    assert(setter_applied(r, SetterCall::Path(p)));
    assert(setter_applied(r, SetterCall::Protocol(pr)));
}

} // verus!
