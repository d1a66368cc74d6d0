use bytes::Bytes;
use http::uri::{Authority, PathAndQuery, Scheme};
use http::Method;
use pseudo_headers::{Protocol, PseudoHeadersOverride};

#[test]
fn round_trip_websocket() {
    let p = Protocol::try_from(Bytes::from_static(b"websocket")).unwrap();
    assert_eq!(p.as_str(), "websocket");
    assert_eq!(p.as_bytes(), b"websocket");
}

#[test]
fn valid_multibyte_buffer_decodes() {
    let text = "caf\u{e9} \u{2713} \u{1f600}";
    let p = Protocol::try_from(Bytes::copy_from_slice(text.as_bytes())).unwrap();
    assert_eq!(p.as_str(), text);
    assert_eq!(p.as_bytes(), text.as_bytes());
}

#[test]
fn invalid_buffer_fails_at_offset_zero() {
    let e = Protocol::try_from(Bytes::from_static(&[0xff, 0xfe])).unwrap_err();
    assert_eq!(e.valid_up_to, 0);
}

#[test]
fn invalid_offsets_match_std() {
    let cases: &[&[u8]] = &[
        b"ab\xc3",
        b"a\xed\xa0\x80",
        b"\xc0\xaf",
        b"ok\xf0\x9f",
        b"\xf5\x80\x80\x80",
        b"no\x80pe",
        b"x\xe2\x28\xa1",
    ];
    for &case in cases {
        let expected = std::str::from_utf8(case).unwrap_err().valid_up_to();
        let e = Protocol::try_from(Bytes::copy_from_slice(case)).unwrap_err();
        assert_eq!(e.valid_up_to, expected);
    }
}

#[test]
fn static_and_borrowed_compare_equal() {
    let text = String::from("h2c");
    let a = Protocol::from_static("h2c");
    let b = Protocol::from_str(&text);
    assert!(a == b);
    assert!(a != Protocol::from_static("h2"));
}

#[test]
fn clone_keeps_byte_view() {
    let p = Protocol::try_from(Bytes::from_static(b"websocket")).unwrap();
    let q = p.clone();
    assert_eq!(q.as_bytes(), p.as_bytes());
    assert_eq!(q.as_str(), p.as_str());
    assert!(p == q);
}

#[test]
fn empty_set_reports_every_field_unset() {
    let o = PseudoHeadersOverride::new();
    assert!(o.method.is_none());
    assert!(o.scheme.is_none());
    assert!(o.authority.is_none());
    assert!(o.path.is_none());
    assert!(o.protocol.is_none());
    let d = PseudoHeadersOverride::default();
    assert!(d.method.is_none());
    assert!(d.scheme.is_none());
    assert!(d.authority.is_none());
    assert!(d.path.is_none());
    assert!(d.protocol.is_none());
}

#[test]
fn one_setter_sets_exactly_one_field() {
    let o = PseudoHeadersOverride::new().set_method(Method::GET);
    assert_eq!(o.method, Some(Method::GET));
    assert!(o.scheme.is_none());
    assert!(o.authority.is_none());
    assert!(o.path.is_none());
    assert!(o.protocol.is_none());

    let o = PseudoHeadersOverride::new().set_scheme(Scheme::HTTPS);
    assert!(o.method.is_none());
    assert_eq!(o.scheme, Some(Scheme::HTTPS));
    assert!(o.authority.is_none());
    assert!(o.path.is_none());
    assert!(o.protocol.is_none());

    let o = PseudoHeadersOverride::new().set_authority_str("example.com");
    assert!(o.method.is_none());
    assert!(o.scheme.is_none());
    assert_eq!(o.authority.as_ref().map(|a| a.as_str()), Some("example.com"));
    assert!(o.path.is_none());
    assert!(o.protocol.is_none());

    let o = PseudoHeadersOverride::new().set_path("/a");
    assert!(o.method.is_none());
    assert!(o.scheme.is_none());
    assert!(o.authority.is_none());
    assert_eq!(o.path.as_ref().map(|p| p.as_str()), Some("/a"));
    assert!(o.protocol.is_none());

    let o = PseudoHeadersOverride::new().set_protocol(Protocol::from_static("h2c"));
    assert!(o.method.is_none());
    assert!(o.scheme.is_none());
    assert!(o.authority.is_none());
    assert!(o.path.is_none());
    assert_eq!(o.protocol.as_ref().map(|p| p.as_str()), Some("h2c"));
}

#[test]
fn chaining_order_does_not_matter() {
    let a = PseudoHeadersOverride::new()
        .set_method(Method::CONNECT)
        .set_scheme(Scheme::HTTPS)
        .set_authority_str("example.com")
        .set_path("/chat")
        .set_protocol(Protocol::from_static("websocket"));
    let b = PseudoHeadersOverride::new()
        .set_protocol(Protocol::from_static("websocket"))
        .set_path("/chat")
        .set_authority_str("example.com")
        .set_scheme(Scheme::HTTPS)
        .set_method(Method::CONNECT);
    assert_eq!(a.method, b.method);
    assert_eq!(a.scheme, b.scheme);
    assert_eq!(
        a.authority.as_ref().map(|x| x.as_str()),
        b.authority.as_ref().map(|x| x.as_str())
    );
    assert_eq!(a.path.as_ref().map(|x| x.as_str()), b.path.as_ref().map(|x| x.as_str()));
    assert_eq!(
        a.protocol.as_ref().map(|x| x.as_str()),
        b.protocol.as_ref().map(|x| x.as_str())
    );
    assert_eq!(a.method, Some(Method::CONNECT));
    assert_eq!(a.scheme, Some(Scheme::HTTPS));
    assert_eq!(a.authority.as_ref().map(|x| x.as_str()), Some("example.com"));
    assert_eq!(a.path.as_ref().map(|x| x.as_str()), Some("/chat"));
    assert_eq!(a.protocol.as_ref().map(|x| x.as_str()), Some("websocket"));
}

#[test]
fn builder_scenario_path_and_protocol() {
    let o = PseudoHeadersOverride::new()
        .set_path("/a/b")
        .set_protocol(Protocol::from_static("h2c"));
    assert_eq!(o.path.as_ref().map(|p| p.as_str()), Some("/a/b"));
    assert_eq!(o.protocol.as_ref().map(|p| p.as_str()), Some("h2c"));
    assert!(o.method.is_none());
    assert!(o.scheme.is_none());
    assert!(o.authority.is_none());
}

#[test]
fn parsed_authority_stores_its_text() {
    let authority: Authority = "user@example.com:8080".parse().unwrap();
    let o = PseudoHeadersOverride::new().set_authority(authority);
    assert_eq!(o.authority.as_ref().map(|a| a.as_str()), Some("user@example.com:8080"));
    assert!(o.path.is_none());
}

#[test]
fn parsed_path_and_query_stores_its_text() {
    let pq: PathAndQuery = "/where?q=now".parse().unwrap();
    let o = PseudoHeadersOverride::new().set_path_and_query(pq);
    assert_eq!(o.path.as_ref().map(|p| p.as_str()), Some("/where?q=now"));
    assert!(o.authority.is_none());
}

#[test]
fn override_set_clone_keeps_fields() {
    let o = PseudoHeadersOverride::new()
        .set_method(Method::CONNECT)
        .set_scheme(Scheme::HTTP)
        .set_authority_str("example.net")
        .set_path("/p")
        .set_protocol(Protocol::from_static("websocket"));
    let c = o.clone();
    assert_eq!(c.method, o.method);
    assert_eq!(c.scheme, o.scheme);
    assert_eq!(
        c.authority.as_ref().map(|x| x.as_str()),
        o.authority.as_ref().map(|x| x.as_str())
    );
    assert_eq!(c.path.as_ref().map(|x| x.as_str()), o.path.as_ref().map(|x| x.as_str()));
    assert_eq!(
        c.protocol.as_ref().map(|x| x.as_str()),
        o.protocol.as_ref().map(|x| x.as_str())
    );
}

#[test]
fn last_write_wins_on_repeated_setter() {
    let o = PseudoHeadersOverride::new().set_path("/old").set_path("/new");
    assert_eq!(o.path.as_ref().map(|p| p.as_str()), Some("/new"));
}

#[test]
fn error_value_is_plain_data() {
    let e = Protocol::try_from(Bytes::from_static(b"ab\x80")).unwrap_err();
    let f = e;
    assert_eq!(e, f);
    assert_eq!(e.valid_up_to, 2);
}
