use lib_shim_v2::address::abstract_socket_name;
use lib_shim_v2::address::parse_u32;
use lib_shim_v2::address::resolve;
use lib_shim_v2::address::EndpointAddress;
use lib_shim_v2::error::Error;

#[test]
fn resolve_explicit_unix_scheme_is_pathname() {
    let a = resolve("unix:///tmp/s.sock").expect("resolution");
    assert_eq!(a, EndpointAddress::PathnameUnix { path: "/tmp/s.sock".to_string() });
}

#[test]
fn resolve_explicit_unix_scheme_joins_relative_tail_under_root() {
    let a = resolve("unix://tmp/s.sock").expect("resolution");
    assert_eq!(a, EndpointAddress::PathnameUnix { path: "/tmp/s.sock".to_string() });
}

#[test]
fn resolve_ttrpc_unix_scheme_is_pathname() {
    let a = resolve("ttrpc+unix://run/shim.sock").expect("resolution");
    assert_eq!(a, EndpointAddress::PathnameUnix { path: "/run/shim.sock".to_string() });
}

#[test]
fn resolve_bare_address_is_abstract_rooted() {
    let a = resolve("run/shim.sock").expect("resolution");
    assert_eq!(a, EndpointAddress::AbstractUnix { path: "/run/shim.sock".to_string() });
    let b = resolve("/already/rooted").expect("resolution");
    assert_eq!(b, EndpointAddress::AbstractUnix { path: "/already/rooted".to_string() });
}

#[test]
fn resolve_vsock_address() {
    let a = resolve("ttrpc+vsock://3:1024").expect("resolution");
    assert_eq!(a, EndpointAddress::Vsock { cid: 3, port: 1024 });
}

#[test]
fn resolve_vsock_bad_port_fails() {
    let e = resolve("ttrpc+vsock://3:abc").expect_err("must fail");
    assert!(matches!(e, Error::Other(_)));
}

#[test]
fn resolve_vsock_missing_colon_fails() {
    let e = resolve("ttrpc+vsock://3").expect_err("must fail");
    assert_eq!(e.message(), "other error: vsock address 3 is invalid");
}

#[test]
fn resolve_vsock_extra_field_fails() {
    let e = resolve("ttrpc+vsock://1:2:3").expect_err("must fail");
    assert_eq!(e.message(), "other error: vsock address 1:2:3 is invalid");
}

#[test]
fn resolve_vsock_empty_cid_fails() {
    let e = resolve("ttrpc+vsock://:1024").expect_err("must fail");
    assert_eq!(e.message(), "other error: failed to parse cid: ");
}

#[test]
fn resolve_vsock_overflowing_cid_fails() {
    let e = resolve("ttrpc+vsock://4294967296:1").expect_err("must fail");
    assert_eq!(e.message(), "other error: failed to parse cid: 4294967296");
}

#[test]
fn parse_u32_accepts_plain_and_signed_numerals() {
    assert_eq!(parse_u32("0"), Some(0));
    assert_eq!(parse_u32("1024"), Some(1024));
    assert_eq!(parse_u32("+42"), Some(42));
    assert_eq!(parse_u32("0007"), Some(7));
    assert_eq!(parse_u32("4294967295"), Some(u32::MAX));
}

#[test]
fn parse_u32_rejects_malformed_and_overflowing_numerals() {
    assert_eq!(parse_u32(""), None);
    assert_eq!(parse_u32("+"), None);
    assert_eq!(parse_u32("-1"), None);
    assert_eq!(parse_u32(" 1"), None);
    assert_eq!(parse_u32("1x"), None);
    assert_eq!(parse_u32("4294967296"), None);
    assert_eq!(parse_u32("99999999999999999999"), None);
}

#[test]
fn abstract_socket_name_appends_one_trailing_nul() {
    let name = abstract_socket_name("/run/shim");
    assert_eq!(name.as_bytes(), b"/run/shim\0");
}
