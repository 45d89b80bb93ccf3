use lib_shim_v2::error::Error;
use lib_shim_v2::registry::Registry;

use nix::sys::socket::socketpair;
use nix::sys::socket::AddressFamily;
use nix::sys::socket::SockFlag;
use nix::sys::socket::SockType;

fn test_client() -> ttrpc::Client {
    let (fd, _peer) = socketpair(AddressFamily::Unix, SockType::Stream, None, SockFlag::empty())
        .expect("socketpair");
    ttrpc::Client::new(fd).expect("client")
}

#[test]
fn open_then_lookup_returns_the_handle() {
    let mut reg = Registry::new();
    let id = "c1".to_string();
    reg.new_conn(&id, test_client());
    let store = reg.get_conn(&id).expect("lookup after open");
    assert_eq!(store.container_id, "c1");
}

#[test]
fn lookup_before_open_reports_without_init() {
    let reg = Registry::new();
    match reg.get_conn(&"never-opened".to_string()) {
        Err(Error::WithoutInit(detail)) => assert_eq!(detail, "never-opened"),
        Err(e) => panic!("wrong error: {}", e.message()),
        Ok(_) => panic!("lookup must fail before open"),
    }
}

#[test]
fn close_then_lookup_reports_without_init() {
    let mut reg = Registry::new();
    let id = "c1".to_string();
    reg.new_conn(&id, test_client());
    reg.del_conn(&id);
    match reg.get_conn(&id) {
        Err(Error::WithoutInit(_)) => {}
        Err(e) => panic!("wrong error: {}", e.message()),
        Ok(_) => panic!("lookup must fail after close"),
    }
}

#[test]
fn close_without_open_is_a_noop() {
    let mut reg = Registry::new();
    let kept = "kept".to_string();
    reg.new_conn(&kept, test_client());
    reg.del_conn(&"absent".to_string());
    reg.del_conn(&"absent".to_string());
    assert!(reg.get_conn(&kept).is_ok());
}

#[test]
fn reopen_supersedes_the_entry() {
    let mut reg = Registry::new();
    let id = "c1".to_string();
    reg.new_conn(&id, test_client());
    reg.new_conn(&id, test_client());
    let store = reg.get_conn(&id).expect("lookup after reopen");
    assert_eq!(store.container_id, "c1");
    reg.del_conn(&id);
    assert!(reg.get_conn(&id).is_err());
}

#[test]
fn entries_are_independent_per_identifier() {
    let mut reg = Registry::new();
    reg.new_conn(&"a".to_string(), test_client());
    reg.new_conn(&"b".to_string(), test_client());
    reg.del_conn(&"a".to_string());
    assert!(reg.get_conn(&"a".to_string()).is_err());
    assert!(reg.get_conn(&"b".to_string()).is_ok());
}
