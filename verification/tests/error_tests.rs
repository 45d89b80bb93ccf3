use lib_shim_v2::error::Error;

#[test]
fn messages_name_the_kind_and_carry_the_detail() {
    assert_eq!(
        Error::WithoutInit("c1".to_string()).message(),
        "connection has not been established: c1"
    );
    assert_eq!(
        Error::InvalidArgument("parameter must not be empty!".to_string()).message(),
        "invalid argument:parameter must not be empty!"
    );
    assert_eq!(Error::ShimError("start failed".to_string()).message(), "call shim-v2 failed: start failed");
    assert_eq!(Error::Other("bad address".to_string()).message(), "other error: bad address");
    assert_eq!(Error::IOError("broken pipe".to_string()).message(), "io error: broken pipe");
}

#[test]
fn message_keeps_an_empty_detail_empty() {
    assert_eq!(Error::Other(String::new()).message(), "other error: ");
}
