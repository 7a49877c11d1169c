use lightningd::validate_args;
use lightningd::Error;

#[test]
fn accepts_default_args() {
    let args = vec!["--regtest"];
    let out = validate_args(args.clone()).unwrap();
    assert_eq!(out, args);
}

#[test]
fn accepts_unrelated_args() {
    let args = vec!["-dbcache=300", "-regtest", "--daemon"];
    let out = validate_args(args.clone()).unwrap();
    assert_eq!(out, args);
}

#[test]
fn accepts_empty_args() {
    let out = validate_args(Vec::new()).unwrap();
    assert!(out.is_empty());
}

#[test]
fn rejects_rpcuser_with_value() {
    let r = validate_args(vec!["--regtest", "-rpcuser=alice"]);
    assert!(matches!(r, Err(Error::RpcUserAndPasswordUsed)));
}

#[test]
fn rejects_bare_rpcpassword() {
    let r = validate_args(vec!["-rpcpassword"]);
    assert!(matches!(r, Err(Error::RpcUserAndPasswordUsed)));
}

#[test]
fn rejects_bare_rpcuser() {
    let r = validate_args(vec!["-rpcuser"]);
    assert!(matches!(r, Err(Error::RpcUserAndPasswordUsed)));
}

#[test]
fn accepts_near_miss_prefix() {
    // "-rpcus" is shorter than the deny-listed flag, and "-rpcauth" is the
    // recommended replacement; neither is rejected.
    let args = vec!["-rpcus", "-rpcauth=alice:deadbeef"];
    let out = validate_args(args.clone()).unwrap();
    assert_eq!(out, args);
}
