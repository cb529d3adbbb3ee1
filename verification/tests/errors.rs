use rpc_core::error::{Error, ErrorKind};

#[test]
fn failed_keeps_its_description() {
    let e = Error::failed("no luck".to_string());
    assert_eq!(e.kind, ErrorKind::Failed);
    assert_eq!(e.description, "no luck");
}

#[test]
fn overloaded_keeps_its_description() {
    let e = Error::overloaded("queue full".to_string());
    assert_eq!(e.kind, ErrorKind::Overloaded);
    assert_eq!(e.description, "queue full");
}

#[test]
fn disconnected_keeps_its_description() {
    let e = Error::disconnected("peer left".to_string());
    assert_eq!(e.kind, ErrorKind::Disconnected);
    assert_eq!(e.description, "peer left");
}

#[test]
fn unimplemented_keeps_its_description() {
    let e = Error::unimplemented("method 7".to_string());
    assert_eq!(e.kind, ErrorKind::Unimplemented);
    assert_eq!(e.description, "method 7");
}

#[test]
fn clone_is_equal_and_independent() {
    let e = Error::disconnected("gone".to_string());
    let mut copy = e.clone();
    assert_eq!(copy, e);
    copy.description.push('!');
    assert_eq!(e.description, "gone");
    assert_ne!(copy, e);
}

#[test]
fn kinds_are_told_apart() {
    assert_ne!(ErrorKind::Failed, ErrorKind::Disconnected);
    assert_ne!(ErrorKind::Overloaded, ErrorKind::Unimplemented);
    assert_ne!(Error::failed("x".to_string()), Error::disconnected("x".to_string()));
}

#[test]
fn empty_description_is_allowed() {
    let e = Error::failed(String::new());
    assert_eq!(e.kind, ErrorKind::Failed);
    assert!(e.description.is_empty());
}
