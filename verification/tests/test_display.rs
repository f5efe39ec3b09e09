use strict_thiserror::Var;

// The original derives `Error` with an `#[error("...")]` message on this enum.
// That derive is not part of this library, so the test only checks that an
// uninhabited error type can be named; it exercises nothing of the library.
#[allow(dead_code)]
#[derive(Debug)]
pub enum Error {}

#[test]
fn test_void() {
    let _: Error;
}

#[test]
fn test_pointer() {
    let field: Box<i32> = Box::new(-1);
    assert_eq!(format!("{:p}", Var(&field)), format!("{:p}", field));
}
