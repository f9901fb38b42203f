//! The diagnostic text of each failure kind.

use tdb::Error;

#[test]
fn each_error_kind_has_its_own_message() {
    assert_eq!(Error::Config("bad toml".to_string()).message(), "config error: bad toml");
    assert_eq!(Error::NotFound.message(), "server not found");
    assert_eq!(Error::InvalidArgument.message(), "invalid argument");
    assert_eq!(Error::Timeout.message(), "connection timed out");
    assert_eq!(Error::Exec("syntax error near FROM".to_string()).message(), "execution error: syntax error near FROM");
    assert_eq!(Error::EmptyResult.message(), "No rows returned");
    assert_eq!(Error::Unimplemented.message(), "operation not implemented");
}
