use kamipad::data::error::join;
use kamipad::data::Error as DataError;
use kamipad::data::IOError;
use kamipad::util::Error;
use kamipad::util::ToError;
use std::io;

#[test]
fn io_error_text_is_message_then_cause() {
    let error = IOError::new(io::Error::new(io::ErrorKind::NotFound, "gone"), "reading");
    assert_eq!(error.to_string(), "reading -- gone");
    let error = IOError::new(
        io::Error::new(io::ErrorKind::NotFound, "gone"),
        String::from("writing"),
    );
    assert_eq!(error.to_string(), "writing -- gone");
    let error = IOError::with_message(io::Error::new(io::ErrorKind::Other, ""), String::new());
    assert_eq!(error.to_string(), " -- ");
}

#[test]
fn data_error_text_names_what_was_done() {
    let inner = || IOError::new(io::Error::new(io::ErrorKind::Other, "why"), "what");
    assert_eq!(DataError::Open(inner()).to_string(), "opening the database: what -- why");
    assert_eq!(
        DataError::ReadLock(inner()).to_string(),
        "locking the database for reading: what -- why"
    );
    assert_eq!(
        DataError::WriteLock(inner()).to_string(),
        "locking the database for writing: what -- why"
    );
}

#[test]
fn join_puts_the_pieces_in_order() {
    assert_eq!(join("a", "b", "c"), "abc");
    assert_eq!(join("", "", ""), "");
    assert_eq!(join("left ", "", "right"), "left right");
}

#[test]
fn string_error_is_the_text_of_what_it_was_made_from() {
    assert_eq!(Error::from(42).to_string(), "42");
    assert_eq!(Error::from("text").to_string(), "text");
    assert_eq!(
        Error::from(io::Error::new(io::ErrorKind::Other, "io")).to_string(),
        "io"
    );
    let converted: Error = String::from("from string").into();
    assert_eq!(converted.to_string(), "from string");
    assert_eq!("to err".to_err().to_string(), "to err");
    assert_eq!(String::from("owned").to_err().to_string(), "owned");
}
