use tflitec::error::{Error, ErrorKind};

#[test]
fn an_error_has_the_kind_it_was_made_with() {
    let error = Error::new(ErrorKind::InvalidTensorIndex(1, 0));
    assert_eq!(ErrorKind::InvalidTensorIndex(1, 0), error.kind());
}
