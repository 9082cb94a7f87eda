use rust_reddit::response::{append_chunk, decode_body, query_result, QueryError};

#[test]
fn chunks_are_appended_in_order() {
    let mut buf: Vec<u8> = Vec::new();
    assert_eq!(append_chunk(&mut buf, b"{\"a\""), 4);
    assert_eq!(append_chunk(&mut buf, b""), 0);
    assert_eq!(append_chunk(&mut buf, b":1}"), 3);
    assert_eq!(buf, b"{\"a\":1}".to_vec());
}

#[test]
fn object_body_decodes() {
    let value = decode_body(b"{\"a\":1}").unwrap();
    assert!(value.is_object());
    assert_eq!(value["a"].as_i64(), Some(1));
    assert_eq!(value.as_object().unwrap().len(), 1);
}

#[test]
fn non_json_body_is_decode_error() {
    assert!(matches!(decode_body(b"not json"), Err(QueryError::Decode(_))));
}

#[test]
fn empty_body_is_decode_error() {
    assert!(matches!(decode_body(b""), Err(QueryError::Decode(_))));
}

#[test]
fn html_error_page_is_decode_error() {
    assert!(matches!(decode_body(b"<html>404</html>"), Err(QueryError::Decode(_))));
}

#[test]
fn trailing_text_is_decode_error() {
    assert!(matches!(decode_body(b"{} x"), Err(QueryError::Decode(_))));
    assert!(decode_body(b" [1, 2] \n").is_ok());
}

#[test]
fn failed_transfer_is_transport_error() {
    let r = query_result(Err(curl::Error::new(6)));
    match r {
        Err(QueryError::Transport(e)) => assert_eq!(e.code(), 6),
        _ => panic!("expected a transport error"),
    }
}

#[test]
fn transferred_body_is_decoded() {
    let value = query_result(Ok(b"{\"a\":1}".to_vec())).unwrap();
    assert_eq!(value["a"].as_i64(), Some(1));
    assert!(matches!(query_result(Ok(b"not json".to_vec())), Err(QueryError::Decode(_))));
    assert!(matches!(query_result(Ok(Vec::new())), Err(QueryError::Decode(_))));
}
