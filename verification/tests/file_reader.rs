use pdf_presenter::error::ErrorKind;
use pdf_presenter::file_reader::read_file_bytes;

#[test]
fn read_bytes_come_back_unmodified() {
    let bytes: Vec<u8> = vec![0x25, 0x50, 0x44, 0x46, 0x2d, 0x00, 0xff, 0x0a];
    let result = read_file_bytes(Ok(bytes.clone()));
    assert_eq!(result.unwrap(), bytes);
}

#[test]
fn read_of_an_empty_file_is_empty() {
    let result = read_file_bytes(Ok(Vec::new()));
    assert_eq!(result.unwrap(), Vec::<u8>::new());
}

#[test]
fn read_keeps_the_length_of_a_large_file() {
    let mut bytes: Vec<u8> = Vec::new();
    let mut value: u8 = 0;
    while bytes.len() < 300_000 {
        bytes.push(value);
        value = value.wrapping_add(7);
    }
    let result = read_file_bytes(Ok(bytes.clone())).unwrap();
    assert_eq!(result.len(), 300_000);
    assert_eq!(result, bytes);
}

#[test]
fn failed_read_is_an_io_failure_with_the_system_text() {
    let text = String::from("No such file or directory (os error 2)");
    let result = read_file_bytes(Err(text.clone()));
    match result {
        Err(ErrorKind::IoFailure(message)) => assert_eq!(message, text),
        other => panic!("expected an I/O failure, got {:?}", other),
    }
}

#[test]
fn failed_read_is_never_a_success_or_a_window_failure() {
    let result = read_file_bytes(Err(String::from("Permission denied (os error 13)")));
    assert!(result.is_err());
    let error = result.unwrap_err();
    assert!(error.is_io_failure());
    assert!(!error.is_window_failure());
    assert_eq!(error.message(), "Permission denied (os error 13)");
}
