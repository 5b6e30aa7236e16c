use std::cell::Cell;
use std::cell::RefCell;

use vm_launcher::serial::SerialError;
use vm_launcher::serial::chunk_to_lines;

#[test]
fn test_chunk_to_lines() {
    let mut vec = vec![0u8; 4096];
    let message = "Hello".as_bytes();
    let messageWithNewline = "Hello\nHellow".as_bytes();
    vec[..message.len()].clone_from_slice(message);

    let (mut vec, current_index) = chunk_to_lines(vec, message.len(), |f| {
        assert!(false, "No line was ever finished");
    })
    .unwrap();

    assert_eq!(vec.len(), 4096);
    assert_eq!(current_index, message.len());

    vec[current_index..(current_index + message.len())].clone_from_slice(message);

    let (mut vec, current_index) = chunk_to_lines(vec, current_index + message.len(), |f| {
        assert!(false, "No line was ever finished");
    })
    .unwrap();

    assert_eq!(vec.len(), 4096);
    assert_eq!(current_index, message.len() * 2);

    vec[current_index..(current_index + messageWithNewline.len())]
        .clone_from_slice(messageWithNewline);

    let (mut vec, current_index) =
        chunk_to_lines(vec, current_index + messageWithNewline.len(), |f| {
            assert_eq!(f, "HelloHelloHello");
        })
        .unwrap();

    assert_eq!(vec.len(), 4096);
    assert_eq!(current_index, "Hellow".len());

    vec[current_index..(current_index + message.len())].clone_from_slice(message);

    let (mut vec, current_index) = chunk_to_lines(vec, current_index + message.len(), |f| {
        assert!(false, "No line was ever finished");
    })
    .unwrap();

    assert_eq!(vec.len(), 4096);
    assert_eq!(current_index, "Hellow".len() + message.len());

    vec[current_index..(current_index + messageWithNewline.len())]
        .clone_from_slice(messageWithNewline);

    let (vec, current_index) =
        chunk_to_lines(vec, current_index + messageWithNewline.len(), |f| {
            assert_eq!(f, "HellowHelloHello");
        })
        .unwrap();

    assert_eq!(vec.len(), 4096);
    assert_eq!(current_index, "Hellow".len());
}

#[test]
fn partial_line_stays_buffered_until_its_newline() {
    let mut buf = vec![0u8; 4096];
    buf[..5].clone_from_slice("Hello".as_bytes());
    let calls = Cell::new(0usize);
    let (mut buf, used) = chunk_to_lines(buf, 5, |_| {
        calls.set(calls.get() + 1);
    })
    .unwrap();
    assert_eq!(calls.get(), 0);
    assert_eq!(used, 5);
    assert_eq!(&buf[..5], "Hello".as_bytes());

    buf[5..11].clone_from_slice("\nWorld".as_bytes());
    let lines = RefCell::new(Vec::new());
    let (buf, used) = chunk_to_lines(buf, 11, |line| {
        lines.borrow_mut().push(line.to_string());
    })
    .unwrap();
    assert_eq!(lines.into_inner(), vec!["Hello".to_string()]);
    assert_eq!(used, 5);
    assert_eq!(&buf[..5], "World".as_bytes());
    assert_eq!(buf.len(), 4096);
}

#[test]
fn several_lines_come_out_in_order() {
    let mut buf = vec![0u8; 4096];
    let data = "one\ntwo\r\nthree\n\nrest".as_bytes();
    buf[..data.len()].clone_from_slice(data);
    let lines = RefCell::new(Vec::new());
    let (buf, used) = chunk_to_lines(buf, data.len(), |line| {
        lines.borrow_mut().push(line.to_string());
    })
    .unwrap();
    assert_eq!(
        lines.into_inner(),
        vec!["one".to_string(), "two".to_string(), "three".to_string()]
    );
    assert_eq!(used, 4);
    assert_eq!(&buf[..4], "rest".as_bytes());
}

#[test]
fn invalid_bytes_are_reported_not_emitted() {
    let mut buf = vec![0u8; 4096];
    buf[0] = 0xff;
    buf[1] = 0xfe;
    buf[2] = b'\n';
    let calls = Cell::new(0usize);
    let r = chunk_to_lines(buf, 3, |_| {
        calls.set(calls.get() + 1);
    });
    assert!(matches!(r, Err(SerialError::UTF8)));
    assert_eq!(calls.get(), 0);
}

#[test]
fn multibyte_text_decodes_in_lines() {
    let mut buf = vec![0u8; 4096];
    let data = "grün\nrot".as_bytes();
    buf[..data.len()].clone_from_slice(data);
    let lines = RefCell::new(Vec::new());
    let (_, used) = chunk_to_lines(buf, data.len(), |line| {
        lines.borrow_mut().push(line.to_string());
    })
    .unwrap();
    assert_eq!(lines.into_inner(), vec!["grün".to_string()]);
    assert_eq!(used, 3);
}
