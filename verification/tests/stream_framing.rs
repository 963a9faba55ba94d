use oanda_rust::stream::{StreamFramer, MAX_MESSAGE_LEN};
use serde_json::Value;

fn frame(chunks: &[&[u8]]) -> (Vec<Vec<u8>>, bool) {
    let mut framer = StreamFramer::new();
    let mut messages = Vec::new();
    let mut overflow = false;
    for chunk in chunks {
        let out = framer.push_chunk(chunk);
        messages.extend(out.messages);
        overflow = out.overflow;
    }
    if let Some(last) = framer.finish() {
        messages.push(last);
    }
    (messages, overflow)
}

#[test]
fn frames_split_utf8_blank_lines_and_final_message() {
    let wire = "\n{\"name\":\"円\"}\r\n \n{\"n\":2}".as_bytes();
    let single: Vec<&[u8]> = wire.chunks(1).collect();
    let (messages, overflow) = frame(&single);
    assert!(!overflow);
    let values: Vec<Value> = messages
        .iter()
        .map(|m| serde_json::from_slice(m).unwrap())
        .collect();
    let expected: Vec<Value> = vec![
        serde_json::from_str("{\"name\":\"円\"}").unwrap(),
        serde_json::from_str("{\"n\":2}").unwrap(),
    ];
    assert_eq!(values, expected);
    let (whole, _) = frame(&[wire]);
    assert_eq!(whole.len(), 2);
    assert_eq!(whole, messages);
}

#[test]
fn messages_do_not_depend_on_chunk_boundaries() {
    let wire = b"  {\"a\":1}\n\n{\"b\":2}\r\n{\"c\":3}";
    let (whole, _) = frame(&[wire]);
    for cut in 0..wire.len() {
        let (left, right) = wire.split_at(cut);
        let (split, _) = frame(&[left, right]);
        assert_eq!(split, whole);
    }
    assert_eq!(
        whole,
        vec![b"{\"a\":1}".to_vec(), b"{\"b\":2}".to_vec(), b"{\"c\":3}".to_vec()]
    );
}

#[test]
fn a_message_is_delivered_only_when_its_newline_arrives() {
    let mut framer = StreamFramer::new();
    assert!(framer.push_chunk(b"{\"n\":").messages.is_empty());
    let out = framer.push_chunk(b"1}\n{\"m\"");
    assert_eq!(out.messages, vec![b"{\"n\":1}".to_vec()]);
    assert_eq!(framer.finish(), Some(b"{\"m\"".to_vec()));
}

#[test]
fn an_over_long_message_stops_the_stream() {
    let mut framer = StreamFramer::new();
    let first = framer.push_chunk(b"{\"ok\":1}\n");
    assert_eq!(first.messages.len(), 1);
    let long = vec![b'x'; MAX_MESSAGE_LEN + 1];
    let out = framer.push_chunk(&long);
    assert!(out.overflow);
    assert!(out.messages.is_empty());
    let after = framer.push_chunk(b"\n{\"later\":2}\n");
    assert!(after.overflow);
    assert!(after.messages.is_empty());
    assert_eq!(framer.finish(), None);
}

#[test]
fn a_message_of_exactly_the_limit_is_delivered() {
    let mut framer = StreamFramer::new();
    let mut line = vec![b'7'; MAX_MESSAGE_LEN];
    line.push(b'\n');
    let out = framer.push_chunk(&line);
    assert!(!out.overflow);
    assert_eq!(out.messages.len(), 1);
    assert_eq!(out.messages[0].len(), MAX_MESSAGE_LEN);
}

#[test]
fn blank_stream_has_no_messages() {
    let (messages, overflow) = frame(&[b" \r\n\t\n", b"   "]);
    assert!(messages.is_empty());
    assert!(!overflow);
}
