use bytes::BytesMut;
use fast_chat::openai::sse::{drain_events, feed, find_event_boundary, next_event};

#[test]
fn boundary_is_the_earliest_blank_line() {
    assert_eq!(find_event_boundary(b"data: a\n\ndata: b\r\n\r\n"), Some(7));
    assert_eq!(find_event_boundary(b"data: a\r\n\r\ndata: b\n\n"), Some(7));
    assert_eq!(find_event_boundary(b"data: a\n"), None);
    assert_eq!(find_event_boundary(b""), None);
}

#[test]
fn next_event_consumes_block_and_delimiter() {
    let mut buf = BytesMut::new();
    buf.extend_from_slice(b"data: a\r\n\r\ndata: b");
    assert_eq!(next_event(&mut buf), Some(b"data: a".to_vec()));
    assert_eq!(&buf[..], b"data: b");
    assert_eq!(next_event(&mut buf), None);
    assert_eq!(&buf[..], b"data: b");
}

#[test]
fn drain_takes_every_complete_block() {
    let mut buf = BytesMut::new();
    buf.extend_from_slice(b"a\n\nb\r\n\r\nc\n\npartial");
    let blocks = drain_events(&mut buf);
    assert_eq!(blocks, vec![b"a".to_vec(), b"b".to_vec(), b"c".to_vec()]);
    assert_eq!(&buf[..], b"partial");
}

#[test]
fn delimiter_split_across_chunks() {
    let mut buf = BytesMut::new();
    assert_eq!(feed(&mut buf, b"data: x\r\n\r"), Vec::<Vec<u8>>::new());
    assert_eq!(feed(&mut buf, b"\ndata: y\n"), vec![b"data: x".to_vec()]);
    assert_eq!(feed(&mut buf, b"\n"), vec![b"data: y".to_vec()]);
    assert_eq!(&buf[..], b"");
}

#[test]
fn any_split_frames_like_the_whole() {
    let whole: &[u8] = b"data: one\n\nevent: e\r\ndata: two\r\n\r\ndata: three\n\n";
    let mut all = BytesMut::new();
    let expected = feed(&mut all, whole);
    assert_eq!(expected.len(), 3);
    let mut cut: usize = 0;
    while cut <= whole.len() {
        let mut buf = BytesMut::new();
        let mut got = feed(&mut buf, &whole[..cut]);
        got.extend(feed(&mut buf, &whole[cut..]));
        assert_eq!(got, expected);
        assert_eq!(&buf[..], &all[..]);
        cut += 1;
    }
    let mut buf = BytesMut::new();
    let mut got: Vec<Vec<u8>> = Vec::new();
    for b in whole {
        got.extend(feed(&mut buf, &[*b]));
    }
    assert_eq!(got, expected);
}
