use cursor_api::api::service::cpp::append_event;

#[test]
fn event_framing() {
    let mut buf = b"x".to_vec();
    append_event(&mut buf, "text", b"{\"a\":1}");
    assert_eq!(buf, b"xevent: text\ndata: {\"a\":1}\n\n".to_vec());
}

#[test]
fn events_follow_each_other() {
    let mut buf = Vec::new();
    append_event(&mut buf, "done_edit", b"{}");
    append_event(&mut buf, "stream_end", b"{}");
    assert_eq!(buf, b"event: done_edit\ndata: {}\n\nevent: stream_end\ndata: {}\n\n".to_vec());
}
