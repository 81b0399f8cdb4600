use lian::demux::{line_event, OutputEvent, StreamDemux, StreamSource, Terminator};

fn shown(events: &[OutputEvent]) -> Vec<String> {
    events
        .iter()
        .map(|e| match e {
            OutputEvent::LogLine { text, source } => match source {
                StreamSource::Stdout => format!("out:{}", text),
                StreamSource::Stderr => format!("err:{}", text),
            },
            OutputEvent::ProgressLine { text } => format!("progress:{}", text),
        })
        .collect()
}

fn one_shot(bytes: &[u8], source: StreamSource) -> (Vec<String>, String) {
    let mut d = StreamDemux::new(source);
    let mut events = d.feed(bytes);
    events.extend(d.finish());
    (shown(&events), d.captured.clone())
}

fn chunked(bytes: &[u8], size: usize, source: StreamSource) -> (Vec<String>, String) {
    let mut d = StreamDemux::new(source);
    let mut events = Vec::new();
    for chunk in bytes.chunks(size) {
        events.extend(d.feed(chunk));
    }
    events.extend(d.finish());
    (shown(&events), d.captured.clone())
}

#[test]
fn newline_ends_a_log_line() {
    let mut d = StreamDemux::new(StreamSource::Stdout);
    let events = d.feed(b"hello\nwor");
    assert_eq!(shown(&events), vec!["out:hello".to_string()]);
    assert_eq!(d.buffer, b"wor".to_vec());
    let events = d.feed(b"ld\n");
    assert_eq!(shown(&events), vec!["out:world".to_string()]);
    assert!(d.buffer.is_empty());
    assert_eq!(d.captured, "hello\nworld\n");
}

#[test]
fn carriage_return_ends_a_progress_update() {
    let mut d = StreamDemux::new(StreamSource::Stdout);
    let events = d.feed(b" 10%\r 20%\rdone\n");
    assert_eq!(
        shown(&events),
        vec!["progress: 10%".to_string(), "progress: 20%".to_string(), "out:done".to_string()]
    );
    assert_eq!(d.captured, "done\n");
}

#[test]
fn blank_lines_give_no_event() {
    let (events, captured) = one_shot(b"\n\n  \n\r\r\nx\n", StreamSource::Stdout);
    assert_eq!(events, vec!["out:x".to_string()]);
    assert_eq!(captured, "x\n");
}

#[test]
fn end_of_stream_flushes_the_rest_as_a_log_line() {
    let mut d = StreamDemux::new(StreamSource::Stderr);
    let events = d.feed(b"partial");
    assert!(events.is_empty());
    let events = d.finish();
    assert_eq!(shown(&events), vec!["err:partial".to_string()]);
    assert!(d.buffer.is_empty());
    assert!(d.finish().is_empty());
}

#[test]
fn escape_sequences_are_stripped_from_lines() {
    let (events, _) = one_shot(b"\x1b[31mError\x1b[0m: failed\n", StreamSource::Stderr);
    assert_eq!(events, vec!["err:Error: failed".to_string()]);
}

#[test]
fn chunking_does_not_change_the_events() {
    let input = "下载 firefox 10%\r下载 firefox 55%\r下载完成 ✓\nwarning: 警告\r\n\nlast line without end"
        .as_bytes();
    let whole = one_shot(input, StreamSource::Stdout);
    assert_eq!(whole.0.len(), 5);
    for size in 1..=input.len() {
        assert_eq!(chunked(input, size, StreamSource::Stdout), whole, "chunk size {}", size);
    }
}

#[test]
fn a_character_split_across_chunks_is_decoded_whole() {
    let bytes = "包管理\n".as_bytes();
    let mut d = StreamDemux::new(StreamSource::Stdout);
    let mut events = d.feed(&bytes[..1]);
    assert!(events.is_empty());
    events.extend(d.feed(&bytes[1..4]));
    assert!(events.is_empty());
    events.extend(d.feed(&bytes[4..]));
    assert_eq!(shown(&events), vec!["out:包管理".to_string()]);
}

#[test]
fn invalid_bytes_are_replaced() {
    let (events, captured) = one_shot(b"ab\xffcd\n", StreamSource::Stdout);
    assert_eq!(events, vec!["out:ab\u{fffd}cd".to_string()]);
    assert_eq!(captured, "ab\u{fffd}cd\n");
}

#[test]
fn line_event_by_terminator() {
    match line_event("  50% ", Terminator::Return, StreamSource::Stdout) {
        Some(OutputEvent::ProgressLine { text }) => assert_eq!(text, "  50% "),
        other => panic!("unexpected {:?}", other),
    }
    match line_event("text", Terminator::Newline, StreamSource::Stderr) {
        Some(OutputEvent::LogLine { text, source }) => {
            assert_eq!(text, "text");
            assert_eq!(source, StreamSource::Stderr);
        }
        other => panic!("unexpected {:?}", other),
    }
    match line_event("tail", Terminator::End, StreamSource::Stdout) {
        Some(OutputEvent::LogLine { text, source }) => {
            assert_eq!(text, "tail");
            assert_eq!(source, StreamSource::Stdout);
        }
        other => panic!("unexpected {:?}", other),
    }
    assert!(line_event("   ", Terminator::Newline, StreamSource::Stdout).is_none());
    assert!(line_event("\x1b[0m", Terminator::Return, StreamSource::Stdout).is_none());
}

#[test]
fn messages_mark_progress_and_error_output() {
    let p = OutputEvent::ProgressLine { text: "10%".to_string() };
    assert_eq!(p.to_message(), "PROGRESS:10%");
    let e = OutputEvent::LogLine { text: "bad".to_string(), source: StreamSource::Stderr };
    assert_eq!(e.to_message(), "⚠ bad");
    let o = OutputEvent::LogLine { text: "fine".to_string(), source: StreamSource::Stdout };
    assert_eq!(o.to_message(), "fine");
}

#[test]
fn three_lines_are_captured_in_order() {
    let (events, captured) = one_shot(b"line1\nline2\nline3\n", StreamSource::Stdout);
    assert_eq!(
        events,
        vec!["out:line1".to_string(), "out:line2".to_string(), "out:line3".to_string()]
    );
    assert_eq!(captured, "line1\nline2\nline3\n");
}
