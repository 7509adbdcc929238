use scarb_process::{drain_step, LineEvent, LogLevel, OutputStream};

fn drain(stream: OutputStream, events: Vec<LineEvent>) -> Vec<(LogLevel, OutputStream, String)> {
    let mut out = Vec::new();
    for ev in events {
        let step = drain_step(stream, ev);
        if let Some(e) = step.entry {
            out.push((e.level, e.stream, e.text));
        }
        if step.done {
            break;
        }
    }
    out
}

#[test]
fn every_line_logged_once_per_stream() {
    let out_lines = ["first", "second line", "  third  "];
    let err_lines = ["oops", "bad"];
    let mut events: Vec<LineEvent> =
        out_lines.iter().map(|l| LineEvent::Line(l.to_string())).collect();
    events.push(LineEvent::End);
    let logged_out = drain(OutputStream::Stdout, events);
    let mut events: Vec<LineEvent> =
        err_lines.iter().map(|l| LineEvent::Line(l.to_string())).collect();
    events.push(LineEvent::End);
    let logged_err = drain(OutputStream::Stderr, events);

    assert_eq!(logged_out.len(), 3);
    assert_eq!(logged_err.len(), 2);
    for (i, (level, stream, text)) in logged_out.iter().enumerate() {
        assert_eq!(*level, LogLevel::Debug);
        assert_eq!(stream.tag(), "out");
        assert_eq!(text, out_lines[i]);
    }
    for (i, (level, stream, text)) in logged_err.iter().enumerate() {
        assert_eq!(*level, LogLevel::Debug);
        assert_eq!(stream.tag(), "err");
        assert_eq!(text, err_lines[i]);
    }
}

#[test]
fn end_of_stream_logs_nothing_and_stops() {
    let step = drain_step(OutputStream::Stdout, LineEvent::End);
    assert!(step.done);
    assert!(step.entry.is_none());
}

#[test]
fn read_error_is_a_warning_and_ends_stream() {
    let logged = drain(
        OutputStream::Stderr,
        vec![
            LineEvent::Line("a".to_string()),
            LineEvent::ReadError("invalid UTF-8".to_string()),
            LineEvent::Line("never".to_string()),
        ],
    );
    assert_eq!(
        logged,
        vec![
            (LogLevel::Debug, OutputStream::Stderr, "a".to_string()),
            (LogLevel::Warn, OutputStream::Stderr, "invalid UTF-8".to_string()),
        ]
    );
}

#[test]
fn line_continues_draining() {
    let step = drain_step(OutputStream::Stdout, LineEvent::Line("x".to_string()));
    assert!(!step.done);
    let e = step.entry.unwrap();
    assert_eq!(e.text, "x");
    assert_eq!(e.stream, OutputStream::Stdout);
}
