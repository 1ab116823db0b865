use kernlog::{format_record, Record, Severity};

const ALL: [Severity; 5] =
    [Severity::Error, Severity::Warn, Severity::Info, Severity::Debug, Severity::Trace];

fn line(severity: Severity, target: &str, message: &str) -> Vec<u8> {
    format_record(&Record { severity, target, message })
}

#[test]
fn priority_codes() {
    assert_eq!(Severity::Error.priority(), 3);
    assert_eq!(Severity::Warn.priority(), 4);
    assert_eq!(Severity::Info.priority(), 5);
    assert_eq!(Severity::Debug.priority(), 6);
    assert_eq!(Severity::Trace.priority(), 7);
}

#[test]
fn ranks_run_from_error_to_trace() {
    for (at, severity) in ALL.iter().enumerate() {
        assert_eq!(usize::from(severity.rank()), at + 1);
        assert_eq!(severity.priority(), severity.rank() + 2);
    }
}

#[test]
fn severities_are_ordered_from_error_to_trace() {
    assert!(Severity::Error < Severity::Warn);
    assert!(Severity::Warn < Severity::Info);
    assert!(Severity::Info < Severity::Debug);
    assert!(Severity::Debug < Severity::Trace);
    for (a, one) in ALL.iter().enumerate() {
        for (b, other) in ALL.iter().enumerate() {
            assert_eq!(one < other, a < b);
            assert_eq!(one <= other, a <= b);
            assert_eq!(one > other, a > b);
            assert_eq!(one >= other, a >= b);
            assert_eq!(one.partial_cmp(other), a.partial_cmp(&b));
        }
    }
}

#[test]
fn warn_record_on_the_wire() {
    assert_eq!(
        line(Severity::Warn, "myapp", "disk nearly full"),
        b"<4>myapp: disk nearly full\n".to_vec()
    );
}

#[test]
fn every_severity_on_the_wire() {
    assert_eq!(line(Severity::Error, "t", "m"), b"<3>t: m\n".to_vec());
    assert_eq!(line(Severity::Warn, "t", "m"), b"<4>t: m\n".to_vec());
    assert_eq!(line(Severity::Info, "t", "m"), b"<5>t: m\n".to_vec());
    assert_eq!(line(Severity::Debug, "t", "m"), b"<6>t: m\n".to_vec());
    assert_eq!(line(Severity::Trace, "t", "m"), b"<7>t: m\n".to_vec());
}

#[test]
fn line_is_as_writeln_renders_it() {
    for severity in ALL {
        let expected = format!("<{}>{}: {}\n", severity.priority(), "kernel::sink", "ready");
        assert_eq!(line(severity, "kernel::sink", "ready"), expected.into_bytes());
    }
}

#[test]
fn empty_target_and_message() {
    assert_eq!(line(Severity::Info, "", ""), b"<5>: \n".to_vec());
}

#[test]
fn newlines_in_the_message_pass_through() {
    assert_eq!(
        line(Severity::Error, "myapp", "first\nsecond\n"),
        b"<3>myapp: first\nsecond\n\n".to_vec()
    );
}

#[test]
fn delimiter_in_the_message_passes_through() {
    assert_eq!(line(Severity::Debug, "a", "b: c"), b"<6>a: b: c\n".to_vec());
}

#[test]
fn text_beyond_ascii_is_sent_as_utf8() {
    let sent = line(Severity::Info, "caf\u{e9}", "\u{2713} done");
    assert_eq!(sent, "<5>caf\u{e9}: \u{2713} done\n".as_bytes().to_vec());
    assert_eq!(sent.len(), 6 + "caf\u{e9}".len() + "\u{2713} done".len());
}

#[test]
fn line_length_is_six_more_than_its_texts() {
    let target = "target";
    let message = "a message of some length";
    assert_eq!(line(Severity::Trace, target, message).len(), target.len() + message.len() + 6);
}

#[test]
fn different_records_make_different_lines() {
    let a = line(Severity::Warn, "disk", "full");
    assert_ne!(a, line(Severity::Error, "disk", "full"));
    assert_ne!(a, line(Severity::Warn, "dis", "k: full"));
    assert_ne!(a, line(Severity::Warn, "disk", "full "));
}
