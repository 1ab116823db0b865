//! Records and their bytes on the wire.

use crate::severity::Severity;
use vstd::prelude::*;
use vstd::string::StringSliceAdditionalSpecFns;
use vstd::utf8::encode_utf8_decode_utf8;

verus! {

/// `<`, which opens the priority code.
pub const PRIORITY_OPEN: u8 = 0x3c;

/// `>`, which closes the priority code.
pub const PRIORITY_CLOSE: u8 = 0x3e;

/// `0`, the digit from which the priority digits count.
pub const DIGIT_ZERO: u8 = 0x30;

/// `:`, the first byte of the delimiter between target and message.
pub const COLON: u8 = 0x3a;

/// The space that is the second byte of the delimiter.
pub const SPACE: u8 = 0x20;

/// The line feed that ends a record.
pub const NEWLINE: u8 = 0x0a;

/// One log record as a call site hands it over: the severity, the name of the
/// subsystem that speaks, and the text, which is already rendered.
#[derive(Clone, Copy, Debug)]
pub struct Record<'a> {
    /// How important the record is.
    pub severity: Severity,
    /// The subsystem that speaks.
    pub target: &'a str,
    /// What it says. The text is sent as it is: nothing is escaped, cut or
    /// split, and line feeds in it pass through.
    pub message: &'a str,
}

/// The digit that stands for a severity on the wire: its priority code in
/// decimal, which is a single digit.
pub open spec fn priority_digit(severity: Severity) -> u8 {
    (DIGIT_ZERO + severity.spec_priority()) as u8
}

/// The bytes of one record on the wire: the priority code between `<` and `>`,
/// the target, a colon and a space, the message, and one line feed. Target and
/// message stand as they are, whatever bytes they hold.
pub open spec fn wire_format(severity: Severity, target: Seq<u8>, message: Seq<u8>) -> Seq<u8> {
    seq![PRIORITY_OPEN, priority_digit(severity), PRIORITY_CLOSE] + target + seq![COLON, SPACE]
        + message + seq![NEWLINE]
}

/// Whether the two bytes of the delimiter stand somewhere in `bytes`, one
/// after the other.
pub open spec fn holds_delimiter(bytes: Seq<u8>) -> bool {
    exists|i: int| 0 <= i && i + 1 < bytes.len() && bytes[i] == COLON && #[trigger] bytes[i + 1] == SPACE
}

impl<'a> Record<'a> {
    /// The bytes that this record makes on the wire.
    pub open spec fn spec_line(&self) -> Seq<u8> {
        wire_format(self.severity, self.target.spec_bytes(), self.message.spec_bytes())
    }
}

/// Renders a record into the bytes that the kernel log expects for it.
pub fn format_record(record: &Record) -> (line: Vec<u8>)
    ensures
        line@ == record.spec_line(),
{
    let mut line: Vec<u8> = Vec::new();
    line.push(PRIORITY_OPEN);
    line.push(DIGIT_ZERO + record.severity.priority());
    line.push(PRIORITY_CLOSE);
    line.extend_from_slice(record.target.as_bytes());
    line.push(COLON);
    line.push(SPACE);
    line.extend_from_slice(record.message.as_bytes());
    line.push(NEWLINE);
    assert(line@ =~= record.spec_line());
    line
}

/// Where each part of a record stands in its line: three bytes of priority,
/// the target, the two bytes of the delimiter, the message, the line feed.
pub proof fn lemma_line_layout(severity: Severity, target: Seq<u8>, message: Seq<u8>)
    ensures
        ({
            let line = wire_format(severity, target, message);
            let t = target.len() as int;
            let m = message.len() as int;
            &&& line.len() == t + m + 6
            &&& line[0] == PRIORITY_OPEN
            &&& line[1] == priority_digit(severity)
            &&& line[2] == PRIORITY_CLOSE
            &&& forall|i: int| 0 <= i < t ==> line[3 + i] == #[trigger] target[i]
            &&& line[3 + t] == COLON
            &&& line[4 + t] == SPACE
            &&& forall|i: int| 0 <= i < m ==> line[5 + t + i] == #[trigger] message[i]
            &&& line[5 + t + m] == NEWLINE
        }),
{
}

/// A record whose target and message hold no line feed makes exactly one line:
/// the only line feed of its bytes is the last byte.
pub proof fn lemma_one_record_one_line(severity: Severity, target: Seq<u8>, message: Seq<u8>)
    requires
        !target.contains(NEWLINE),
        !message.contains(NEWLINE),
    ensures
        ({
            let line = wire_format(severity, target, message);
            forall|i: int| 0 <= i < line.len() ==> (#[trigger] line[i] == NEWLINE <==> i == line.len() - 1)
        }),
{
    let line = wire_format(severity, target, message);
    lemma_line_layout(severity, target, message);
    assert forall|i: int| 0 <= i < line.len() implies (#[trigger] line[i] == NEWLINE <==> i
        == line.len() - 1) by {
        if 3 <= i < 3 + target.len() {
            assert(line[i] == target[i - 3]);
            assert(target.contains(target[i - 3]));
        } else if 5 + target.len() <= i < line.len() - 1 {
            assert(line[i] == message[i - 5 - target.len()]);
            assert(message.contains(message[i - 5 - target.len()]));
        }
    }
}

/// The wire format loses nothing: two records whose targets do not hold the
/// delimiter and whose lines are equal have the same severity, the same target
/// and the same message.
pub proof fn lemma_wire_format_injective(
    severity1: Severity,
    target1: Seq<u8>,
    message1: Seq<u8>,
    severity2: Severity,
    target2: Seq<u8>,
    message2: Seq<u8>,
)
    requires
        !holds_delimiter(target1),
        !holds_delimiter(target2),
        wire_format(severity1, target1, message1) == wire_format(severity2, target2, message2),
    ensures
        severity1 == severity2,
        target1 == target2,
        message1 == message2,
{
    let line = wire_format(severity1, target1, message1);
    lemma_line_layout(severity1, target1, message1);
    lemma_line_layout(severity2, target2, message2);
    assert(priority_digit(severity1) == priority_digit(severity2));
    if target1.len() < target2.len() {
        lemma_delimiter_inside_target(line, target1, target2);
    } else if target2.len() < target1.len() {
        lemma_delimiter_inside_target(line, target2, target1);
    }
    assert(target1.len() == target2.len());
    assert(target1 =~= target2) by {
        assert forall|i: int| 0 <= i < target1.len() implies target1[i] == target2[i] by {
            assert(line[3 + i] == target1[i]);
            assert(line[3 + i] == target2[i]);
        }
    }
    assert(message1 =~= message2) by {
        assert forall|i: int| 0 <= i < message1.len() implies message1[i] == message2[i] by {
            assert(line[5 + target1.len() + i] == message1[i]);
            assert(line[5 + target1.len() + i] == message2[i]);
        }
    }
}

/// A line names its record: two records whose targets do not hold the
/// delimiter and whose lines are equal have the same severity, the same target
/// and the same message, as texts.
pub proof fn lemma_line_names_its_record(one: &Record, other: &Record)
    requires
        !holds_delimiter(one.target.spec_bytes()),
        !holds_delimiter(other.target.spec_bytes()),
        one.spec_line() == other.spec_line(),
    ensures
        one.severity == other.severity,
        one.target@ == other.target@,
        one.message@ == other.message@,
{
    lemma_wire_format_injective(
        one.severity,
        one.target.spec_bytes(),
        one.message.spec_bytes(),
        other.severity,
        other.target.spec_bytes(),
        other.message.spec_bytes(),
    );
    encode_utf8_decode_utf8(one.target@);
    encode_utf8_decode_utf8(other.target@);
    encode_utf8_decode_utf8(one.message@);
    encode_utf8_decode_utf8(other.message@);
}

/// A line that can be read with a short target and with a longer one shows the
/// delimiter inside the longer one: the delimiter behind the short target
/// cannot stand across the end of the long one, where a colon follows.
proof fn lemma_delimiter_inside_target(line: Seq<u8>, short: Seq<u8>, long: Seq<u8>)
    requires
        short.len() < long.len(),
        3 + long.len() < line.len(),
        line[3 + short.len() as int] == COLON,
        line[4 + short.len() as int] == SPACE,
        forall|i: int| 0 <= i < long.len() ==> line[3 + i] == #[trigger] long[i],
        line[3 + long.len() as int] == COLON,
    ensures
        holds_delimiter(long),
{
    let at = short.len() as int;
    assert(line[3 + at] == long[at]);
    assert(at + 1 < long.len());
    assert(line[3 + (at + 1)] == long[at + 1]);
    assert(long[at] == COLON && long[at + 1] == SPACE);
}

} // verus!
