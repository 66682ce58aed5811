//! From the record as the kernel side left it to what the caller is told.

use vstd::prelude::*;
use vstd::string::StrSliceExecFns;
use vstd::utf8::encode_utf8;
use crate::command::Command;
use crate::cstr::{
    c_array_to_string, c_str, lemma_echoed_text_reads_back, lemma_text_of_string, text_of, zeroed,
};
use crate::magic::ERR_CMD_NOT_SUPPORTED;
use crate::record::Record;
use crate::wire::{
    buffer_wire, i32_at, le_i32, lemma_i32_read_back, lemma_le_lengths, lemma_record_layout,
};

verus! {

/// How a command ended.
#[derive(Clone, Copy, Debug, PartialEq, Eq, Structural)]
pub enum Outcome {
    /// The kernel side did what was asked.
    Success,
    /// The kernel side was built without this command; `cmd` is its
    /// identifier.
    Unsupported { cmd: u64 },
    /// The kernel side refused, with this status.
    KernelError { status: i32 },
}

/// What the status `err`, found in the record after command `cmd` was sent,
/// says.
pub open spec fn outcome_of(err: i32, cmd: u64) -> Outcome {
    if err == 0 {
        Outcome::Success
    } else if err == ERR_CMD_NOT_SUPPORTED {
        Outcome::Unsupported { cmd }
    } else {
        Outcome::KernelError { status: err }
    }
}

/// Tells what the status `err`, found in the record after command `cmd` was
/// sent, says.
pub fn handle_result(err: i32, cmd: u64) -> (r: Outcome)
    ensures
        r == outcome_of(err, cmd),
{
    if err == 0 {
        Outcome::Success
    } else if err == ERR_CMD_NOT_SUPPORTED {
        Outcome::Unsupported { cmd }
    } else {
        Outcome::KernelError { status: err }
    }
}

/// The sentinel means "unsupported", whichever command was sent.
pub proof fn lemma_sentinel_is_unsupported(command: Command)
    ensures
        outcome_of(ERR_CMD_NOT_SUPPORTED, command.id()) == (Outcome::Unsupported {
            cmd: command.id(),
        }),
{
}

/// What is shown for a version that does not look like one.
pub open spec fn unsupported_text() -> Seq<char> {
    seq!['u', 'n', 's', 'u', 'p', 'p', 'o', 'r', 't']
}

/// What is shown for the version that the kernel side reported: the version
/// where it begins with `v`, and `unsupport` in place of anything else.
pub open spec fn version_text(reported: Seq<char>) -> Seq<char> {
    if reported.len() > 0 && reported[0] == 'v' {
        reported
    } else {
        unsupported_text()
    }
}

/// What is shown for the version that the kernel side reported.
pub fn version_display(reported: String) -> (r: String)
    ensures
        r@ == version_text(reported@),
{
    let known = !reported.as_str().is_empty() && reported.as_str().get_char(0) == 'v';
    if known {
        reported
    } else {
        proof {
            reveal_strlit("unsupport");
            assert("unsupport"@ =~= unsupported_text());
        }
        "unsupport".to_owned()
    }
}

/// The status that stands in `reply`, the record of `command` as it came
/// back.
pub open spec fn status_in(command: Command, reply: Seq<u8>) -> i32 {
    i32_at(reply, command.record_kind().status_offset() as int)
}

/// The text that is shown for what the kernel side wrote into `buffer` in
/// answer to `command`.
pub open spec fn shown_text(command: Command, buffer: Seq<u8>) -> Seq<char> {
    if command == Command::ShowVersion {
        version_text(text_of(c_str(buffer)))
    } else {
        text_of(c_str(buffer))
    }
}

/// The text to show after `command`, if there is any: a query that
/// succeeded is answered in the buffer at the head of its record.
pub open spec fn answer_in(command: Command, reply: Seq<u8>) -> Option<Seq<char>> {
    if command.is_query() && status_in(command, reply) == 0 {
        Some(shown_text(command, reply.take(command.record_kind().answer_capacity() as int)))
    } else {
        None
    }
}

/// What the caller is told of a command: how it ended and, for a query that
/// succeeded, the text to show.
#[derive(Debug, PartialEq, Eq)]
pub struct Decoded {
    pub outcome: Outcome,
    pub text: Option<String>,
}

/// Reads the four bytes of a status that stand in `bytes` from `at` on.
fn read_i32(bytes: &[u8], at: usize) -> (r: i32)
    requires
        at + 4 <= bytes@.len(),
    ensures
        r == i32_at(bytes@, at as int),
{
    let u: u64 = bytes[at] as u64 + 0x100 * (bytes[at + 1] as u64) + 0x1_0000 * (bytes[at
        + 2] as u64) + 0x100_0000 * (bytes[at + 3] as u64);
    if u < 0x8000_0000 {
        u as i32
    } else {
        (u as i64 - 0x1_0000_0000) as i32
    }
}

/// Reads `reply`, the record of `command` as it came back from the kernel
/// side. There is nothing to read in a reply that has not the size of the
/// command's record.
pub fn decode(command: Command, reply: &[u8]) -> (r: Option<Decoded>)
    ensures
        r is Some <==> reply@.len() == command.record_kind().size(),
        r matches Some(d) ==> {
            &&& d.outcome == outcome_of(status_in(command, reply@), command.id())
            &&& match d.text {
                Some(t) => answer_in(command, reply@) == Some(t@),
                None => answer_in(command, reply@) is None,
            }
        },
{
    let kind = command.record_kind();
    if reply.len() != kind.size() {
        return None;
    }
    let err = read_i32(reply, kind.status_offset());
    let outcome = handle_result(err, command.id());
    let capacity = kind.answer_capacity();
    let text = if capacity > 0 && err == 0 {
        let buffer = vstd::slice::slice_subrange(reply, 0, capacity);
        assert(buffer@ == reply@.take(capacity as int));
        let found = c_array_to_string(buffer);
        match command {
            Command::ShowVersion => Some(version_display(found)),
            _ => Some(found),
        }
    } else {
        None
    };
    Some(Decoded { outcome, text })
}

/// A record that comes back as it was sent tells that its command is not
/// supported: every record goes out with the sentinel for a status.
pub proof fn lemma_untouched_record_is_unsupported(command: Command, record: Record)
    requires
        record.kind() == command.record_kind(),
        record.err() == ERR_CMD_NOT_SUPPORTED,
    ensures
        record.wire().len() == command.record_kind().size(),
        outcome_of(status_in(command, record.wire()), command.id()) == (Outcome::Unsupported {
            cmd: command.id(),
        }),
        answer_in(command, record.wire()) is None,
{
    lemma_record_layout(record);
}

/// Text that the kernel side puts into the buffer of a query is the text
/// that is read from the record: for every string without a zero byte that
/// fits into the buffer, with or without room for a zero byte behind it, a
/// record of zero status with the string at the head of its buffer and
/// zero bytes in the rest of it is decoded to that string (for the version,
/// to what is shown for that string).
pub proof fn lemma_answer_is_read_back(command: Command, text: Seq<char>)
    requires
        command.is_query(),
        encode_utf8(text).len() <= command.record_kind().answer_capacity(),
        !encode_utf8(text).contains(0u8),
    ensures
        ({
            let capacity = command.record_kind().answer_capacity() as int;
            let bytes = encode_utf8(text);
            let reply = buffer_wire(bytes + zeroed(capacity - bytes.len()), 0);
            &&& reply.len() == command.record_kind().size()
            &&& outcome_of(status_in(command, reply), command.id()) == Outcome::Success
            &&& answer_in(command, reply) == Some(
                if command == Command::ShowVersion {
                    version_text(text)
                } else {
                    text
                },
            )
        }),
{
    let capacity = command.record_kind().answer_capacity() as int;
    let bytes = encode_utf8(text);
    let buffer = bytes + zeroed(capacity - bytes.len());
    let reply = buffer_wire(buffer, 0);
    lemma_i32_read_back(0);
    lemma_le_lengths();
    assert(reply.len() == capacity + 4);
    assert(reply.take(capacity) =~= buffer);
    let at = command.record_kind().status_offset() as int;
    assert(at == capacity);
    assert(reply[at] == le_i32(0)[0]);
    assert(reply[at + 1] == le_i32(0)[1]);
    assert(reply[at + 2] == le_i32(0)[2]);
    assert(reply[at + 3] == le_i32(0)[3]);
    lemma_echoed_text_reads_back(bytes, capacity);
    lemma_text_of_string(text);
}

} // verus!
