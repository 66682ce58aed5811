//! Fixed-capacity byte buffers that hold zero-terminated text.
//!
//! Text goes into a buffer cut to the capacity less one, with a zero byte
//! behind it. Text comes out of a buffer as the bytes before its first zero
//! byte, or as the whole buffer where it holds none.

use vstd::prelude::*;
use vstd::string::StringSliceAdditionalSpecFns;
use vstd::utf8::*;

verus! {

/// How many bytes of `text` a buffer of `capacity` bytes takes.
pub open spec fn kept_len(capacity: int, text: Seq<u8>) -> int {
    if text.len() < capacity - 1 {
        text.len() as int
    } else {
        capacity - 1
    }
}

/// What a buffer that held `before` holds once `text` has been written into
/// it: the bytes of `text` that it takes, a zero byte right after them, and
/// behind that whatever was there.
pub open spec fn c_array_image(before: Seq<u8>, text: Seq<u8>) -> Seq<u8> {
    let kept = kept_len(before.len() as int, text);
    Seq::new(
        before.len(),
        |i: int|
            if i < kept {
                text[i]
            } else if i == kept {
                0u8
            } else {
                before[i]
            },
    )
}

/// A buffer of `capacity` zero bytes.
pub open spec fn zeroed(capacity: int) -> Seq<u8> {
    Seq::new(capacity as nat, |i: int| 0u8)
}

/// What a fresh buffer of `capacity` bytes holds once `text` has been written
/// into it.
pub open spec fn c_array_of(capacity: int, text: Seq<u8>) -> Seq<u8> {
    c_array_image(zeroed(capacity), text)
}

/// Position of the first zero byte of `buf`; its length where it has none.
pub open spec fn c_str_len(buf: Seq<u8>) -> int
    decreases buf.len(),
{
    if buf.len() == 0 || buf[0] == 0 {
        0
    } else {
        1 + c_str_len(buf.drop_first())
    }
}

/// The text that `buf` holds: its bytes before the first zero byte.
pub open spec fn c_str(buf: Seq<u8>) -> Seq<u8> {
    buf.take(c_str_len(buf))
}

/// What is shown in place of bytes that are no text.
pub open spec fn invalid_placeholder() -> Seq<char> {
    seq!['<', 'i', 'n', 'v', 'a', 'l', 'i', 'd', '>']
}

/// The characters that `bytes` spell in UTF-8, or the placeholder where they
/// spell none.
pub open spec fn text_of(bytes: Seq<u8>) -> Seq<char> {
    if valid_utf8(bytes) {
        decode_utf8(bytes)
    } else {
        invalid_placeholder()
    }
}

/// `k` is the position of the first zero byte of `buf`, or its length where
/// it has none.
pub open spec fn ends_at(buf: Seq<u8>, k: int) -> bool {
    &&& 0 <= k <= buf.len()
    &&& forall|j: int| 0 <= j < k ==> buf[j] != 0
    &&& k < buf.len() ==> buf[k] == 0
}

/// The text of a buffer ends where its first zero byte stands.
pub proof fn lemma_c_str_len(buf: Seq<u8>, k: int)
    requires
        ends_at(buf, k),
    ensures
        c_str_len(buf) == k,
    decreases k,
{
    if k > 0 {
        let rest = buf.drop_first();
        assert(buf[0] != 0);
        assert forall|j: int| 0 <= j < k - 1 implies rest[j] != 0 by {
            assert(rest[j] == buf[j + 1]);
        }
        lemma_c_str_len(rest, k - 1);
    }
}

/// Text without a zero byte that fits into a buffer, terminator included,
/// is read back from it unchanged.
pub proof fn lemma_written_text_reads_back(before: Seq<u8>, text: Seq<u8>)
    requires
        text.len() + 1 <= before.len(),
        !text.contains(0u8),
    ensures
        c_str(c_array_image(before, text)) == text,
{
    let buf = c_array_image(before, text);
    assert forall|j: int| 0 <= j < text.len() implies buf[j] != 0 by {
        assert(text.contains(text[j]));
    }
    lemma_c_str_len(buf, text.len() as int);
    assert(buf.take(text.len() as int) =~= text);
}

/// A string without a zero byte that fits into a buffer, terminator
/// included, is read back from it as the same string.
pub proof fn lemma_written_string_reads_back(before: Seq<u8>, s: Seq<char>)
    requires
        encode_utf8(s).len() + 1 <= before.len(),
        !encode_utf8(s).contains(0u8),
    ensures
        text_of(c_str(c_array_image(before, encode_utf8(s)))) == s,
{
    lemma_written_text_reads_back(before, encode_utf8(s));
    lemma_text_of_string(s);
}

/// Text that does not fit is cut, not refused: a buffer that was given at
/// least as many bytes as it has room for holds the first of them, as many
/// as its capacity less one, and then a zero byte.
pub proof fn lemma_long_text_is_cut(before: Seq<u8>, text: Seq<u8>)
    requires
        before.len() > 0,
        text.len() >= before.len() - 1,
    ensures
        c_array_image(before, text) == text.take(before.len() - 1).push(0u8),
{
    assert(c_array_image(before, text) =~= text.take(before.len() - 1).push(0u8));
}

/// Whatever is written, the buffer keeps its size and holds a zero byte.
pub proof fn lemma_written_buffer_is_terminated(before: Seq<u8>, text: Seq<u8>)
    requires
        before.len() > 0,
    ensures
        c_array_image(before, text).len() == before.len(),
        c_array_image(before, text)[kept_len(before.len() as int, text)] == 0,
        c_str_len(c_array_image(before, text)) <= kept_len(before.len() as int, text),
{
    let buf = c_array_image(before, text);
    let kept = kept_len(before.len() as int, text);
    lemma_c_str_len_bound(buf, kept);
}

/// The text of a buffer ends no later than any of its zero bytes.
proof fn lemma_c_str_len_bound(buf: Seq<u8>, z: int)
    requires
        0 <= z < buf.len(),
        buf[z] == 0,
    ensures
        0 <= c_str_len(buf) <= z,
    decreases z,
{
    if z > 0 && buf[0] != 0 {
        lemma_c_str_len_bound(buf.drop_first(), z - 1);
    }
}

/// A buffer into which text without a zero byte was put, with nothing but
/// zero bytes behind it, gives that text back; also where the text fills the
/// buffer and leaves no room for a zero byte.
pub proof fn lemma_echoed_text_reads_back(text: Seq<u8>, capacity: int)
    requires
        text.len() <= capacity,
        !text.contains(0u8),
    ensures
        c_str(text + zeroed(capacity - text.len())) == text,
{
    let buf = text + zeroed(capacity - text.len());
    assert forall|j: int| 0 <= j < text.len() implies buf[j] != 0 by {
        assert(text.contains(text[j]));
    }
    lemma_c_str_len(buf, text.len() as int);
    assert(buf.take(text.len() as int) =~= text);
}

/// The bytes of a string are read back as that string.
pub proof fn lemma_text_of_string(chars: Seq<char>)
    ensures
        text_of(encode_utf8(chars)) == chars,
{
    encode_utf8_valid_utf8(chars);
    encode_utf8_decode_utf8(chars);
}

/// Copies `s` into `array` as a C string: as many of its bytes as fit before
/// the last cell, then a zero byte. The cells behind the zero byte are left
/// as they were.
pub fn str_to_c_array<const N: usize>(s: &str, array: &mut [u8; N])
    requires
        N > 0,
    ensures
        final(array)@ == c_array_image(old(array)@, s.spec_bytes()),
{
    let bytes = s.as_bytes();
    let len: usize = if bytes.len() < N - 1 {
        bytes.len()
    } else {
        N - 1
    };
    let mut i: usize = 0;
    while i < len
        invariant
            N > 0,
            i <= len,
            len < N,
            len <= bytes@.len(),
            forall|j: int| 0 <= j < i ==> array@[j] == bytes@[j],
            forall|j: int| i <= j < N ==> array@[j] == old(array)@[j],
        decreases len - i,
    {
        array[i] = bytes[i];
        i = i + 1;
    }
    array[len] = 0;
}

/// Length of the text in `buf`: the position of its first zero byte, or the
/// length of `buf` where it holds none.
pub fn c_array_len(buf: &[u8]) -> (n: usize)
    ensures
        n == c_str_len(buf@),
        ends_at(buf@, n as int),
{
    let mut i: usize = 0;
    while i < buf.len() && buf[i] != 0
        invariant
            i <= buf@.len(),
            forall|j: int| 0 <= j < i ==> buf@[j] != 0,
        decreases buf@.len() - i,
    {
        i = i + 1;
    }
    proof {
        lemma_c_str_len(buf@, i as int);
    }
    i
}

/// The text in `buf`, as bytes.
pub fn c_array_to_bytes(buf: &[u8]) -> (r: Vec<u8>)
    ensures
        r@ == c_str(buf@),
{
    let n = c_array_len(buf);
    let mut out: Vec<u8> = Vec::with_capacity(n);
    let mut i: usize = 0;
    while i < n
        invariant
            i <= n <= buf@.len(),
            out@ == buf@.take(i as int),
        decreases n - i,
    {
        out.push(buf[i]);
        assert(buf@.take(i + 1) == buf@.take(i as int).push(buf@[i as int]));
        i = i + 1;
    }
    out
}

/// `String::from_utf8` of the standard library, with its error dropped. It
/// is taken to give a string exactly for well-formed UTF-8, and then the
/// string that these bytes spell.
#[verifier::external_body]
fn string_from_utf8(bytes: Vec<u8>) -> (r: Option<String>)
    ensures
        r is Some <==> valid_utf8(bytes@),
        r matches Some(s) ==> s@ == decode_utf8(bytes@),
{
    String::from_utf8(bytes).ok()
}

/// The text in `buf`, as a string; the placeholder `<invalid>` where the
/// bytes are no UTF-8.
pub fn c_array_to_string(buf: &[u8]) -> (r: String)
    ensures
        r@ == text_of(c_str(buf@)),
{
    match string_from_utf8(c_array_to_bytes(buf)) {
        Some(s) => s,
        None => {
            proof {
                reveal_strlit("<invalid>");
                assert("<invalid>"@ =~= invalid_placeholder());
            }
            "<invalid>".to_owned()
        },
    }
}

} // verus!
