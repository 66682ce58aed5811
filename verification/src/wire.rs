//! The records as the kernel side reads them: the fields one after another
//! in the order in which they are declared, each number with its low byte
//! first and at an offset that is a multiple of its size, with zero bytes in
//! the gaps. This is the layout of the C structures on a 64-bit,
//! little-endian machine.

use vstd::prelude::*;
use crate::command::RecordKind;
use crate::cstr::zeroed;
use crate::record::{
    ExternalDir, Record, SusfsAvcLogSpoofing, SusfsEnabledFeatures, SusfsHideSusMnts, SusfsLog,
    SusfsOpenRedirect, SusfsSpoofCmdline, SusfsSusKstat, SusfsSusMap, SusfsSusPath, SusfsUname,
    SusfsVariant, SusfsVersion,
};

verus! {

/// The four bytes of `x`, low byte first.
#[verifier::opaque]
pub open spec fn le_u32(x: u32) -> Seq<u8> {
    seq![
        (x % 256) as u8,
        (x / 0x100 % 256) as u8,
        (x / 0x1_0000 % 256) as u8,
        (x / 0x100_0000) as u8,
    ]
}

/// The eight bytes of `x`, low byte first.
pub open spec fn le_u64(x: u64) -> Seq<u8> {
    le_u32((x % 0x1_0000_0000) as u32) + le_u32((x / 0x1_0000_0000) as u32)
}

/// The unsigned number with the bits of `x`.
pub open spec fn bits_of_i32(x: i32) -> u32 {
    if x >= 0 {
        x as u32
    } else {
        (x + 0x1_0000_0000) as u32
    }
}

/// The unsigned number with the bits of `x`.
pub open spec fn bits_of_i64(x: i64) -> u64 {
    if x >= 0 {
        x as u64
    } else {
        (x + 0x1_0000_0000_0000_0000) as u64
    }
}

/// The four bytes of `x`, low byte first.
pub open spec fn le_i32(x: i32) -> Seq<u8> {
    le_u32(bits_of_i32(x))
}

/// The eight bytes of `x`, low byte first.
pub open spec fn le_i64(x: i64) -> Seq<u8> {
    le_u64(bits_of_i64(x))
}

/// The byte of a switch: 1 for on, 0 for off.
pub open spec fn le_bool(b: bool) -> Seq<u8> {
    seq![if b { 1u8 } else { 0u8 }]
}

/// The signed number whose four bytes, low byte first, stand in `bytes` from
/// `at` on.
pub open spec fn i32_at(bytes: Seq<u8>, at: int) -> i32 {
    let u = bytes[at] + 0x100 * bytes[at + 1] + 0x1_0000 * bytes[at + 2] + 0x100_0000 * bytes[at
        + 3];
    if u < 0x8000_0000 {
        u as i32
    } else {
        (u - 0x1_0000_0000) as i32
    }
}

/// A number is read back from its four bytes.
pub proof fn lemma_i32_read_back(x: i32)
    ensures
        le_i32(x).len() == 4,
        i32_at(le_i32(x), 0) == x,
{
    reveal(le_u32);
}

/// A number of 32 bits takes four bytes, one of 64 bits eight.
pub proof fn lemma_le_lengths()
    ensures
        forall|x: u32| #[trigger] le_u32(x).len() == 4,
        forall|x: u64| #[trigger] le_u64(x).len() == 8,
        forall|x: i32| #[trigger] le_i32(x).len() == 4,
        forall|x: i64| #[trigger] le_i64(x).len() == 8,
{
    reveal(le_u32);
}

fn put_u32(out: &mut Vec<u8>, x: u32)
    ensures
        final(out)@ == old(out)@ + le_u32(x),
{
    out.push((x % 256) as u8);
    out.push((x / 0x100 % 256) as u8);
    out.push((x / 0x1_0000 % 256) as u8);
    out.push((x / 0x100_0000) as u8);
    reveal(le_u32);
    assert(out@ =~= old(out)@ + le_u32(x));
}

fn put_u64(out: &mut Vec<u8>, x: u64)
    ensures
        final(out)@ == old(out)@ + le_u64(x),
{
    put_u32(out, (x % 0x1_0000_0000) as u32);
    put_u32(out, (x / 0x1_0000_0000) as u32);
    assert(out@ =~= old(out)@ + le_u64(x));
}

fn put_i32(out: &mut Vec<u8>, x: i32)
    ensures
        final(out)@ == old(out)@ + le_i32(x),
{
    let bits: u32 = if x >= 0 {
        x as u32
    } else {
        (x as i64 + 0x1_0000_0000) as u32
    };
    put_u32(out, bits);
}

fn put_i64(out: &mut Vec<u8>, x: i64)
    ensures
        final(out)@ == old(out)@ + le_i64(x),
{
    let bits: u64 = if x >= 0 {
        x as u64
    } else {
        (x as i128 + 0x1_0000_0000_0000_0000) as u64
    };
    put_u64(out, bits);
}

fn put_bool(out: &mut Vec<u8>, b: bool)
    ensures
        final(out)@ == old(out)@ + le_bool(b),
{
    out.push(if b { 1 } else { 0 });
    assert(out@ =~= old(out)@ + le_bool(b));
}

fn put_zeros(out: &mut Vec<u8>, n: usize)
    ensures
        final(out)@ == old(out)@ + zeroed(n as int),
{
    let mut i: usize = 0;
    while i < n
        invariant
            i <= n,
            out@ == old(out)@ + zeroed(i as int),
        decreases n - i,
    {
        out.push(0);
        assert(out@ =~= old(out)@ + zeroed(i + 1));
        i = i + 1;
    }
}

fn put_bytes(out: &mut Vec<u8>, bytes: &[u8])
    ensures
        final(out)@ == old(out)@ + bytes@,
{
    out.extend_from_slice(bytes);
}

impl RecordKind {
    /// The number of bytes of a record of this kind.
    pub open spec fn size_spec(self) -> usize {
        match self {
            RecordKind::SusPath => 272,
            RecordKind::ExternalDir => 268,
            RecordKind::HideSusMnts => 8,
            RecordKind::SusKstat => 376,
            RecordKind::Uname => 136,
            RecordKind::Log => 8,
            RecordKind::SpoofCmdline => 8196,
            RecordKind::OpenRedirect => 528,
            RecordKind::SusMap => 260,
            RecordKind::AvcLogSpoofing => 8,
            RecordKind::EnabledFeatures => 8196,
            RecordKind::Variant => 20,
            RecordKind::Version => 20,
        }
    }

    /// The number of bytes of a record of this kind.
    #[verifier::when_used_as_spec(size_spec)]
    pub fn size(self) -> (r: usize)
        ensures
            r == self.size_spec(),
    {
        match self {
            RecordKind::SusPath => 272,
            RecordKind::ExternalDir => 268,
            RecordKind::HideSusMnts => 8,
            RecordKind::SusKstat => 376,
            RecordKind::Uname => 136,
            RecordKind::Log => 8,
            RecordKind::SpoofCmdline => 8196,
            RecordKind::OpenRedirect => 528,
            RecordKind::SusMap => 260,
            RecordKind::AvcLogSpoofing => 8,
            RecordKind::EnabledFeatures => 8196,
            RecordKind::Variant => 20,
            RecordKind::Version => 20,
        }
    }

    /// Where in a record of this kind the status stands.
    pub open spec fn status_offset_spec(self) -> usize {
        match self {
            RecordKind::SusPath => 268,
            RecordKind::ExternalDir => 264,
            RecordKind::HideSusMnts => 4,
            RecordKind::SusKstat => 368,
            RecordKind::Uname => 132,
            RecordKind::Log => 4,
            RecordKind::SpoofCmdline => 8192,
            RecordKind::OpenRedirect => 520,
            RecordKind::SusMap => 256,
            RecordKind::AvcLogSpoofing => 4,
            RecordKind::EnabledFeatures => 8192,
            RecordKind::Variant => 16,
            RecordKind::Version => 16,
        }
    }

    /// Where in a record of this kind the status stands.
    #[verifier::when_used_as_spec(status_offset_spec)]
    pub fn status_offset(self) -> (r: usize)
        ensures
            r == self.status_offset_spec(),
            r + 4 <= self.size(),
    {
        match self {
            RecordKind::SusPath => 268,
            RecordKind::ExternalDir => 264,
            RecordKind::HideSusMnts => 4,
            RecordKind::SusKstat => 368,
            RecordKind::Uname => 132,
            RecordKind::Log => 4,
            RecordKind::SpoofCmdline => 8192,
            RecordKind::OpenRedirect => 520,
            RecordKind::SusMap => 256,
            RecordKind::AvcLogSpoofing => 4,
            RecordKind::EnabledFeatures => 8192,
            RecordKind::Variant => 16,
            RecordKind::Version => 16,
        }
    }

    /// The capacity of the buffer in which the kernel answers with text; 0
    /// for a kind of record that is not answered with text. The buffer is
    /// the first field of its record.
    pub open spec fn answer_capacity_spec(self) -> usize {
        match self {
            RecordKind::EnabledFeatures => 8192,
            RecordKind::Variant => 16,
            RecordKind::Version => 16,
            _ => 0,
        }
    }

    /// The capacity of the buffer in which the kernel answers with text; 0
    /// for a kind of record that is not answered with text. The buffer is
    /// the first field of its record.
    #[verifier::when_used_as_spec(answer_capacity_spec)]
    pub fn answer_capacity(self) -> (r: usize)
        ensures
            r == self.answer_capacity_spec(),
            r <= self.size(),
    {
        match self {
            RecordKind::EnabledFeatures => 8192,
            RecordKind::Variant => 16,
            RecordKind::Version => 16,
            _ => 0,
        }
    }
}

impl SusfsSusPath {
    /// The bytes of this record.
    pub open spec fn wire(&self) -> Seq<u8> {
        le_u64(self.target_ino) + self.target_pathname@ + le_u32(self.i_uid) + le_i32(self.err)
    }

    /// Lays this record out in bytes.
    pub fn to_bytes(&self) -> (out: Vec<u8>)
        ensures
            out@ == self.wire(),
    {
        let mut out: Vec<u8> = Vec::new();
        put_u64(&mut out, self.target_ino);
        put_bytes(&mut out, self.target_pathname.as_slice());
        put_u32(&mut out, self.i_uid);
        put_i32(&mut out, self.err);
        assert(out@ =~= self.wire());
        out
    }
}

impl ExternalDir {
    /// The bytes of this record.
    pub open spec fn wire(&self) -> Seq<u8> {
        self.target_pathname@ + le_bool(self.is_inited) + zeroed(3) + le_i32(self.cmd) + le_i32(
            self.err,
        )
    }

    /// Lays this record out in bytes.
    pub fn to_bytes(&self) -> (out: Vec<u8>)
        ensures
            out@ == self.wire(),
    {
        let mut out: Vec<u8> = Vec::new();
        put_bytes(&mut out, self.target_pathname.as_slice());
        put_bool(&mut out, self.is_inited);
        put_zeros(&mut out, 3);
        put_i32(&mut out, self.cmd);
        put_i32(&mut out, self.err);
        assert(out@ =~= self.wire());
        out
    }
}

/// The layout that the three records of one switch share.
pub open spec fn switch_wire(enabled: bool, err: i32) -> Seq<u8> {
    le_bool(enabled) + zeroed(3) + le_i32(err)
}

fn switch_to_bytes(enabled: bool, err: i32) -> (out: Vec<u8>)
    ensures
        out@ == switch_wire(enabled, err),
{
    let mut out: Vec<u8> = Vec::new();
    put_bool(&mut out, enabled);
    put_zeros(&mut out, 3);
    put_i32(&mut out, err);
    assert(out@ =~= switch_wire(enabled, err));
    out
}

impl SusfsHideSusMnts {
    /// The bytes of this record.
    pub open spec fn wire(&self) -> Seq<u8> {
        switch_wire(self.enabled, self.err)
    }

    /// Lays this record out in bytes.
    pub fn to_bytes(&self) -> (out: Vec<u8>)
        ensures
            out@ == self.wire(),
    {
        switch_to_bytes(self.enabled, self.err)
    }
}

impl SusfsLog {
    /// The bytes of this record.
    pub open spec fn wire(&self) -> Seq<u8> {
        switch_wire(self.enabled, self.err)
    }

    /// Lays this record out in bytes.
    pub fn to_bytes(&self) -> (out: Vec<u8>)
        ensures
            out@ == self.wire(),
    {
        switch_to_bytes(self.enabled, self.err)
    }
}

impl SusfsAvcLogSpoofing {
    /// The bytes of this record.
    pub open spec fn wire(&self) -> Seq<u8> {
        switch_wire(self.enabled, self.err)
    }

    /// Lays this record out in bytes.
    pub fn to_bytes(&self) -> (out: Vec<u8>)
        ensures
            out@ == self.wire(),
    {
        switch_to_bytes(self.enabled, self.err)
    }
}

impl SusfsSusKstat {
    /// The bytes of this record.
    pub open spec fn wire(&self) -> Seq<u8> {
        le_bool(self.is_statically) + zeroed(7) + le_u64(self.target_ino) + self.target_pathname@
            + le_u64(self.spoofed_ino) + le_u64(self.spoofed_dev) + le_u32(self.spoofed_nlink)
            + zeroed(4) + le_i64(self.spoofed_size) + le_i64(self.spoofed_atime_tv_sec) + le_i64(
            self.spoofed_mtime_tv_sec,
        ) + le_i64(self.spoofed_ctime_tv_sec) + le_i64(self.spoofed_atime_tv_nsec) + le_i64(
            self.spoofed_mtime_tv_nsec,
        ) + le_i64(self.spoofed_ctime_tv_nsec) + le_u64(self.spoofed_blksize) + le_u64(
            self.spoofed_blocks,
        ) + le_i32(self.err) + zeroed(4)
    }

    /// Lays this record out in bytes.
    pub fn to_bytes(&self) -> (out: Vec<u8>)
        ensures
            out@ == self.wire(),
    {
        let mut out: Vec<u8> = Vec::new();
        put_bool(&mut out, self.is_statically);
        put_zeros(&mut out, 7);
        put_u64(&mut out, self.target_ino);
        put_bytes(&mut out, self.target_pathname.as_slice());
        put_u64(&mut out, self.spoofed_ino);
        put_u64(&mut out, self.spoofed_dev);
        put_u32(&mut out, self.spoofed_nlink);
        put_zeros(&mut out, 4);
        put_i64(&mut out, self.spoofed_size);
        put_i64(&mut out, self.spoofed_atime_tv_sec);
        put_i64(&mut out, self.spoofed_mtime_tv_sec);
        put_i64(&mut out, self.spoofed_ctime_tv_sec);
        put_i64(&mut out, self.spoofed_atime_tv_nsec);
        put_i64(&mut out, self.spoofed_mtime_tv_nsec);
        put_i64(&mut out, self.spoofed_ctime_tv_nsec);
        put_u64(&mut out, self.spoofed_blksize);
        put_u64(&mut out, self.spoofed_blocks);
        put_i32(&mut out, self.err);
        put_zeros(&mut out, 4);
        assert(out@ =~= self.wire());
        out
    }
}

impl SusfsUname {
    /// The bytes of this record.
    pub open spec fn wire(&self) -> Seq<u8> {
        self.release@ + self.version@ + zeroed(2) + le_i32(self.err)
    }

    /// Lays this record out in bytes.
    pub fn to_bytes(&self) -> (out: Vec<u8>)
        ensures
            out@ == self.wire(),
    {
        let mut out: Vec<u8> = Vec::new();
        put_bytes(&mut out, self.release.as_slice());
        put_bytes(&mut out, self.version.as_slice());
        put_zeros(&mut out, 2);
        put_i32(&mut out, self.err);
        assert(out@ =~= self.wire());
        out
    }
}

/// The layout of a record that is one buffer and the status.
pub open spec fn buffer_wire(buffer: Seq<u8>, err: i32) -> Seq<u8> {
    buffer + le_i32(err)
}

fn buffer_to_bytes(buffer: &[u8], err: i32) -> (out: Vec<u8>)
    ensures
        out@ == buffer_wire(buffer@, err),
{
    let mut out: Vec<u8> = Vec::new();
    put_bytes(&mut out, buffer);
    put_i32(&mut out, err);
    assert(out@ =~= buffer_wire(buffer@, err));
    out
}

impl SusfsSpoofCmdline {
    /// The bytes of this record.
    pub open spec fn wire(&self) -> Seq<u8> {
        buffer_wire(self.fake_cmdline_or_bootconfig@, self.err)
    }

    /// Lays this record out in bytes.
    pub fn to_bytes(&self) -> (out: Vec<u8>)
        ensures
            out@ == self.wire(),
    {
        buffer_to_bytes(self.fake_cmdline_or_bootconfig.as_slice(), self.err)
    }
}

impl SusfsOpenRedirect {
    /// The bytes of this record.
    pub open spec fn wire(&self) -> Seq<u8> {
        le_u64(self.target_ino) + self.target_pathname@ + self.redirected_pathname@ + le_i32(
            self.err,
        ) + zeroed(4)
    }

    /// Lays this record out in bytes.
    pub fn to_bytes(&self) -> (out: Vec<u8>)
        ensures
            out@ == self.wire(),
    {
        let mut out: Vec<u8> = Vec::new();
        put_u64(&mut out, self.target_ino);
        put_bytes(&mut out, self.target_pathname.as_slice());
        put_bytes(&mut out, self.redirected_pathname.as_slice());
        put_i32(&mut out, self.err);
        put_zeros(&mut out, 4);
        assert(out@ =~= self.wire());
        out
    }
}

impl SusfsSusMap {
    /// The bytes of this record.
    pub open spec fn wire(&self) -> Seq<u8> {
        buffer_wire(self.target_pathname@, self.err)
    }

    /// Lays this record out in bytes.
    pub fn to_bytes(&self) -> (out: Vec<u8>)
        ensures
            out@ == self.wire(),
    {
        buffer_to_bytes(self.target_pathname.as_slice(), self.err)
    }
}

impl SusfsEnabledFeatures {
    /// The bytes of this record.
    pub open spec fn wire(&self) -> Seq<u8> {
        buffer_wire(self.enabled_features@, self.err)
    }

    /// Lays this record out in bytes.
    pub fn to_bytes(&self) -> (out: Vec<u8>)
        ensures
            out@ == self.wire(),
    {
        buffer_to_bytes(self.enabled_features.as_slice(), self.err)
    }
}

impl SusfsVariant {
    /// The bytes of this record.
    pub open spec fn wire(&self) -> Seq<u8> {
        buffer_wire(self.susfs_variant@, self.err)
    }

    /// Lays this record out in bytes.
    pub fn to_bytes(&self) -> (out: Vec<u8>)
        ensures
            out@ == self.wire(),
    {
        buffer_to_bytes(self.susfs_variant.as_slice(), self.err)
    }
}

impl SusfsVersion {
    /// The bytes of this record.
    pub open spec fn wire(&self) -> Seq<u8> {
        buffer_wire(self.susfs_version@, self.err)
    }

    /// Lays this record out in bytes.
    pub fn to_bytes(&self) -> (out: Vec<u8>)
        ensures
            out@ == self.wire(),
    {
        buffer_to_bytes(self.susfs_version.as_slice(), self.err)
    }
}

impl Record {
    /// The bytes of this record.
    pub open spec fn wire(&self) -> Seq<u8> {
        match self {
            Record::SusPath(r) => r.wire(),
            Record::ExternalDir(r) => r.wire(),
            Record::HideSusMnts(r) => r.wire(),
            Record::SusKstat(r) => r.wire(),
            Record::Uname(r) => r.wire(),
            Record::Log(r) => r.wire(),
            Record::SpoofCmdline(r) => r.wire(),
            Record::OpenRedirect(r) => r.wire(),
            Record::SusMap(r) => r.wire(),
            Record::AvcLogSpoofing(r) => r.wire(),
            Record::EnabledFeatures(r) => r.wire(),
            Record::Variant(r) => r.wire(),
            Record::Version(r) => r.wire(),
        }
    }

    /// The bytes of this record, as many as its kind has.
    pub fn to_bytes(&self) -> (out: Vec<u8>)
        ensures
            out@ == self.wire(),
            out@.len() == self.kind().size(),
    {
        proof {
            lemma_record_layout(*self);
        }
        match self {
            Record::SusPath(r) => r.to_bytes(),
            Record::ExternalDir(r) => r.to_bytes(),
            Record::HideSusMnts(r) => r.to_bytes(),
            Record::SusKstat(r) => r.to_bytes(),
            Record::Uname(r) => r.to_bytes(),
            Record::Log(r) => r.to_bytes(),
            Record::SpoofCmdline(r) => r.to_bytes(),
            Record::OpenRedirect(r) => r.to_bytes(),
            Record::SusMap(r) => r.to_bytes(),
            Record::AvcLogSpoofing(r) => r.to_bytes(),
            Record::EnabledFeatures(r) => r.to_bytes(),
            Record::Variant(r) => r.to_bytes(),
            Record::Version(r) => r.to_bytes(),
        }
    }
}

/// A status that stands behind `before` is read back from there, whatever
/// follows it.
proof fn lemma_status_behind(before: Seq<u8>, e: i32, after: Seq<u8>)
    ensures
        (before + le_i32(e) + after).len() == before.len() + 4 + after.len(),
        i32_at(before + le_i32(e) + after, before.len() as int) == e,
{
    let w = before + le_i32(e) + after;
    let at = before.len() as int;
    lemma_i32_read_back(e);
    assert(w[at] == le_i32(e)[0]);
    assert(w[at + 1] == le_i32(e)[1]);
    assert(w[at + 2] == le_i32(e)[2]);
    assert(w[at + 3] == le_i32(e)[3]);
}

/// A status that stands at the end of a buffer is read back from there.
proof fn lemma_buffer_layout(buffer: Seq<u8>, e: i32)
    ensures
        buffer_wire(buffer, e).len() == buffer.len() + 4,
        i32_at(buffer_wire(buffer, e), buffer.len() as int) == e,
        buffer_wire(buffer, e).take(buffer.len() as int) == buffer,
{
    lemma_status_behind(buffer, e, Seq::empty());
    assert(buffer + le_i32(e) + Seq::<u8>::empty() =~= buffer_wire(buffer, e));
    assert(buffer_wire(buffer, e).take(buffer.len() as int) =~= buffer);
}

proof fn lemma_switch_layout(enabled: bool, e: i32)
    ensures
        switch_wire(enabled, e).len() == 8,
        i32_at(switch_wire(enabled, e), 4) == e,
{
    lemma_status_behind(le_bool(enabled) + zeroed(3), e, Seq::empty());
    assert(le_bool(enabled) + zeroed(3) + le_i32(e) + Seq::<u8>::empty() =~= switch_wire(
        enabled,
        e,
    ));
}

proof fn lemma_sus_path_layout(r: SusfsSusPath)
    ensures
        r.wire().len() == 272,
        i32_at(r.wire(), 268) == r.err,
{
    lemma_le_lengths();
    let before = le_u64(r.target_ino) + r.target_pathname@ + le_u32(r.i_uid);
    lemma_status_behind(before, r.err, Seq::empty());
    assert(before + le_i32(r.err) + Seq::<u8>::empty() =~= r.wire());
}

proof fn lemma_external_dir_layout(r: ExternalDir)
    ensures
        r.wire().len() == 268,
        i32_at(r.wire(), 264) == r.err,
{
    lemma_le_lengths();
    let before = r.target_pathname@ + le_bool(r.is_inited) + zeroed(3) + le_i32(r.cmd);
    lemma_status_behind(before, r.err, Seq::empty());
    assert(before + le_i32(r.err) + Seq::<u8>::empty() =~= r.wire());
}

proof fn lemma_sus_kstat_layout(r: SusfsSusKstat)
    ensures
        r.wire().len() == 376,
        i32_at(r.wire(), 368) == r.err,
{
    lemma_le_lengths();
    let before = le_bool(r.is_statically) + zeroed(7) + le_u64(r.target_ino) + r.target_pathname@
        + le_u64(r.spoofed_ino) + le_u64(r.spoofed_dev) + le_u32(r.spoofed_nlink) + zeroed(4)
        + le_i64(r.spoofed_size) + le_i64(r.spoofed_atime_tv_sec) + le_i64(
        r.spoofed_mtime_tv_sec,
    ) + le_i64(r.spoofed_ctime_tv_sec) + le_i64(r.spoofed_atime_tv_nsec) + le_i64(
        r.spoofed_mtime_tv_nsec,
    ) + le_i64(r.spoofed_ctime_tv_nsec) + le_u64(r.spoofed_blksize) + le_u64(r.spoofed_blocks);
    assert(before.len() == 368);
    lemma_status_behind(before, r.err, zeroed(4));
}

proof fn lemma_uname_layout(r: SusfsUname)
    ensures
        r.wire().len() == 136,
        i32_at(r.wire(), 132) == r.err,
{
    let before = r.release@ + r.version@ + zeroed(2);
    lemma_status_behind(before, r.err, Seq::empty());
    assert(before + le_i32(r.err) + Seq::<u8>::empty() =~= r.wire());
}

proof fn lemma_open_redirect_layout(r: SusfsOpenRedirect)
    ensures
        r.wire().len() == 528,
        i32_at(r.wire(), 520) == r.err,
{
    lemma_le_lengths();
    let before = le_u64(r.target_ino) + r.target_pathname@ + r.redirected_pathname@;
    lemma_status_behind(before, r.err, zeroed(4));
    assert(before + le_i32(r.err) + zeroed(4) =~= r.wire());
}

/// The bytes of a record are as many as its kind has, and the status is read
/// back from the place where its kind has it.
pub proof fn lemma_record_layout(record: Record)
    ensures
        record.wire().len() == record.kind().size(),
        i32_at(record.wire(), record.kind().status_offset() as int) == record.err(),
{
    match record {
        Record::SusPath(r) => lemma_sus_path_layout(r),
        Record::ExternalDir(r) => lemma_external_dir_layout(r),
        Record::HideSusMnts(r) => lemma_switch_layout(r.enabled, r.err),
        Record::SusKstat(r) => lemma_sus_kstat_layout(r),
        Record::Uname(r) => lemma_uname_layout(r),
        Record::Log(r) => lemma_switch_layout(r.enabled, r.err),
        Record::SpoofCmdline(r) => lemma_buffer_layout(r.fake_cmdline_or_bootconfig@, r.err),
        Record::OpenRedirect(r) => lemma_open_redirect_layout(r),
        Record::SusMap(r) => lemma_buffer_layout(r.target_pathname@, r.err),
        Record::AvcLogSpoofing(r) => lemma_switch_layout(r.enabled, r.err),
        Record::EnabledFeatures(r) => lemma_buffer_layout(r.enabled_features@, r.err),
        Record::Variant(r) => lemma_buffer_layout(r.susfs_variant@, r.err),
        Record::Version(r) => lemma_buffer_layout(r.susfs_version@, r.err),
    }
}

} // verus!
