use vstd::prelude::*;

use crate::error::AppError;

verus! {

/// Maximum size of a single output content in bytes (64 KB).
pub const MAX_CONTENT_SIZE: usize = 65536;

/// Maximum number of output records per session.
pub const MAX_OUTPUTS_PER_SESSION: i64 = 10000;

/// Number of buffered outputs that triggers a flush by default.
pub const DEFAULT_BATCH_SIZE: usize = 100;

/// Interval of the periodic flush, in milliseconds.
pub const DEFAULT_FLUSH_INTERVAL_MS: u64 = 500;

/// Buffered bytes that trigger a flush by default (10 MB).
pub const DEFAULT_MAX_TOTAL_BYTES: usize = 10485760;

/// Length in bytes of the UTF-8 encoding of a text.
pub open spec fn byte_len(text: Seq<char>) -> nat {
    vstd::utf8::encode_utf8(text).len()
}

/// Length in bytes of a string, as `str::len` gives it.
pub fn text_len(s: &str) -> (n: usize)
    ensures
        n == byte_len(s@),
{
    s.as_bytes().len()
}

/// Message of an output that is too large.
pub open spec fn too_large_text() -> Seq<char> {
    "output content exceeds maximum size of 65536 bytes"@
}

/// Message of an output beyond the per-session limit.
pub open spec fn limit_reached_text() -> Seq<char> {
    "session output limit reached (10000 records)"@
}

/// Whether an output of this content and sequence number may be stored.
pub open spec fn output_acceptable(content: Seq<char>, sequence: i64) -> bool {
    byte_len(content) <= MAX_CONTENT_SIZE && sequence < MAX_OUTPUTS_PER_SESSION
}

/// Checks an agent output before it is stored: its content may hold at most
/// 64 KB, and a session may hold at most 10 000 records.
pub fn validate_output(content: &str, sequence: i64) -> (r: Result<(), AppError>)
    ensures
        r is Ok <==> output_acceptable(content@, sequence),
        r is Err ==> r->Err_0 is Validation,
        r is Err && byte_len(content@) > MAX_CONTENT_SIZE ==> r->Err_0.text() == too_large_text(),
        r is Err && byte_len(content@) <= MAX_CONTENT_SIZE ==> r->Err_0.text() == limit_reached_text(),
{
    if text_len(content) > MAX_CONTENT_SIZE {
        return Err(AppError::Validation(String::from_str("output content exceeds maximum size of 65536 bytes")));
    }
    if sequence >= MAX_OUTPUTS_PER_SESSION {
        return Err(AppError::Validation(String::from_str("session output limit reached (10000 records)")));
    }
    Ok(())
}

/// Pending output waiting to be flushed.
#[derive(Debug, Clone)]
pub struct PendingOutput {
    pub session_id: u128,
    pub sequence: i64,
    pub content: String,
}

/// The plain view of a pending output.
pub open spec fn pending_view(p: PendingOutput) -> (u128, i64, Seq<char>) {
    (p.session_id, p.sequence, p.content@)
}

/// Total encoded size of the contents of a sequence of pending outputs.
pub open spec fn total_len(items: Seq<(u128, i64, Seq<char>)>) -> nat
    decreases items.len(),
{
    if items.len() == 0 {
        0
    } else {
        total_len(items.drop_last()) + byte_len(items.last().2)
    }
}

/// Buffers agent outputs so that they can be written in bulk. A flush is due
/// once the buffer holds `batch_size` outputs or `max_total_bytes` bytes.
pub struct OutputBuffer {
    buffer: Vec<PendingOutput>,
    batch_size: usize,
    max_total_bytes: usize,
    total_bytes: usize,
}

impl OutputBuffer {
    /// The outputs held, oldest first.
    pub closed spec fn items(&self) -> Seq<(u128, i64, Seq<char>)> {
        self.buffer@.map_values(|p: PendingOutput| pending_view(p))
    }

    /// The batch size that makes a flush due.
    pub closed spec fn batch_limit(&self) -> nat {
        self.batch_size as nat
    }

    /// The buffered size that makes a flush due.
    pub closed spec fn byte_limit(&self) -> nat {
        self.max_total_bytes as nat
    }

    /// The running count of buffered bytes.
    pub closed spec fn buffered_bytes(&self) -> nat {
        self.total_bytes as nat
    }

    /// The running count of bytes equals the size of the held contents.
    pub closed spec fn wf(&self) -> bool {
        self.total_bytes as nat == total_len(self.items())
    }

    /// An empty buffer with the default limits.
    pub fn new() -> (b: Self)
        ensures
            b.wf(),
            b.items().len() == 0,
            b.buffered_bytes() == 0,
            b.batch_limit() == DEFAULT_BATCH_SIZE,
            b.byte_limit() == DEFAULT_MAX_TOTAL_BYTES,
    {
        let b = OutputBuffer {
            buffer: Vec::new(),
            batch_size: DEFAULT_BATCH_SIZE,
            max_total_bytes: DEFAULT_MAX_TOTAL_BYTES,
            total_bytes: 0,
        };
        assert(b.items() =~= Seq::empty());
        b
    }

    /// An empty buffer with custom limits.
    pub fn with_limits(batch_size: usize, max_total_bytes: usize) -> (b: Self)
        ensures
            b.wf(),
            b.items().len() == 0,
            b.buffered_bytes() == 0,
            b.batch_limit() == batch_size,
            b.byte_limit() == max_total_bytes,
    {
        let b = OutputBuffer { buffer: Vec::new(), batch_size, max_total_bytes, total_bytes: 0 };
        assert(b.items() =~= Seq::empty());
        b
    }

    /// Number of outputs held.
    pub fn len(&self) -> (n: usize)
        ensures
            n == self.items().len(),
    {
        self.buffer.len()
    }

    /// Number of bytes held.
    pub fn total_bytes(&self) -> (n: usize)
        ensures
            n == self.buffered_bytes(),
    {
        self.total_bytes
    }

    /// Adds an output. A refused output (see `validate_output`) leaves the
    /// buffer as it was; an accepted one is appended, and the result says
    /// whether a flush is now due.
    pub fn add(&mut self, session_id: u128, sequence: i64, content: String) -> (r: Result<bool, AppError>)
        requires
            old(self).wf(),
            old(self).buffered_bytes() + MAX_CONTENT_SIZE <= usize::MAX,
        ensures
            final(self).wf(),
            final(self).batch_limit() == old(self).batch_limit(),
            final(self).byte_limit() == old(self).byte_limit(),
            r is Ok <==> output_acceptable(content@, sequence),
            r is Err ==> r->Err_0 is Validation && final(self).items() == old(self).items(),
            r is Ok ==> final(self).items() == old(self).items().push((session_id, sequence, content@)),
            r is Ok ==> final(self).buffered_bytes() == old(self).buffered_bytes() + byte_len(content@),
            r is Ok ==> r->Ok_0 == (final(self).items().len() >= final(self).batch_limit()
                || final(self).buffered_bytes() >= final(self).byte_limit()),
    {
        match validate_output(content.as_str(), sequence) {
            Err(e) => { return Err(e); },
            Ok(()) => {},
        }
        let n = text_len(content.as_str());
        let ghost before = self.items();
        self.buffer.push(PendingOutput { session_id, sequence, content });
        self.total_bytes = self.total_bytes + n;
        proof {
            assert(self.items().drop_last() =~= before);
        }
        Ok(self.buffer.len() >= self.batch_size || self.total_bytes >= self.max_total_bytes)
    }

    /// Takes every held output, oldest first, and leaves the buffer empty.
    pub fn take_pending(&mut self) -> (items: Vec<PendingOutput>)
        requires
            old(self).wf(),
        ensures
            final(self).wf(),
            final(self).items().len() == 0,
            final(self).buffered_bytes() == 0,
            final(self).batch_limit() == old(self).batch_limit(),
            final(self).byte_limit() == old(self).byte_limit(),
            items@.map_values(|p: PendingOutput| pending_view(p)) == old(self).items(),
    {
        let mut items: Vec<PendingOutput> = Vec::new();
        std::mem::swap(&mut items, &mut self.buffer);
        self.total_bytes = 0;
        assert(self.items() =~= Seq::empty());
        items
    }
}

/// Milliseconds in a day.
pub const MILLIS_PER_DAY: i64 = 86400000;

/// Message of a retention too long to compute with.
pub open spec fn retention_too_large_text() -> Seq<char> {
    "retention_days too large"@
}

/// The instant before which outputs of ended sessions are removed: `now`
/// less the retention period. A retention beyond the range of a signed
/// 64-bit count of days is refused.
pub fn retention_cutoff(now: i64, retention_days: u64) -> (r: Result<i64, AppError>)
    requires
        retention_days <= i64::MAX ==> retention_days * MILLIS_PER_DAY <= i64::MAX,
        retention_days <= i64::MAX ==> now - retention_days * MILLIS_PER_DAY >= i64::MIN,
    ensures
        r is Ok <==> retention_days <= i64::MAX,
        r is Ok ==> r->Ok_0 == now - retention_days * MILLIS_PER_DAY,
        r is Err ==> r->Err_0 is Internal && r->Err_0.text() == retention_too_large_text(),
{
    if retention_days > 9223372036854775807u64 {
        return Err(AppError::Internal(String::from_str("retention_days too large")));
    }
    let span: u64 = retention_days * 86400000u64;
    Ok(now - (span as i64))
}

/// The buffer's running byte count always equals the size of what it holds,
/// and a buffer that holds nothing holds no bytes.
pub proof fn lemma_buffer_accounting(b: OutputBuffer)
    requires
        b.wf(),
    ensures
        b.buffered_bytes() == total_len(b.items()),
        b.items().len() == 0 ==> b.buffered_bytes() == 0,
{
}

} // verus!
