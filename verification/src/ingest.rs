use crate::error::{outcome_view, status_of, AppError, AppErrorView};
use vstd::prelude::*;

verus! {

/// The largest upload that the service takes, in bytes: 10 MiB.
pub const MAX_FILE_SIZE: usize = 10485760;

/// The bytes of an upload read so far, together with the limit that they
/// may not pass.
#[derive(Debug)]
pub struct IngestedPayload {
    bytes: Vec<u8>,
    limit: usize,
}

/// A payload as the contracts see it: the bytes read so far and the
/// number of bytes that it may hold at most.
pub struct PayloadView {
    pub bytes: Seq<u8>,
    pub limit: nat,
}

impl View for IngestedPayload {
    type V = PayloadView;

    closed spec fn view(&self) -> PayloadView {
        PayloadView { bytes: self.bytes@, limit: self.limit as nat }
    }
}

impl IngestedPayload {
    #[verifier::type_invariant]
    spec fn within_limit(&self) -> bool {
        self.bytes@.len() <= self.limit
    }

    /// An empty payload that will take up to `max_bytes` bytes.
    pub fn new(max_bytes: usize) -> (payload: IngestedPayload)
        ensures
            payload@ == (PayloadView { bytes: Seq::empty(), limit: max_bytes as nat }),
    {
        IngestedPayload { bytes: Vec::new(), limit: max_bytes }
    }

    /// The number of bytes read so far.
    pub fn size(&self) -> (n: usize)
        ensures
            n == self@.bytes.len(),
            n <= self@.limit,
    {
        proof {
            use_type_invariant(self);
        }
        self.bytes.len()
    }

    /// Adds one chunk, unless the payload would then pass its limit: in
    /// that case nothing is added and the upload is refused.
    pub fn push_chunk(&mut self, chunk: &[u8]) -> (outcome: Result<(), AppError>)
        ensures
            final(self)@.limit == old(self)@.limit,
            final(self)@.bytes.len() <= final(self)@.limit,
            old(self)@.bytes.len() + chunk@.len() <= old(self)@.limit ==> outcome is Ok
                && final(self)@.bytes == old(self)@.bytes + chunk@,
            old(self)@.bytes.len() + chunk@.len() > old(self)@.limit ==> final(self)@ == old(self)@
                && (outcome matches Err(e) && e@ == AppErrorView::PayloadTooLarge(
                old(self)@.limit,
            )),
    {
        proof {
            use_type_invariant(&*self);
        }
        if chunk.len() > self.limit - self.bytes.len() {
            return Err(AppError::PayloadTooLarge(self.limit));
        }
        let mut bytes: Vec<u8> = Vec::new();
        core::mem::swap(&mut self.bytes, &mut bytes);
        let ghost before = bytes@;
        bytes.extend_from_slice(chunk);
        assert(bytes@ =~= before + chunk@);
        self.bytes = bytes;
        Ok(())
    }

    /// Gives up the bytes read.
    pub fn into_bytes(self) -> (bytes: Vec<u8>)
        ensures
            bytes@ == self@.bytes,
    {
        self.bytes
    }
}

/// What reading a stream of chunks gives, starting from the bytes `acc`
/// already read: all the bytes in order, or the first failure. A chunk
/// that could not be read is a decode failure with its detail; a chunk
/// that would take the total past `max` is a payload too large.
pub open spec fn ingested(acc: Seq<u8>, chunks: Seq<Result<Vec<u8>, String>>, max: nat) -> Result<
    Seq<u8>,
    AppErrorView,
>
    decreases chunks.len(),
{
    if chunks.len() == 0 {
        Ok(acc)
    } else {
        match chunks[0] {
            Err(detail) => Err(AppErrorView::DecodeFailure(detail@)),
            Ok(data) => if acc.len() + data@.len() > max {
                Err(AppErrorView::PayloadTooLarge(max))
            } else {
                ingested(acc + data@, chunks.drop_first(), max)
            },
        }
    }
}

/// Reads a stream of chunks, each either bytes or the detail of a read
/// failure, into one buffer of at most `max_bytes` bytes. Stops at the
/// first chunk that fails or that would pass the limit.
pub fn read_bounded(chunks: &Vec<Result<Vec<u8>, String>>, max_bytes: usize) -> (outcome: Result<
    Vec<u8>,
    AppError,
>)
    ensures
        outcome_view(outcome) == ingested(Seq::empty(), chunks@, max_bytes as nat),
{
    let mut payload = IngestedPayload::new(max_bytes);
    let mut i: usize = 0;
    assert(chunks@.skip(0) =~= chunks@);
    while i < chunks.len()
        invariant
            i <= chunks.len(),
            payload@.limit == max_bytes,
            ingested(Seq::empty(), chunks@, max_bytes as nat) == ingested(
                payload@.bytes,
                chunks@.skip(i as int),
                max_bytes as nat,
            ),
        decreases chunks.len() - i,
    {
        proof {
            assert(chunks@.skip(i as int)[0] == chunks@[i as int]);
            assert(chunks@.skip(i as int).drop_first() =~= chunks@.skip(i + 1));
        }
        match &chunks[i] {
            Err(detail) => {
                return Err(AppError::DecodeFailure(detail.clone()));
            },
            Ok(data) => {
                match payload.push_chunk(data.as_slice()) {
                    Err(e) => {
                        return Err(e);
                    },
                    Ok(()) => {},
                }
            },
        }
        i += 1;
    }
    Ok(payload.into_bytes())
}

/// The number of bytes in a stream of chunks, failed chunks counting
/// nothing.
pub open spec fn total_len(chunks: Seq<Result<Vec<u8>, String>>) -> nat
    decreases chunks.len(),
{
    if chunks.len() == 0 {
        0
    } else {
        (match chunks[0] {
            Ok(data) => data@.len(),
            Err(_) => 0,
        }) + total_len(chunks.drop_first())
    }
}

/// All the bytes of a stream of chunks, in order.
pub open spec fn all_bytes(chunks: Seq<Result<Vec<u8>, String>>) -> Seq<u8>
    decreases chunks.len(),
{
    if chunks.len() == 0 {
        Seq::empty()
    } else {
        (match chunks[0] {
            Ok(data) => data@,
            Err(_) => Seq::empty(),
        }) + all_bytes(chunks.drop_first())
    }
}

/// Whether every chunk of a stream was read.
pub open spec fn all_read(chunks: Seq<Result<Vec<u8>, String>>) -> bool {
    forall|i: int| 0 <= i < chunks.len() ==> chunks[i] is Ok
}

/// A stream whose chunks were all read and that holds more bytes than the
/// limit is refused as too large, with the limit in the error, and the
/// error is answered with status 413.
pub proof fn lemma_oversized_is_refused(
    acc: Seq<u8>,
    chunks: Seq<Result<Vec<u8>, String>>,
    max: nat,
)
    requires
        all_read(chunks),
        acc.len() <= max,
        acc.len() + total_len(chunks) > max,
    ensures
        ingested(acc, chunks, max) == Err::<Seq<u8>, AppErrorView>(
            AppErrorView::PayloadTooLarge(max),
        ),
        status_of(AppErrorView::PayloadTooLarge(max)) == 413,
    decreases chunks.len(),
{
    if chunks.len() > 0 {
        let data = chunks[0]->Ok_0;
        if acc.len() + data@.len() <= max {
            let rest = chunks.drop_first();
            assert forall|i: int| 0 <= i < rest.len() implies rest[i] is Ok by {
                assert(rest[i] == chunks[i + 1]);
            }
            lemma_oversized_is_refused(acc + data@, rest, max);
        }
    }
}

/// A stream whose chunks were all read and that holds no more bytes than
/// the limit is taken whole: the result is all its bytes, in order.
pub proof fn lemma_within_limit_is_taken(
    acc: Seq<u8>,
    chunks: Seq<Result<Vec<u8>, String>>,
    max: nat,
)
    requires
        all_read(chunks),
        acc.len() + total_len(chunks) <= max,
    ensures
        ingested(acc, chunks, max) == Ok::<Seq<u8>, AppErrorView>(acc + all_bytes(chunks)),
    decreases chunks.len(),
{
    if chunks.len() == 0 {
        assert(acc + all_bytes(chunks) =~= acc);
    } else {
        let data = chunks[0]->Ok_0;
        let rest = chunks.drop_first();
        assert forall|i: int| 0 <= i < rest.len() implies rest[i] is Ok by {
            assert(rest[i] == chunks[i + 1]);
        }
        lemma_within_limit_is_taken(acc + data@, rest, max);
        assert((acc + data@) + all_bytes(rest) =~= acc + all_bytes(chunks));
    }
}

/// The first chunk that could not be read, when everything before it
/// fits, ends the read with a decode failure that carries its detail.
pub proof fn lemma_failed_chunk_is_decode_failure(
    acc: Seq<u8>,
    chunks: Seq<Result<Vec<u8>, String>>,
    max: nat,
    at: int,
)
    requires
        0 <= at < chunks.len(),
        chunks[at] is Err,
        all_read(chunks.take(at)),
        acc.len() + total_len(chunks.take(at)) <= max,
    ensures
        ingested(acc, chunks, max) == Err::<Seq<u8>, AppErrorView>(
            AppErrorView::DecodeFailure(chunks[at]->Err_0@),
        ),
    decreases at,
{
    if at > 0 {
        let head = chunks.take(at);
        assert(head[0] == chunks[0]);
        let data = chunks[0]->Ok_0;
        let rest = chunks.drop_first();
        let front = rest.take(at - 1);
        assert(front =~= head.drop_first());
        assert forall|i: int| 0 <= i < front.len() implies front[i] is Ok by {
            assert(front[i] == head[i + 1]);
        }
        lemma_failed_chunk_is_decode_failure(acc + data@, rest, max, at - 1);
    } else {
        assert(chunks.take(0) =~= Seq::empty());
    }
}

} // verus!
