//! Byte reassembly: from arbitrarily fragmented chunks of one source to
//! complete, newline-terminated lines and the unconsumed tail.

use vstd::prelude::*;

verus! {

/// The line delimiter.
pub const NEWLINE: u8 = 0x0A;

/// The padding byte that hardware transports leave in partially filled reads.
pub const NUL: u8 = 0x00;

/// The predicate that keeps every byte but NUL.
pub open spec fn not_nul() -> spec_fn(u8) -> bool {
    |b: u8| b != NUL
}

/// `bytes` without its NUL bytes, order kept.
pub open spec fn strip_nul(bytes: Seq<u8>) -> Seq<u8> {
    bytes.filter(not_nul())
}

/// No byte of `bytes` is NUL.
pub open spec fn nul_free(bytes: Seq<u8>) -> bool {
    forall|i: int| 0 <= i < bytes.len() ==> bytes[i] != NUL
}

/// No byte of `bytes` is a newline.
pub open spec fn newline_free(bytes: Seq<u8>) -> bool {
    forall|i: int| 0 <= i < bytes.len() ==> bytes[i] != NEWLINE
}

/// `line` is one complete line: it ends in its only newline.
pub open spec fn is_complete_line(line: Seq<u8>) -> bool {
    &&& line.len() > 0
    &&& line.last() == NEWLINE
    &&& newline_free(line.drop_last())
}

/// The result of splitting a buffer: the complete lines, each with its
/// newline, and the bytes after the last newline.
pub struct Split {
    pub lines: Seq<Seq<u8>>,
    pub tail: Seq<u8>,
}

/// Splits `bytes` on every newline, the delimiter staying with the line it
/// ends. Read from left to right: a byte joins the open line, and a newline
/// closes it.
pub open spec fn split_lines(bytes: Seq<u8>) -> Split
    decreases bytes.len(),
{
    if bytes.len() == 0 {
        Split { lines: Seq::empty(), tail: Seq::empty() }
    } else {
        let before = split_lines(bytes.drop_last());
        let open = before.tail.push(bytes.last());
        if bytes.last() == NEWLINE {
            Split { lines: before.lines.push(open), tail: Seq::empty() }
        } else {
            Split { lines: before.lines, tail: open }
        }
    }
}

/// One step of the reassembler: the stored tail of a source and a new chunk
/// give the lines that are now complete and the tail to store.
pub open spec fn reassemble(tail: Seq<u8>, chunk: Seq<u8>) -> Split {
    split_lines(strip_nul(tail + chunk))
}

/// The reassembler run over a whole sequence of chunks of one source,
/// starting with the given stored tail: all lines in the order they were
/// completed, and the tail that is left in storage.
pub open spec fn feed_from(tail: Seq<u8>, chunks: Seq<Seq<u8>>) -> Split
    decreases chunks.len(),
{
    if chunks.len() == 0 {
        Split { lines: Seq::empty(), tail }
    } else {
        let before = feed_from(tail, chunks.drop_last());
        let step = reassemble(before.tail, chunks.last());
        Split { lines: before.lines + step.lines, tail: step.tail }
    }
}

/// The reassembler run over the chunks of a source that has stored nothing
/// yet.
pub open spec fn feed(chunks: Seq<Seq<u8>>) -> Split {
    feed_from(Seq::empty(), chunks)
}

/// The bytes held in a source's storage, as a sequence.
pub open spec fn storage_view(storage: Option<Vec<u8>>) -> Option<Seq<u8>> {
    match storage {
        Some(bytes) => Some(bytes@),
        None => None,
    }
}

/// The tail that a source's storage stands for: a source that has stored
/// nothing yet starts with an empty tail.
pub open spec fn stored_bytes(storage: Option<Seq<u8>>) -> Seq<u8> {
    match storage {
        Some(bytes) => bytes,
        None => Seq::empty(),
    }
}

/// The views of a vector of byte vectors.
pub open spec fn lines_view(lines: Seq<Vec<u8>>) -> Seq<Seq<u8>> {
    lines.map_values(|line: Vec<u8>| line@)
}

/// Stripping NUL bytes commutes with concatenation.
pub proof fn lemma_strip_nul_concat(a: Seq<u8>, b: Seq<u8>)
    ensures
        strip_nul(a + b) == strip_nul(a) + strip_nul(b),
{
    Seq::filter_distributes_over_add(a, b, not_nul());
}

/// Stripping leaves no NUL byte behind.
pub proof fn lemma_strip_nul_is_nul_free(bytes: Seq<u8>)
    ensures
        nul_free(strip_nul(bytes)),
{
    let pred = not_nul();
    assert forall|i: int| 0 <= i < strip_nul(bytes).len() implies strip_nul(bytes)[i] != NUL by {
        bytes.lemma_filter_pred(pred, i);
    }
}

/// Stripping changes nothing where there is no NUL byte.
pub proof fn lemma_strip_nul_of_nul_free(bytes: Seq<u8>)
    requires
        nul_free(bytes),
    ensures
        strip_nul(bytes) == bytes,
    decreases bytes.len(),
{
    reveal(Seq::filter);
    if bytes.len() > 0 {
        lemma_strip_nul_of_nul_free(bytes.drop_last());
        assert(bytes.drop_last().push(bytes.last()) =~= bytes);
    }
}

/// Stripping twice is stripping once.
pub proof fn lemma_strip_nul_idempotent(bytes: Seq<u8>)
    ensures
        strip_nul(strip_nul(bytes)) == strip_nul(bytes),
{
    lemma_strip_nul_is_nul_free(bytes);
    lemma_strip_nul_of_nul_free(strip_nul(bytes));
}

/// What `split_lines` hands out: every line is complete, the tail holds no
/// newline, and lines and tail put together again are the input.
pub proof fn lemma_split_lines_shape(bytes: Seq<u8>)
    ensures
        forall|i: int|
            0 <= i < split_lines(bytes).lines.len() ==> is_complete_line(
                #[trigger] split_lines(bytes).lines[i],
            ),
        newline_free(split_lines(bytes).tail),
        split_lines(bytes).lines.flatten() + split_lines(bytes).tail == bytes,
    decreases bytes.len(),
{
    if bytes.len() == 0 {
        assert(split_lines(bytes).lines.flatten() + split_lines(bytes).tail =~= bytes);
    } else {
        let before = split_lines(bytes.drop_last());
        let now = split_lines(bytes);
        lemma_split_lines_shape(bytes.drop_last());
        let open = before.tail.push(bytes.last());
        if bytes.last() == NEWLINE {
            assert(open.drop_last() =~= before.tail);
            assert forall|i: int| 0 <= i < now.lines.len() implies is_complete_line(
                #[trigger] now.lines[i],
            ) by {
                if i < before.lines.len() {
                    assert(now.lines[i] == before.lines[i]);
                }
            }
            before.lines.lemma_flatten_push(open);
            assert(now.lines.flatten() + now.tail =~= (before.lines.flatten() + before.tail).push(
                bytes.last(),
            ));
        } else {
            assert(now.lines.flatten() + now.tail =~= (before.lines.flatten() + before.tail).push(
                bytes.last(),
            ));
        }
        assert(bytes.drop_last().push(bytes.last()) =~= bytes);
    }
}

/// A buffer without a newline yields no line and stays whole in the tail.
pub proof fn lemma_split_lines_of_newline_free(bytes: Seq<u8>)
    requires
        newline_free(bytes),
    ensures
        split_lines(bytes) == (Split { lines: Seq::empty(), tail: bytes }),
    decreases bytes.len(),
{
    if bytes.len() == 0 {
        assert(bytes =~= Seq::empty());
    } else {
        lemma_split_lines_of_newline_free(bytes.drop_last());
        assert(bytes.drop_last().push(bytes.last()) =~= bytes);
    }
}

/// Splitting can stop anywhere and go on from the tail: the lines of `a + b`
/// are the lines of `a`, then the lines of what `a` left open followed by `b`.
pub proof fn lemma_split_lines_resume(a: Seq<u8>, b: Seq<u8>)
    ensures
        split_lines(a + b).lines == split_lines(a).lines + split_lines(
            split_lines(a).tail + b,
        ).lines,
        split_lines(a + b).tail == split_lines(split_lines(a).tail + b).tail,
    decreases b.len(),
{
    let left = split_lines(a);
    if b.len() == 0 {
        assert(a + b =~= a);
        assert(left.tail + b =~= left.tail);
        lemma_split_lines_shape(a);
        lemma_split_lines_of_newline_free(left.tail);
        assert(left.lines + Seq::<Seq<u8>>::empty() =~= left.lines);
    } else {
        lemma_split_lines_resume(a, b.drop_last());
        assert((a + b).drop_last() =~= a + b.drop_last());
        assert((left.tail + b).drop_last() =~= left.tail + b.drop_last());
        assert((a + b).last() == b.last());
        assert((left.tail + b).last() == b.last());
        let whole = split_lines(a + b.drop_last());
        let resumed = split_lines(left.tail + b.drop_last());
        if b.last() == NEWLINE {
            assert((left.lines + resumed.lines).push(whole.tail.push(b.last())) =~= left.lines
                + resumed.lines.push(resumed.tail.push(b.last())));
        }
    }
}

/// Reassembly is indifferent to where the NUL bytes are stripped: stripping
/// the stored tail and the chunk each on its own, before they are joined,
/// gives the lines and the tail that stripping the joined buffer gives.
pub proof fn law_nul_stripping_ignores_chunk_boundaries(tail: Seq<u8>, chunk: Seq<u8>)
    ensures
        reassemble(tail, chunk) == split_lines(strip_nul(tail) + strip_nul(chunk)),
        reassemble(strip_nul(tail), strip_nul(chunk)) == reassemble(tail, chunk),
{
    lemma_strip_nul_concat(tail, chunk);
    lemma_strip_nul_concat(strip_nul(tail), strip_nul(chunk));
    lemma_strip_nul_idempotent(tail);
    lemma_strip_nul_idempotent(chunk);
}

/// The tail that a step of the reassembler stores holds neither a NUL
/// byte nor a newline.
pub proof fn lemma_stored_tail_is_clean(tail: Seq<u8>, chunk: Seq<u8>)
    ensures
        nul_free(reassemble(tail, chunk).tail),
        newline_free(reassemble(tail, chunk).tail),
{
    let buffer = strip_nul(tail + chunk);
    lemma_strip_nul_is_nul_free(tail + chunk);
    lemma_split_lines_shape(buffer);
    let out = split_lines(buffer);
    assert(out.lines.flatten() + out.tail == buffer);
    assert forall|i: int| 0 <= i < out.tail.len() implies out.tail[i] != NUL by {
        assert(out.tail[i] == buffer[out.lines.flatten().len() + i]);
    }
}

/// Reassembly is correct for every way of cutting a stream into chunks:
/// feeding the chunks of a source one after another yields the lines, in
/// order, and the tail that splitting the whole stream at once yields, the
/// stream being what the source had stored followed by all the chunks.
pub proof fn law_reassembly_ignores_chunking(tail: Seq<u8>, chunks: Seq<Seq<u8>>)
    requires
        chunks.len() > 0,
    ensures
        feed_from(tail, chunks) == split_lines(strip_nul(tail + chunks.flatten())),
    decreases chunks.len(),
{
    let earlier = chunks.drop_last();
    let last = chunks.last();
    assert(earlier.push(last) =~= chunks);
    earlier.lemma_flatten_push(last);
    if earlier.len() == 0 {
        assert(earlier.flatten() =~= Seq::<u8>::empty());
        assert(tail + chunks.flatten() =~= tail + last);
        assert(feed_from(tail, earlier) == (Split { lines: Seq::empty(), tail }));
        assert(Seq::<Seq<u8>>::empty() + reassemble(tail, last).lines =~= reassemble(
            tail,
            last,
        ).lines);
    } else {
        law_reassembly_ignores_chunking(tail, earlier);
        let before = feed_from(tail, earlier);
        let stream = strip_nul(tail + earlier.flatten());
        // what is stored before the last step holds no NUL byte
        assert(before == feed_from(tail, earlier.drop_last().push(earlier.last()))) by {
            assert(earlier.drop_last().push(earlier.last()) =~= earlier);
        }
        lemma_stored_tail_is_clean(feed_from(tail, earlier.drop_last()).tail, earlier.last());
        // the buffer of the last step is the old tail followed by the stripped chunk
        lemma_strip_nul_concat(before.tail, last);
        lemma_strip_nul_of_nul_free(before.tail);
        // the whole stream is the earlier stream followed by the stripped chunk
        assert(tail + chunks.flatten() =~= (tail + earlier.flatten()) + last);
        lemma_strip_nul_concat(tail + earlier.flatten(), last);
        lemma_split_lines_resume(stream, strip_nul(last));
    }
}

/// A stream that ends in a newline is consumed whole: whatever the chunking,
/// nothing is left in storage.
pub proof fn law_terminated_stream_leaves_no_tail(chunks: Seq<Seq<u8>>)
    requires
        strip_nul(chunks.flatten()).len() > 0,
        strip_nul(chunks.flatten()).last() == NEWLINE,
    ensures
        feed(chunks).tail == Seq::<u8>::empty(),
        feed(chunks).lines.flatten() == strip_nul(chunks.flatten()),
{
    if chunks.len() == 0 {
        reveal(Seq::filter);
        assert(chunks.flatten() =~= Seq::<u8>::empty());
    } else {
        law_reassembly_ignores_chunking(Seq::empty(), chunks);
        assert(Seq::<u8>::empty() + chunks.flatten() =~= chunks.flatten());
        let stream = strip_nul(chunks.flatten());
        lemma_split_lines_shape(stream);
        assert(feed(chunks).lines.flatten() + Seq::<u8>::empty() =~= feed(chunks).lines.flatten());
    }
}

/// Removes every NUL byte from `bytes`.
pub fn strip_nul_bytes(bytes: &Vec<u8>) -> (out: Vec<u8>)
    ensures
        out@ == strip_nul(bytes@),
{
    let mut out: Vec<u8> = Vec::new();
    let mut i: usize = 0;
    proof {
        reveal(Seq::filter);
        assert(bytes@.take(0) =~= Seq::<u8>::empty());
    }
    while i < bytes.len()
        invariant
            i <= bytes.len(),
            out@ == strip_nul(bytes@.take(i as int)),
        decreases bytes.len() - i,
    {
        let b = bytes[i];
        proof {
            reveal(Seq::filter);
            assert(bytes@.take(i + 1).drop_last() =~= bytes@.take(i as int));
            assert(bytes@.take(i + 1).last() == b);
        }
        if b != NUL {
            out.push(b);
        }
        i += 1;
    }
    assert(bytes@.take(bytes.len() as int) =~= bytes@);
    out
}

/// Splits `bytes` into its complete lines and the tail after the last
/// newline.
pub fn split_buffer(bytes: &Vec<u8>) -> (out: (Vec<Vec<u8>>, Vec<u8>))
    ensures
        lines_view(out.0@) == split_lines(bytes@).lines,
        out.1@ == split_lines(bytes@).tail,
{
    let mut lines: Vec<Vec<u8>> = Vec::new();
    let mut open: Vec<u8> = Vec::new();
    let mut i: usize = 0;
    proof {
        assert(bytes@.take(0) =~= Seq::<u8>::empty());
        assert(lines_view(lines@) =~= Seq::<Seq<u8>>::empty());
    }
    while i < bytes.len()
        invariant
            i <= bytes.len(),
            lines_view(lines@) == split_lines(bytes@.take(i as int)).lines,
            open@ == split_lines(bytes@.take(i as int)).tail,
        decreases bytes.len() - i,
    {
        let b = bytes[i];
        proof {
            assert(bytes@.take(i + 1).drop_last() =~= bytes@.take(i as int));
            assert(bytes@.take(i + 1).last() == b);
        }
        open.push(b);
        if b == NEWLINE {
            let ghost closed = open@;
            let ghost before = lines@;
            lines.push(open);
            open = Vec::new();
            proof {
                assert(lines_view(lines@) =~= lines_view(before).push(closed));
                assert(open@ =~= Seq::<u8>::empty());
            }
        }
        i += 1;
    }
    assert(bytes@.take(bytes.len() as int) =~= bytes@);
    (lines, open)
}

/// Joins the stored tail of a source with a new chunk, strips the NUL
/// bytes and splits the result into complete lines and the new tail.
pub fn reassemble_chunk(tail: Option<Vec<u8>>, chunk: Vec<u8>) -> (out: (Vec<Vec<u8>>, Vec<u8>))
    ensures
        lines_view(out.0@) == reassemble(stored_bytes(storage_view(tail)), chunk@).lines,
        out.1@ == reassemble(stored_bytes(storage_view(tail)), chunk@).tail,
{
    let mut buffer = match tail {
        Some(bytes) => bytes,
        None => Vec::new(),
    };
    let mut chunk = chunk;
    buffer.append(&mut chunk);
    let clean = strip_nul_bytes(&buffer);
    split_buffer(&clean)
}

} // verus!
