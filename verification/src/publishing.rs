//! Publishing a world's data over MQTT: what fits in one message, and how a
//! large world's data is compressed and cut into chunks that each fit the
//! broker's limit. The world's data arrives already serialized.
use vstd::prelude::*;
use crate::text::{concat, format_i64, format_u64, has_prefix, int_decimal, nat_decimal};

verus! {

broadcast use vstd::string::group_string_axioms;

/// The largest message the broker accepts, in bytes.
pub const MAX_MQTT_MESSAGE_SIZE: usize = 1048576;

/// The compressed bytes a chunk carries at most: 60% of the message limit,
/// rounded down.
pub const TARGET_CHUNK_DATA_SIZE: usize = 629145;

/// The most chunks a world's data may take.
pub const MAX_CHUNKS: u32 = 1000;

/// Whether a payload of this many bytes goes out as one message.
pub fn fits_in_one_message(size: usize) -> (b: bool)
    ensures
        b == (size <= MAX_MQTT_MESSAGE_SIZE),
{
    size <= MAX_MQTT_MESSAGE_SIZE
}

/// The topic a world's data chunks are published on.
pub fn chunk_topic(world_id: &str) -> (t: String)
    ensures
        t@ == "iotcraft/worlds/"@ + world_id@ + "/data/chunk"@,
{
    let mut t = concat("iotcraft/worlds/", world_id);
    t.append("/data/chunk");
    t
}

/// One piece of a world's compressed data.
#[derive(Debug)]
pub struct ChunkedWorldData {
    /// The same for every chunk of one publication.
    pub chunk_id: String,
    /// Counted from 0.
    pub chunk_index: u32,
    pub total_chunks: u32,
    /// The compressed bytes this chunk carries.
    pub data: Vec<u8>,
    pub world_id: String,
}

/// The length of the compact JSON text that serde_json writes for a chunk
/// with these fields, or `None` where it cannot write it.
pub uninterp spec fn chunk_json_len(
    chunk_id: Seq<char>,
    chunk_index: u32,
    total_chunks: u32,
    data: Seq<u8>,
    world_id: Seq<char>,
) -> Option<usize>;

/// Calls `serde_json::to_vec` on a JSON object holding the five fields of a
/// chunk, and measures the text. Claimed: the length depends on the fields
/// alone; what it is, is left to serde_json.
#[verifier::external_body]
fn measure_chunk_json(chunk_id: &str, chunk_index: u32, total_chunks: u32, data: &[u8], world_id: &str) -> (r:
    Option<usize>)
    ensures
        r == chunk_json_len(chunk_id@, chunk_index, total_chunks, data@, world_id@),
{
    let mut m = serde_json::Map::new();
    m.insert(String::from("chunk_id"), serde_json::Value::from(chunk_id));
    m.insert(String::from("chunk_index"), serde_json::Value::from(chunk_index));
    m.insert(String::from("total_chunks"), serde_json::Value::from(total_chunks));
    m.insert(String::from("data"), serde_json::Value::from(data.to_vec()));
    m.insert(String::from("world_id"), serde_json::Value::from(world_id));
    serde_json::to_vec(&serde_json::Value::Object(m)).ok().map(|v| v.len())
}

/// What deflate compression at the best level makes of the bytes, or `None`
/// where it fails.
pub uninterp spec fn deflated_best(data: Seq<u8>) -> Option<Seq<u8>>;

/// Compresses the bytes with flate2's `DeflateEncoder` at
/// `Compression::best()`, writing into a `Vec`. Claimed: whether it succeeds,
/// and what it gives, depend on the bytes alone. On failure it gives whether
/// finishing the stream (rather than writing it) failed, and the error's
/// text; those are left unsaid.
#[verifier::external_body]
fn deflate_best(data: &[u8]) -> (r: Result<Vec<u8>, (bool, String)>)
    ensures
        match r {
            Ok(v) => deflated_best(data@) == Some(v@),
            Err(_) => deflated_best(data@) is None,
        },
{
    let mut encoder = flate2::write::DeflateEncoder::new(Vec::new(), flate2::Compression::best());
    if let Err(e) = std::io::Write::write_all(&mut encoder, data) {
        return Err((false, e.to_string()));
    }
    encoder.finish().map_err(|e| (true, e.to_string()))
}

/// Why the data cannot be cut into chunks.
pub enum ChunkError {
    /// Even a chunk of at most 100 bytes is too large; its JSON length.
    TooLarge(usize),
    /// serde_json could not write a chunk.
    Unserializable,
    /// More than [`MAX_CHUNKS`] chunks.
    TooMany,
    /// With its index and the number of chunks, the chunk with this index does
    /// not fit after all; its JSON length, or `None` where serde_json could not
    /// write it.
    Misfit { index: int, total: int, size: Option<usize> },
}

/// How a chunk is cut: the bytes it takes, or why it cannot be cut.
pub enum ChunkCut {
    Take(nat),
    Fail(ChunkError),
}

/// Whether a measured JSON length fits in one broker message.
pub open spec fn json_fits(m: Option<usize>) -> bool {
    match m {
        Some(n) => n <= MAX_MQTT_MESSAGE_SIZE,
        None => false,
    }
}

/// The bytes a chunk starting at `offset` would take before any cut.
pub open spec fn chunk_size_at(len: nat, offset: nat) -> nat {
    if TARGET_CHUNK_DATA_SIZE <= len - offset {
        TARGET_CHUNK_DATA_SIZE as nat
    } else {
        (len - offset) as nat
    }
}

/// The chunk with this index, starting at `offset` and trying `size` bytes:
/// it keeps them when its JSON (with no total yet) fits the limit; otherwise
/// it tries a tenth fewer, rounded down, unless it is 100 bytes or less.
pub open spec fn fit_chunk(
    compressed: Seq<u8>,
    chunk_id: Seq<char>,
    world_id: Seq<char>,
    offset: nat,
    index: u32,
    size: nat,
) -> ChunkCut
    decreases size,
{
    match chunk_json_len(chunk_id, index, 0, compressed.subrange(offset as int, (offset + size) as int), world_id) {
        None => ChunkCut::Fail(ChunkError::Unserializable),
        Some(n) => if n <= MAX_MQTT_MESSAGE_SIZE {
            ChunkCut::Take(size)
        } else if size <= 100 {
            ChunkCut::Fail(ChunkError::TooLarge(n))
        } else {
            fit_chunk(compressed, chunk_id, world_id, offset, index, size * 9 / 10)
        },
    }
}

/// How the chunk with this index, starting at `offset`, is cut: it starts
/// from as many bytes as the target allows.
pub open spec fn chunk_cut(compressed: Seq<u8>, chunk_id: Seq<char>, world_id: Seq<char>, offset: nat, index: u32) -> ChunkCut {
    fit_chunk(compressed, chunk_id, world_id, offset, index, chunk_size_at(compressed.len(), offset))
}

/// A chunk that is cut keeps at least one byte and at most the bytes it
/// tried, and its JSON (with no total yet) fits the limit.
pub proof fn lemma_fit_bounds(
    compressed: Seq<u8>,
    chunk_id: Seq<char>,
    world_id: Seq<char>,
    offset: nat,
    index: u32,
    size: nat,
)
    requires
        size >= 1,
    ensures
        fit_chunk(compressed, chunk_id, world_id, offset, index, size) matches ChunkCut::Take(k) ==> 1 <= k
            <= size && json_fits(chunk_json_len(
            chunk_id,
            index,
            0,
            compressed.subrange(offset as int, (offset + k) as int),
            world_id,
        )),
    decreases size,
{
    if size > 100 {
        lemma_fit_bounds(compressed, chunk_id, world_id, offset, index, size * 9 / 10);
    }
}

/// The chunks from `offset` on, as (start, length) spans of the compressed
/// bytes, the first with index `index`; or why cutting fails. The data is cut
/// front to back; taking the chunk with index [`MAX_CHUNKS`] fails.
pub open spec fn chunk_spans(compressed: Seq<u8>, chunk_id: Seq<char>, world_id: Seq<char>, offset: nat, index: u32) -> Result<
    Seq<(nat, nat)>,
    ChunkError,
>
    decreases compressed.len() - offset,
{
    if offset >= compressed.len() {
        Ok(Seq::empty())
    } else {
        match chunk_cut(compressed, chunk_id, world_id, offset, index) {
            ChunkCut::Fail(e) => Err(e),
            ChunkCut::Take(k) => if index + 1 > MAX_CHUNKS {
                Err(ChunkError::TooMany)
            } else {
                proof {
                    lemma_fit_bounds(
                        compressed,
                        chunk_id,
                        world_id,
                        offset,
                        index,
                        chunk_size_at(compressed.len(), offset),
                    );
                }
                match chunk_spans(compressed, chunk_id, world_id, offset + k, (index + 1) as u32) {
                    Ok(rest) => Ok(seq![(offset, k)] + rest),
                    Err(e) => Err(e),
                }
            },
        }
    }
}

/// The bytes a span covers.
pub open spec fn span_bytes(compressed: Seq<u8>, span: (nat, nat)) -> Seq<u8> {
    compressed.subrange(span.0 as int, (span.0 + span.1) as int)
}

/// The first chunk, from index `from` on, whose JSON with its index and the
/// final number of chunks does not fit the limit, with its measured length.
pub open spec fn first_misfit(
    compressed: Seq<u8>,
    chunk_id: Seq<char>,
    world_id: Seq<char>,
    spans: Seq<(nat, nat)>,
    from: int,
) -> Option<(int, Option<usize>)>
    decreases spans.len() - from,
{
    if from < 0 || from >= spans.len() {
        None
    } else {
        let m = chunk_json_len(
            chunk_id,
            from as u32,
            spans.len() as u32,
            span_bytes(compressed, spans[from]),
            world_id,
        );
        match m {
            Some(n) => if n <= MAX_MQTT_MESSAGE_SIZE {
                first_misfit(compressed, chunk_id, world_id, spans, from + 1)
            } else {
                Some((from, m))
            },
            None => Some((from, m)),
        }
    }
}

/// The text of each way cutting fails.
pub open spec fn chunk_error_text(e: ChunkError) -> Seq<char> {
    match e {
        ChunkError::TooLarge(n) => "Cannot create chunk small enough: "@ + nat_decimal(n as nat) + " bytes minimum"@,
        ChunkError::Unserializable => "Failed to serialize test chunk"@,
        ChunkError::TooMany => "World too large: would require more than 1000 chunks"@,
        ChunkError::Misfit { index, total, size } => match size {
            Some(n) => "Chunk "@ + nat_decimal((index + 1) as nat) + "/"@ + nat_decimal(total as nat) + " is "@
                + nat_decimal(n as nat) + " bytes, exceeds limit of 1048576"@,
            None => "Failed to serialize chunk "@ + nat_decimal((index + 1) as nat) + "/"@ + nat_decimal(
                total as nat,
            ),
        },
    }
}

/// Whether `c` is the chunk with index `k` of `total`, carrying the span.
pub open spec fn is_chunk(
    c: ChunkedWorldData,
    compressed: Seq<u8>,
    span: (nat, nat),
    k: int,
    total: nat,
    chunk_id: Seq<char>,
    world_id: Seq<char>,
) -> bool {
    &&& c.data@ == span_bytes(compressed, span)
    &&& c.chunk_index == k
    &&& c.total_chunks == total
    &&& c.chunk_id@ == chunk_id
    &&& c.world_id@ == world_id
}

/// What cutting `compressed` gives: the chunks, or the error.
pub open spec fn split_result(compressed: Seq<u8>, chunk_id: Seq<char>, world_id: Seq<char>) -> Result<
    Seq<(nat, nat)>,
    ChunkError,
> {
    match chunk_spans(compressed, chunk_id, world_id, 0, 0) {
        Ok(spans) => match first_misfit(compressed, chunk_id, world_id, spans, 0) {
            None => Ok(spans),
            Some((k, m)) => Err(ChunkError::Misfit { index: k, total: spans.len() as int, size: m }),
        },
        Err(e) => Err(e),
    }
}

/// Whether `r` is what cutting `compressed` gives.
pub open spec fn split_outcome(
    r: Result<Vec<ChunkedWorldData>, String>,
    compressed: Seq<u8>,
    chunk_id: Seq<char>,
    world_id: Seq<char>,
) -> bool {
    match split_result(compressed, chunk_id, world_id) {
        Ok(spans) => r matches Ok(chunks) && chunks@.len() == spans.len() && forall|k: int|
            0 <= k < spans.len() ==> is_chunk(
                #[trigger] chunks@[k],
                compressed,
                spans[k],
                k,
                spans.len(),
                chunk_id,
                world_id,
            ),
        Err(e) => r matches Err(t) && t@ == chunk_error_text(e),
    }
}

/// Spans as naturals.
pub open spec fn span_view(spans: Seq<(usize, usize)>) -> Seq<(nat, nat)> {
    spans.map_values(|p: (usize, usize)| (p.0 as nat, p.1 as nat))
}

fn too_large_message(n: usize) -> (m: String)
    ensures
        m@ == chunk_error_text(ChunkError::TooLarge(n)),
{
    let mut m = concat("Cannot create chunk small enough: ", format_u64(n as u64).as_str());
    m.append(" bytes minimum");
    m
}

fn misfit_message(index: usize, total: u32, size: Option<usize>) -> (m: String)
    requires
        index < total,
    ensures
        m@ == chunk_error_text(ChunkError::Misfit { index: index as int, total: total as int, size }),
{
    let shown = (index + 1) as u64;
    match size {
        Some(n) => {
            let mut m = concat("Chunk ", format_u64(shown).as_str());
            m.append("/");
            m.append(format_u64(total as u64).as_str());
            m.append(" is ");
            m.append(format_u64(n as u64).as_str());
            m.append(" bytes, exceeds limit of 1048576");
            m
        },
        None => {
            let mut m = concat("Failed to serialize chunk ", format_u64(shown).as_str());
            m.append("/");
            m.append(format_u64(total as u64).as_str());
            m
        },
    }
}

/// Cut the chunk with this index that starts at `offset` (see [`chunk_cut`]):
/// the bytes it takes, or the error's text.
fn cut_chunk(compressed: &[u8], chunk_id: &str, world_id: &str, offset: usize, index: u32) -> (r: Result<
    usize,
    String,
>)
    requires
        offset < compressed@.len(),
    ensures
        match chunk_cut(compressed@, chunk_id@, world_id@, offset as nat, index) {
            ChunkCut::Take(k) => r == Ok::<usize, String>(k as usize),
            ChunkCut::Fail(e) => r matches Err(t) && t@ == chunk_error_text(e),
        },
{
    let remaining = compressed.len() - offset;
    let mut size: usize = if TARGET_CHUNK_DATA_SIZE <= remaining {
        TARGET_CHUNK_DATA_SIZE
    } else {
        remaining
    };
    let n = compressed.len();
    loop
        invariant
            n == compressed@.len(),
            offset < compressed@.len(),
            1 <= size <= TARGET_CHUNK_DATA_SIZE,
            offset + size <= compressed@.len(),
            fit_chunk(compressed@, chunk_id@, world_id@, offset as nat, index, size as nat) == chunk_cut(
                compressed@,
                chunk_id@,
                world_id@,
                offset as nat,
                index,
            ),
        decreases size,
    {
        let piece = vstd::slice::slice_subrange(compressed, offset, offset + size);
        match measure_chunk_json(chunk_id, index, 0, piece, world_id) {
            None => {
                return Err(String::from_str("Failed to serialize test chunk"));
            },
            Some(n) => {
                if n <= MAX_MQTT_MESSAGE_SIZE {
                    return Ok(size);
                }
                if size <= 100 {
                    return Err(too_large_message(n));
                }
                size = size * 9 / 10;
            },
        }
    }
}

/// Cut compressed data into chunks that each fit the broker's limit (see
/// [`split_result`]); every chunk carries the id, its index, the number of
/// chunks and the world's id.
pub fn split_into_chunks(compressed: &[u8], chunk_id: &str, world_id: &str) -> (r: Result<Vec<ChunkedWorldData>, String>)
    ensures
        split_outcome(r, compressed@, chunk_id@, world_id@),
{
    let ghost c = compressed@;
    let ghost whole = chunk_spans(c, chunk_id@, world_id@, 0, 0);
    let mut spans: Vec<(usize, usize)> = Vec::new();
    let mut offset: usize = 0;
    let mut index: u32 = 0;
    assert(span_view(spans@) =~= Seq::<(nat, nat)>::empty());
    assert(whole == match chunk_spans(c, chunk_id@, world_id@, 0, 0) {
        Ok(rest) => Ok::<Seq<(nat, nat)>, ChunkError>(span_view(spans@) + rest),
        Err(e) => Err::<Seq<(nat, nat)>, ChunkError>(e),
    }) by {
        match chunk_spans(c, chunk_id@, world_id@, 0, 0) {
            Ok(rest) => {
                assert(span_view(spans@) + rest =~= rest);
            },
            Err(e) => {},
        }
    }
    while offset < compressed.len()
        invariant
            c == compressed@,
            whole == chunk_spans(c, chunk_id@, world_id@, 0, 0),
            offset <= c.len(),
            index as int == spans@.len(),
            index <= MAX_CHUNKS,
            forall|k: int| 0 <= k < spans@.len() ==> (#[trigger] spans@[k]).0 + spans@[k].1 <= offset,
            whole == match chunk_spans(c, chunk_id@, world_id@, offset as nat, index) {
                Ok(rest) => Ok::<Seq<(nat, nat)>, ChunkError>(span_view(spans@) + rest),
                Err(e) => Err::<Seq<(nat, nat)>, ChunkError>(e),
            },
        decreases c.len() - offset,
    {
        proof {
            lemma_fit_bounds(c, chunk_id@, world_id@, offset as nat, index, chunk_size_at(c.len(), offset as nat));
        }
        let k = match cut_chunk(compressed, chunk_id, world_id, offset, index) {
            Ok(k) => k,
            Err(t) => {
                return Err(t);
            },
        };
        let ghost before = spans@;
        spans.push((offset, k));
        offset = offset + k;
        index = index + 1;
        if index > MAX_CHUNKS {
            return Err(String::from_str("World too large: would require more than 1000 chunks"));
        }
        proof {
            assert(span_view(spans@) =~= span_view(before).push(((offset - k) as nat, k as nat)));
            match chunk_spans(c, chunk_id@, world_id@, offset as nat, index) {
                Ok(rest) => {
                    assert(span_view(before) + (seq![((offset - k) as nat, k as nat)] + rest)
                        =~= span_view(spans@) + rest);
                },
                Err(e) => {},
            }
        }
    }
    assert(chunk_spans(c, chunk_id@, world_id@, offset as nat, index) == Ok::<
        Seq<(nat, nat)>,
        ChunkError,
    >(Seq::empty()));
    assert(span_view(spans@) + Seq::<(nat, nat)>::empty() =~= span_view(spans@));
    let ghost sv = span_view(spans@);
    let total: u32 = index;
    let mut chunks: Vec<ChunkedWorldData> = Vec::new();
    let mut i: usize = 0;
    while i < spans.len()
        invariant
            c == compressed@,
            whole == Ok::<Seq<(nat, nat)>, ChunkError>(sv),
            whole == chunk_spans(c, chunk_id@, world_id@, 0, 0),
            sv == span_view(spans@),
            total as int == spans@.len(),
            total <= MAX_CHUNKS,
            forall|k: int| 0 <= k < spans@.len() ==> (#[trigger] spans@[k]).0 + spans@[k].1 <= c.len(),
            i <= spans@.len(),
            chunks@.len() == i,
            first_misfit(c, chunk_id@, world_id@, sv, 0) == first_misfit(c, chunk_id@, world_id@, sv, i as int),
            forall|k: int|
                0 <= k < i ==> is_chunk(
                    #[trigger] chunks@[k],
                    c,
                    sv[k],
                    k,
                    spans@.len(),
                    chunk_id@,
                    world_id@,
                ),
        decreases spans@.len() - i,
    {
        let start = spans[i].0;
        let len = spans[i].1;
        let n = compressed.len();
        assert(start + len <= n);
        let piece = vstd::slice::slice_subrange(compressed, start, start + len);
        assert(piece@ == span_bytes(c, sv[i as int]));
        let measured = measure_chunk_json(chunk_id, i as u32, total, piece, world_id);
        let fits = match measured {
            Some(m) => m <= MAX_MQTT_MESSAGE_SIZE,
            None => false,
        };
        assert(sv.len() == total as int);
        assert(fits == json_fits(measured));
        if !fits {
            assert(first_misfit(c, chunk_id@, world_id@, sv, i as int) == Some((i as int, measured)));
            return Err(misfit_message(i, total, measured));
        }
        assert(first_misfit(c, chunk_id@, world_id@, sv, i as int) == first_misfit(
            c,
            chunk_id@,
            world_id@,
            sv,
            i + 1,
        ));
        let data = vstd::slice::slice_to_vec(piece);
        chunks.push(
            ChunkedWorldData {
                chunk_id: String::from_str(chunk_id),
                chunk_index: i as u32,
                total_chunks: total,
                data,
                world_id: String::from_str(world_id),
            },
        );
        i = i + 1;
    }
    Ok(chunks)
}

/// The id the chunks of one publication share: the world's id, '_', and the
/// time of publication in milliseconds.
pub open spec fn spec_chunk_id(world_id: Seq<char>, millis: i64) -> Seq<char> {
    world_id + "_"@ + int_decimal(millis as int)
}

/// Compress a world's serialized data and cut it into chunks that each fit
/// the broker's limit; `millis` is the time of publication. When the
/// compression succeeds, the result is that of cutting the compressed bytes
/// (see [`split_into_chunks`]); otherwise it is an error that says so.
pub fn chunk_world_data(serialized: &[u8], world_id: &str, millis: i64) -> (r: Result<Vec<ChunkedWorldData>, String>)
    ensures
        match deflated_best(serialized@) {
            Some(compressed) => split_outcome(r, compressed, spec_chunk_id(world_id@, millis), world_id@),
            None => r matches Err(e) && (has_prefix(e@, "Failed to compress world data: "@) || has_prefix(
                e@,
                "Failed to finish compression: "@,
            )),
        },
{
    let compressed = match deflate_best(serialized) {
        Ok(v) => v,
        Err((finishing, text)) => {
            let e = if finishing {
                concat("Failed to finish compression: ", text.as_str())
            } else {
                concat("Failed to compress world data: ", text.as_str())
            };
            proof {
                let p = if finishing {
                    "Failed to finish compression: "@
                } else {
                    "Failed to compress world data: "@
                };
                assert((p + text@).subrange(0, p.len() as int) =~= p);
            }
            return Err(e);
        },
    };
    let mut chunk_id = concat(world_id, "_");
    chunk_id.append(format_i64(millis).as_str());
    split_into_chunks(compressed.as_slice(), chunk_id.as_str(), world_id)
}

/// The bytes the spans cover, in order.
pub open spec fn joined_spans(c: Seq<u8>, spans: Seq<(nat, nat)>) -> Seq<u8>
    decreases spans.len(),
{
    if spans.len() == 0 {
        Seq::empty()
    } else {
        span_bytes(c, spans[0]) + joined_spans(c, spans.drop_first())
    }
}

/// The chunks' data, in order, joined.
pub open spec fn joined_data(chunks: Seq<ChunkedWorldData>) -> Seq<u8>
    decreases chunks.len(),
{
    if chunks.len() == 0 {
        Seq::empty()
    } else {
        chunks[0].data@ + joined_data(chunks.drop_first())
    }
}

proof fn lemma_spans_cover(c: Seq<u8>, chunk_id: Seq<char>, world_id: Seq<char>, offset: nat, index: u32)
    requires
        offset <= c.len(),
        index <= MAX_CHUNKS,
        chunk_spans(c, chunk_id, world_id, offset, index) is Ok,
    ensures
        joined_spans(c, chunk_spans(c, chunk_id, world_id, offset, index)->Ok_0) == c.subrange(
            offset as int,
            c.len() as int,
        ),
        chunk_spans(c, chunk_id, world_id, offset, index)->Ok_0.len() + index <= MAX_CHUNKS,
        forall|k: int|
            0 <= k < chunk_spans(c, chunk_id, world_id, offset, index)->Ok_0.len() ==> 1 <= (#[trigger] chunk_spans(
                c,
                chunk_id,
                world_id,
                offset,
                index,
            )->Ok_0[k]).1 <= TARGET_CHUNK_DATA_SIZE,
        forall|k: int|
            0 <= k < chunk_spans(c, chunk_id, world_id, offset, index)->Ok_0.len() ==> (#[trigger] chunk_spans(
                c,
                chunk_id,
                world_id,
                offset,
                index,
            )->Ok_0[k]).0 + chunk_spans(c, chunk_id, world_id, offset, index)->Ok_0[k].1 <= c.len(),
    decreases c.len() - offset,
{
    if offset < c.len() {
        lemma_fit_bounds(c, chunk_id, world_id, offset, index, chunk_size_at(c.len(), offset));
        match chunk_cut(c, chunk_id, world_id, offset, index) {
            ChunkCut::Take(k) => {
                let next = (index + 1) as u32;
                lemma_spans_cover(c, chunk_id, world_id, offset + k, next);
                let rest = chunk_spans(c, chunk_id, world_id, offset + k, next)->Ok_0;
                let spans = chunk_spans(c, chunk_id, world_id, offset, index)->Ok_0;
                assert(spans == seq![(offset, k)] + rest);
                assert(spans.drop_first() == rest);
                assert(c.subrange(offset as int, (offset + k) as int) + c.subrange(
                    (offset + k) as int,
                    c.len() as int,
                ) =~= c.subrange(offset as int, c.len() as int));
                assert forall|j: int| 0 <= j < spans.len() implies 1 <= (#[trigger] spans[j]).1
                    <= TARGET_CHUNK_DATA_SIZE && spans[j].0 + spans[j].1 <= c.len() by {
                    if j > 0 {
                        assert(spans[j] == rest[j - 1]);
                    }
                }
            },
            ChunkCut::Fail(_) => {},
        }
    } else {
        assert(c.subrange(offset as int, c.len() as int) =~= Seq::<u8>::empty());
    }
}

proof fn lemma_joined_chunks(
    chunks: Seq<ChunkedWorldData>,
    c: Seq<u8>,
    spans: Seq<(nat, nat)>,
    total: nat,
    chunk_id: Seq<char>,
    world_id: Seq<char>,
    from: int,
)
    requires
        chunks.len() == spans.len(),
        0 <= from <= spans.len(),
        forall|k: int|
            0 <= k < spans.len() ==> is_chunk(#[trigger] chunks[k], c, spans[k], k, total, chunk_id, world_id),
    ensures
        joined_data(chunks.subrange(from, chunks.len() as int)) == joined_spans(
            c,
            spans.subrange(from, spans.len() as int),
        ),
    decreases spans.len() - from,
{
    if from < spans.len() {
        lemma_joined_chunks(chunks, c, spans, total, chunk_id, world_id, from + 1);
        assert(chunks.subrange(from, chunks.len() as int).drop_first() == chunks.subrange(
            from + 1,
            chunks.len() as int,
        ));
        assert(spans.subrange(from, spans.len() as int).drop_first() == spans.subrange(
            from + 1,
            spans.len() as int,
        ));
        assert(is_chunk(chunks[from], c, spans[from], from, total, chunk_id, world_id));
    }
}

proof fn lemma_no_misfit(c: Seq<u8>, chunk_id: Seq<char>, world_id: Seq<char>, spans: Seq<(nat, nat)>, from: int)
    requires
        0 <= from,
        first_misfit(c, chunk_id, world_id, spans, from) is None,
    ensures
        forall|k: int|
            from <= k < spans.len() ==> json_fits(chunk_json_len(
                chunk_id,
                k as u32,
                spans.len() as u32,
                #[trigger] span_bytes(c, spans[k]),
                world_id,
            )),
    decreases spans.len() - from,
{
    if from < spans.len() {
        lemma_no_misfit(c, chunk_id, world_id, spans, from + 1);
    }
}

/// Cutting loses nothing and every chunk fits: when the data could be cut,
/// the chunks' data, joined in order, is the compressed data again; each
/// chunk carries at least one and at most the target's bytes; there are at
/// most [`MAX_CHUNKS`] chunks; and each chunk's JSON, with its own index and
/// the number of chunks, fits in one broker message.
pub proof fn law_chunks_rejoin(
    r: Result<Vec<ChunkedWorldData>, String>,
    compressed: Seq<u8>,
    chunk_id: Seq<char>,
    world_id: Seq<char>,
)
    requires
        split_outcome(r, compressed, chunk_id, world_id),
        r is Ok,
    ensures
        joined_data(r->Ok_0@) == compressed,
        r->Ok_0@.len() <= MAX_CHUNKS,
        forall|k: int|
            0 <= k < r->Ok_0@.len() ==> 1 <= (#[trigger] r->Ok_0@[k]).data@.len() <= TARGET_CHUNK_DATA_SIZE,
        forall|k: int|
            0 <= k < r->Ok_0@.len() ==> json_fits(chunk_json_len(
                (#[trigger] r->Ok_0@[k]).chunk_id@,
                r->Ok_0@[k].chunk_index,
                r->Ok_0@[k].total_chunks,
                r->Ok_0@[k].data@,
                r->Ok_0@[k].world_id@,
            )),
{
    let chunks = r->Ok_0@;
    match chunk_spans(compressed, chunk_id, world_id, 0, 0) {
        Ok(spans) => {
            lemma_spans_cover(compressed, chunk_id, world_id, 0, 0);
            lemma_no_misfit(compressed, chunk_id, world_id, spans, 0);
            lemma_joined_chunks(chunks, compressed, spans, spans.len(), chunk_id, world_id, 0);
            assert(chunks.subrange(0, chunks.len() as int) == chunks);
            assert(spans.subrange(0, spans.len() as int) == spans);
            assert(compressed.subrange(0, compressed.len() as int) == compressed);
            assert forall|k: int| 0 <= k < chunks.len() implies 1 <= (#[trigger] chunks[k]).data@.len()
                <= TARGET_CHUNK_DATA_SIZE && json_fits(chunk_json_len(
                chunks[k].chunk_id@,
                chunks[k].chunk_index,
                chunks[k].total_chunks,
                chunks[k].data@,
                chunks[k].world_id@,
            )) by {
                assert(is_chunk(chunks[k], compressed, spans[k], k, spans.len(), chunk_id, world_id));
                assert(1 <= spans[k].1 <= TARGET_CHUNK_DATA_SIZE);
                assert(span_bytes(compressed, spans[k]) == chunks[k].data@);
            }
        },
        Err(_) => {},
    }
}

} // verus!
