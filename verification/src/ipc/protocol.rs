//! Wire messages and length-prefixed framing: `[u32 LE length][UTF-8 JSON payload]`.
//!
//! The JSON text of a message is produced and read by serde outside the
//! library; here a payload is a run of bytes that gets framed and unframed.
use vstd::prelude::*;

verus! {

/// Every message sent from the backend to a Python service.
#[derive(Debug, Clone)]
pub enum OutboundMsg {
    /// Raw PCM audio chunk (base64-encoded f32 LE samples at `sample_rate` Hz, mono)
    AudioChunk {
        session_id: String,
        /// Sequential chunk counter for ordering / loss detection
        seq: u32,
        /// Base64-encoded raw f32 LE PCM bytes
        data: String,
        sample_rate: u32,
    },
    /// Signals that audio recording has ended for this session.
    AudioEnd { session_id: String },
    /// Ask the LLM service to clean up raw transcribed text.
    CleanText {
        session_id: String,
        raw_text: String,
        /// E.g. "code" | "chat" | "email" | "generic"
        app_context: String,
        /// ISO 639-1 language code, e.g. "en"
        language: String,
        /// "light" | "moderate" | "aggressive"
        aggressiveness: String,
        /// Retrieved RAG context snippets (past corrections)
        rag_context: Vec<String>,
        /// Personal dictionary: [(wrong, correct), ...]
        dictionary_terms: Vec<[String; 2]>,
        remove_fillers: bool,
        fix_punctuation: bool,
        fix_capitalization: bool,
    },
    /// Ask the LLM service to execute a voice command on text.
    ExecuteCommand { session_id: String, command: String, text: String, language: String },
    /// Store a raw→clean correction pair for future retrieval.
    StoreCorrection {
        session_id: String,
        raw_text: String,
        clean_text: String,
        app_context: String,
        language: String,
    },
    /// Retrieve the most similar past corrections for the given query.
    RetrieveContext { session_id: String, query_text: String, max_results: u32 },
    /// Health-check ping.
    Ping,
    /// Ask the service to flush state and exit cleanly.
    Shutdown,
}

/// Every message received by the backend from a Python service.
#[derive(Debug, Clone)]
#[allow(inconsistent_fields)]
pub enum InboundMsg {
    /// Streaming partial transcript (sent while audio is still flowing).
    TranscriptPartial { session_id: String, text: String },
    /// Final transcript after silence or an explicit end of audio.
    TranscriptFinal {
        session_id: String,
        text: String,
        /// Detected ISO 639-1 language code
        language: String,
        /// Actual audio duration processed, in milliseconds
        duration_ms: u64,
    },
    /// Cleaned / formatted text ready for injection.
    TextReady { session_id: String, text: String },
    /// Retrieved context segments.
    ContextReady { session_id: String, segments: Vec<String> },
    /// Result of an AI command execution.
    CommandResult { session_id: String, command: String, text: String },
    /// Sent by a service once it has fully initialized and is ready.
    Ready { service: String, version: String },
    /// Response to a Ping message.
    Pong { service: String },
    /// Error from a Python service.
    ServiceError { session_id: Option<String>, code: u32, message: String },
}

/// Number of bytes of the length prefix of a frame.
pub const FRAME_HEADER_LEN: usize = 4;

/// Why a frame could not be written or read.
#[derive(Debug, Clone, Copy, PartialEq, Eq, Structural)]
pub enum FrameError {
    /// The payload is longer than a `u32` length prefix can state.
    PayloadTooLarge,
    /// The buffer ends before the length prefix or before the payload it announces.
    Incomplete,
}

/// The four little-endian bytes of `n`.
pub open spec fn le_bytes(n: u32) -> Seq<u8> {
    seq![(n % 0x100) as u8, ((n / 0x100) % 0x100) as u8, ((n / 0x1_0000) % 0x100) as u8, (n / 0x100_0000) as u8]
}

/// The number that four little-endian bytes denote.
pub open spec fn le_value(b: Seq<u8>) -> nat
    recommends
        b.len() >= 4,
{
    (b[0] + b[1] * 0x100 + b[2] * 0x1_0000 + b[3] * 0x100_0000) as nat
}

/// The frame of a payload: its length as four little-endian bytes, then the payload.
pub open spec fn frame_of(payload: Seq<u8>) -> Seq<u8> {
    le_bytes(payload.len() as u32) + payload
}

/// What reading one frame from the front of `buf` gives: the payload and the
/// number of bytes the frame takes, or `None` while the frame is incomplete.
pub open spec fn split_frame_spec(buf: Seq<u8>) -> Option<(Seq<u8>, nat)> {
    if buf.len() < 4 {
        None
    } else {
        let n = le_value(buf);
        if buf.len() < 4 + n {
            None
        } else {
            Some((buf.subrange(4, 4 + n as int), (4 + n) as nat))
        }
    }
}

/// Serialize a payload as a length-prefixed frame: `[u32 LE][payload bytes]`.
pub fn frame_payload(payload: &[u8]) -> (r: Result<Vec<u8>, FrameError>)
    ensures
        payload@.len() <= u32::MAX ==> (r matches Ok(f) && f@ == frame_of(payload@)),
        payload@.len() > u32::MAX ==> r == Err::<Vec<u8>, FrameError>(FrameError::PayloadTooLarge),
{
    if payload.len() > 0xFFFF_FFFF {
        return Err(FrameError::PayloadTooLarge);
    }
    let n = payload.len() as u32;
    let mut frame: Vec<u8> = Vec::new();
    frame.push((n % 0x100) as u8);
    frame.push(((n / 0x100) % 0x100) as u8);
    frame.push(((n / 0x1_0000) % 0x100) as u8);
    frame.push((n / 0x100_0000) as u8);
    assert(frame@ =~= le_bytes(n));
    let len = payload.len();
    let mut i: usize = 0;
    while i < len
        invariant
            len == payload@.len(),
            n == len,
            0 <= i <= len,
            frame@ == le_bytes(n) + payload@.take(i as int),
        decreases len - i,
    {
        frame.push(payload[i]);
        assert(payload@.take(i + 1) =~= payload@.take(i as int).push(payload@[i as int]));
        assert(frame@ =~= le_bytes(n) + payload@.take(i + 1));
        i = i + 1;
    }
    assert(payload@.take(len as int) =~= payload@);
    Ok(frame)
}

/// The payload length that a frame header announces.
pub fn frame_payload_len(header: [u8; 4]) -> (n: u32)
    ensures
        n == le_value(header@),
{
    let b0 = header[0] as u32;
    let b1 = header[1] as u32;
    let b2 = header[2] as u32;
    let b3 = header[3] as u32;
    b0 + b1 * 0x100 + b2 * 0x1_0000 + b3 * 0x100_0000
}

/// Reads one frame from the front of `buf`: its payload and the number of
/// bytes the frame takes.
pub fn split_frame(buf: &[u8]) -> (r: Result<(Vec<u8>, usize), FrameError>)
    ensures
        match split_frame_spec(buf@) {
            Some((p, k)) => (r matches Ok((q, m)) && q@ == p && m == k),
            None => r == Err::<(Vec<u8>, usize), FrameError>(FrameError::Incomplete),
        },
{
    if buf.len() < 4 {
        return Err(FrameError::Incomplete);
    }
    let n = frame_payload_len([buf[0], buf[1], buf[2], buf[3]]);
    assert(le_value(buf@) == n);
    let len = buf.len();
    if len - 4 < n as usize {
        return Err(FrameError::Incomplete);
    }
    let end: usize = 4 + n as usize;
    let mut payload: Vec<u8> = Vec::new();
    let mut i: usize = 4;
    while i < end
        invariant
            len == buf@.len(),
            4 <= i <= end <= len,
            end == 4 + n,
            payload@ == buf@.subrange(4, i as int),
        decreases end - i,
    {
        payload.push(buf[i]);
        assert(payload@ =~= buf@.subrange(4, i + 1));
        i = i + 1;
    }
    Ok((payload, end))
}

/// The length prefix reads back as the value it was written from.
pub proof fn lemma_le_roundtrip(n: u32)
    ensures
        le_bytes(n).len() == 4,
        le_value(le_bytes(n)) == n,
{
    let b = le_bytes(n);
    assert(b[0] == n % 0x100);
    assert(b[1] == (n / 0x100) % 0x100);
    assert(b[2] == (n / 0x1_0000) % 0x100);
    assert(b[3] == n / 0x100_0000);
    assert((n % 0x100) + ((n / 0x100) % 0x100) * 0x100 + ((n / 0x1_0000) % 0x100) * 0x1_0000 + (n
        / 0x100_0000) * 0x100_0000 == n) by (nonlinear_arith);
}

/// A frame's header announces exactly the length of its payload, and the
/// frame is four bytes longer than the payload.
pub proof fn lemma_frame_header(payload: Seq<u8>)
    requires
        payload.len() <= u32::MAX,
    ensures
        frame_of(payload).len() == payload.len() + 4,
        le_value(frame_of(payload)) == payload.len(),
{
    lemma_le_roundtrip(payload.len() as u32);
    let f = frame_of(payload);
    let h = le_bytes(payload.len() as u32);
    assert(f[0] == h[0] && f[1] == h[1] && f[2] == h[2] && f[3] == h[3]);
}

/// Reading a frame back from the front of a stream gives the payload that
/// was framed, whatever bytes follow it, and consumes exactly the frame.
pub proof fn lemma_frame_roundtrip(payload: Seq<u8>, rest: Seq<u8>)
    requires
        payload.len() <= u32::MAX,
    ensures
        split_frame_spec(frame_of(payload) + rest) == Some((payload, (payload.len() + 4) as nat)),
{
    lemma_frame_header(payload);
    let f = frame_of(payload);
    let b = f + rest;
    assert(b[0] == f[0] && b[1] == f[1] && b[2] == f[2] && b[3] == f[3]);
    assert(le_value(b) == le_value(f));
    assert(b.subrange(4, 4 + payload.len() as int) =~= payload);
}

} // verus!
