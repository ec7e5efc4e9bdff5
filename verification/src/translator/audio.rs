//! The audio side of a translation session: finding the header of a WAV
//! stream, and cutting audio into the chunks that are sent to the service.
use vstd::prelude::*;

use crate::error::Error;

verus! {

/// The size of the audio chunks sent to the service.
pub const BUFFER_SIZE: usize = 4096;

/// Whether `b` holds, at `i`, the four bytes `data`.
pub open spec fn data_tag_at(b: Seq<u8>, i: int) -> bool {
    &&& 0 <= i
    &&& i + 4 <= b.len()
    &&& b[i] == 0x64u8
    &&& b[i + 1] == 0x61u8
    &&& b[i + 2] == 0x74u8
    &&& b[i + 3] == 0x61u8
}

/// The first position at or after `i` where `b` holds the tag `data`.
pub open spec fn first_data_tag(b: Seq<u8>, i: int) -> Option<int>
    decreases b.len() - i,
{
    if i < 0 || i + 4 > b.len() {
        None
    } else if data_tag_at(b, i) {
        Some(i)
    } else {
        first_data_tag(b, i + 1)
    }
}

/// The position that the search finds holds the tag, at or after where the
/// search starts, and no earlier position from there on holds it.
pub proof fn lemma_first_data_tag(b: Seq<u8>, i: int)
    ensures
        first_data_tag(b, i) matches Some(p) ==> {
            &&& i <= p
            &&& data_tag_at(b, p)
            &&& forall|j: int| i <= j < p ==> !data_tag_at(b, j)
        },
        0 <= i && first_data_tag(b, i) is None ==> forall|j: int| i <= j ==> !data_tag_at(b, j),
    decreases b.len() - i,
{
    if i < 0 || i + 4 > b.len() {
    } else if data_tag_at(b, i) {
    } else {
        lemma_first_data_tag(b, i + 1);
    }
}

/// Whether `b` starts with `RIFF`, four bytes, then `WAVE`.
pub open spec fn riff_wave_tags(b: Seq<u8>) -> bool {
    &&& b.len() >= 12
    &&& b[0] == 0x52u8
    &&& b[1] == 0x49u8
    &&& b[2] == 0x46u8
    &&& b[3] == 0x46u8
    &&& b[8] == 0x57u8
    &&& b[9] == 0x41u8
    &&& b[10] == 0x56u8
    &&& b[11] == 0x45u8
}

/// What the start of a WAV stream tells so far.
#[derive(Debug, Clone, Copy, PartialEq, Eq, Structural)]
pub enum WavScan {
    /// More bytes are needed.
    NeedMore,
    /// The stream does not start as a WAV file.
    Invalid,
    /// The header ends before this position: right after the length field of
    /// the `data` chunk.
    HeaderEnd(usize),
}

/// What the bytes `b`, read so far from the start of a WAV stream, tell.
pub open spec fn wav_scan(b: Seq<u8>) -> WavScan {
    if b.len() < 12 {
        WavScan::NeedMore
    } else if !riff_wave_tags(b) {
        WavScan::Invalid
    } else {
        match first_data_tag(b, 0) {
            None => WavScan::NeedMore,
            Some(p) => if b.len() < p + 8 {
                WavScan::NeedMore
            } else {
                WavScan::HeaderEnd((p + 8) as usize)
            },
        }
    }
}

/// Looks for the `data` tag in `b` from position `start` on.
fn find_data_tag(b: &Vec<u8>, start: usize) -> (r: Option<usize>)
    ensures
        match first_data_tag(b@, start as int) {
            Some(p) => r == Some(p as usize),
            None => r is None,
        },
{
    let n: usize = b.len();
    if n < 4 {
        return None;
    }
    let mut i: usize = start;
    while i <= n - 4
        invariant
            n == b@.len(),
            n >= 4,
            start <= i,
            first_data_tag(b@, start as int) == first_data_tag(b@, i as int),
        decreases n - i,
    {
        if b[i] == 0x64u8 && b[i + 1] == 0x61u8 && b[i + 2] == 0x74u8 && b[i + 3] == 0x61u8 {
            return Some(i);
        }
        i = i + 1;
    }
    None
}

/// Tells what the bytes read so far from the start of a WAV stream hold.
pub fn scan_wav_header(b: &Vec<u8>) -> (r: WavScan)
    ensures
        r == wav_scan(b@),
{
    if b.len() < 12 {
        return WavScan::NeedMore;
    }
    if !(b[0] == 0x52u8 && b[1] == 0x49u8 && b[2] == 0x46u8 && b[3] == 0x46u8 && b[8] == 0x57u8
        && b[9] == 0x41u8 && b[10] == 0x56u8 && b[11] == 0x45u8) {
        return WavScan::Invalid;
    }
    proof {
        lemma_first_data_tag(b@, 0);
    }
    match find_data_tag(b, 0) {
        None => WavScan::NeedMore,
        Some(p) => {
            if b.len() - 8 < p {
                WavScan::NeedMore
            } else {
                WavScan::HeaderEnd(p + 8)
            }
        },
    }
}

/// A found tag stays the first one when more bytes follow.
proof fn lemma_first_data_tag_extend(b: Seq<u8>, c: Seq<u8>, i: int)
    requires
        first_data_tag(b, i) is Some,
    ensures
        first_data_tag(b + c, i) == first_data_tag(b, i),
    decreases b.len() - i,
{
    assert(data_tag_at(b + c, i) == data_tag_at(b, i) || i + 4 > b.len());
    if data_tag_at(b, i) {
    } else {
        lemma_first_data_tag_extend(b, c, i + 1);
    }
}

/// What the start of a stream tells does not change once it is told: bytes
/// that arrive after a header was found, or after the stream was found not
/// to be WAV, change neither verdict. So the header found does not depend on
/// how the stream was cut into chunks.
pub proof fn lemma_wav_scan_settled(b: Seq<u8>, c: Seq<u8>)
    ensures
        wav_scan(b) is Invalid ==> wav_scan(b + c) is Invalid,
        wav_scan(b) matches WavScan::HeaderEnd(n) ==> wav_scan(b + c) == WavScan::HeaderEnd(n),
{
    if wav_scan(b) is Invalid {
        assert(!riff_wave_tags(b + c));
    }
    if wav_scan(b) is HeaderEnd {
        assert(riff_wave_tags(b + c));
        lemma_first_data_tag_extend(b, c, 0);
    }
}

/// Whether the bytes at `i` in `b` spell `data`, written out byte by byte.
pub open spec fn spells_data(b: Seq<u8>, i: int) -> bool {
    0 <= i && i + 4 <= b.len() && b[i] == 0x64u8 && b[i + 1] == 0x61u8 && b[i + 2] == 0x74u8
        && b[i + 3] == 0x61u8
}

/// What the start of a WAV stream tells, in terms of its bytes: fewer than
/// twelve bytes need more; twelve or more without `RIFF` at 0 and `WAVE` at
/// 8 are not WAV; with those tags, the header is complete, ending eight bytes
/// after the first `data` tag, as soon as those eight bytes are there,
/// wherever that tag lies, and more bytes are needed until then.
pub proof fn lemma_wav_scan_complete(b: Seq<u8>)
    requires
        b.len() <= usize::MAX,
    ensures
        b.len() < 12 ==> wav_scan(b) == WavScan::NeedMore,
        b.len() >= 12 && !(b[0] == 0x52u8 && b[1] == 0x49u8 && b[2] == 0x46u8 && b[3] == 0x46u8
            && b[8] == 0x57u8 && b[9] == 0x41u8 && b[10] == 0x56u8 && b[11] == 0x45u8)
            ==> wav_scan(b) == WavScan::Invalid,
        forall|p: int|
            #![trigger spells_data(b, p)]
            b.len() >= 12 && b[0] == 0x52u8 && b[1] == 0x49u8 && b[2] == 0x46u8 && b[3] == 0x46u8
                && b[8] == 0x57u8 && b[9] == 0x41u8 && b[10] == 0x56u8 && b[11] == 0x45u8
                && spells_data(b, p) && (forall|j: int| 0 <= j < p ==> !spells_data(b, j))
                ==> if p + 8 <= b.len() {
                wav_scan(b) == WavScan::HeaderEnd((p + 8) as usize)
            } else {
                wav_scan(b) == WavScan::NeedMore
            },
        b.len() >= 12 && b[0] == 0x52u8 && b[1] == 0x49u8 && b[2] == 0x46u8 && b[3] == 0x46u8
            && b[8] == 0x57u8 && b[9] == 0x41u8 && b[10] == 0x56u8 && b[11] == 0x45u8 && (forall|
            j: int,
        | 0 <= j ==> !spells_data(b, j)) ==> wav_scan(b) == WavScan::NeedMore,
{
    lemma_first_data_tag(b, 0);
    assert forall|j: int| #[trigger] spells_data(b, j) == data_tag_at(b, j) by {}
    if let Some(q) = first_data_tag(b, 0) {
        assert(spells_data(b, q));
    }
    assert forall|p: int|
        #![trigger spells_data(b, p)]
        b.len() >= 12 && riff_wave_tags(b) && spells_data(b, p) && (forall|j: int|
            0 <= j < p ==> !spells_data(b, j)) implies first_data_tag(b, 0) == Some(p) by {
        if first_data_tag(b, 0) != Some(p) {
            match first_data_tag(b, 0) {
                Some(q) => {
                    if q < p {
                        assert(spells_data(b, q));
                    } else {
                        assert(!data_tag_at(b, p));
                    }
                },
                None => {
                    assert(!data_tag_at(b, p));
                },
            }
        }
    }
}

/// A header that is found starts with the `RIFF`/`WAVE` tags and ends right
/// after the four length bytes that follow the first `data` tag.
pub proof fn lemma_wav_header_shape(b: Seq<u8>)
    requires
        b.len() <= usize::MAX,
    ensures
        wav_scan(b) matches WavScan::HeaderEnd(n) ==> {
            &&& 12 <= n <= b.len()
            &&& riff_wave_tags(b.take(n as int))
            &&& data_tag_at(b.take(n as int), n - 8)
            &&& first_data_tag(b, 0) == Some(n - 8)
        },
{
    lemma_first_data_tag(b, 0);
    if let WavScan::HeaderEnd(n) = wav_scan(b) {
        let p: int = first_data_tag(b, 0)->0;
        assert(p >= 4) by {
            if p < 4 {
                assert(b[p] != 0x64u8);
            }
        }
        assert(b.take(n as int)[p] == b[p]);
        assert(b.take(n as int)[p + 1] == b[p + 1]);
        assert(b.take(n as int)[p + 2] == b[p + 2]);
        assert(b.take(n as int)[p + 3] == b[p + 3]);
    }
}

/// What a step of reading the start of a WAV stream gives.
#[derive(Debug)]
pub enum WavHeaderStep {
    /// More bytes are needed.
    NeedMore,
    /// The header, and the audio bytes that came after it.
    Found(Vec<u8>, Vec<u8>),
    /// The stream is not WAV.
    Failed(Error),
}

/// Reads the header of a WAV stream from the chunks it arrives in.
pub struct WavHeaderReader {
    header: Vec<u8>,
}

impl View for WavHeaderReader {
    type V = Seq<u8>;

    closed spec fn view(&self) -> Seq<u8> {
        self.header@
    }
}

impl WavHeaderReader {
    /// A reader that has seen no bytes yet.
    pub fn new() -> (r: Self)
        ensures
            r@ == Seq::<u8>::empty(),
    {
        WavHeaderReader { header: Vec::new() }
    }

    /// Takes the next chunk of the stream and tells what the bytes so far
    /// hold: the header and the bytes after it once the header is complete,
    /// an error once the stream is known not to be WAV.
    pub fn push(&mut self, chunk: Vec<u8>) -> (r: WavHeaderStep)
        ensures
            ({
                let all = old(self)@ + chunk@;
                match wav_scan(all) {
                    WavScan::NeedMore => r is NeedMore && final(self)@ == all,
                    WavScan::Invalid => r matches WavHeaderStep::Failed(Error::ParseError(m))
                        && m@ == "Invalid wav header"@,
                    WavScan::HeaderEnd(n) => r matches WavHeaderStep::Found(header, rest)
                        && header@ == all.take(n as int) && rest@ == all.skip(n as int),
                }
            }),
    {
        let mut chunk = chunk;
        self.header.append(&mut chunk);
        let header_len: usize = self.header.len();
        assert(self.header@.len() == header_len);
        match scan_wav_header(&self.header) {
            WavScan::NeedMore => WavHeaderStep::NeedMore,
            WavScan::Invalid => WavHeaderStep::Failed(
                Error::ParseError(String::from_str("Invalid wav header")),
            ),
            WavScan::HeaderEnd(n) => {
                proof {
                    lemma_wav_header_shape(self.header@);
                }
                let mut header: Vec<u8> = Vec::new();
                std::mem::swap(&mut self.header, &mut header);
                let rest = header.split_off(n);
                WavHeaderStep::Found(header, rest)
            },
        }
    }

    /// The error for a stream that ended before its header was complete.
    pub fn finish(&self) -> (e: Error)
        ensures
            e matches Error::ParseError(m) && m@
                == "Reached end of stream without finding 'data' chunk"@,
    {
        Error::ParseError(String::from_str("Reached end of stream without finding 'data' chunk"))
    }
}

/// The audio bytes that wait to be sent to the service.
pub struct AudioBuffer {
    buffer: Vec<u8>,
}

impl View for AudioBuffer {
    type V = Seq<u8>;

    closed spec fn view(&self) -> Seq<u8> {
        self.buffer@
    }
}

/// The number of bytes that the next chunk of `b` takes, once no more audio
/// arrives.
pub open spec fn final_chunk_len(b: Seq<u8>) -> int {
    if b.len() < BUFFER_SIZE {
        b.len() as int
    } else {
        BUFFER_SIZE as int
    }
}

/// The chunks that `b` is sent in once no more audio arrives: full chunks
/// from the front, then the short rest.
pub open spec fn final_chunks(b: Seq<u8>) -> Seq<Seq<u8>>
    decreases b.len(),
{
    if b.len() == 0 {
        Seq::empty()
    } else {
        seq![b.take(final_chunk_len(b))] + final_chunks(b.skip(final_chunk_len(b)))
    }
}

/// Sending what is left in the buffer loses no byte and reorders none: the
/// chunks, taken in turn, are the buffered bytes; none is empty, none is
/// larger than `BUFFER_SIZE`, and all but the last are full.
pub proof fn lemma_final_chunks(b: Seq<u8>)
    ensures
        final_chunks(b).flatten() == b,
        forall|i: int|
            0 <= i < final_chunks(b).len() ==> 0 < #[trigger] final_chunks(b)[i].len()
                <= BUFFER_SIZE,
        forall|i: int|
            0 <= i < final_chunks(b).len() - 1 ==> #[trigger] final_chunks(b)[i].len()
                == BUFFER_SIZE,
    decreases b.len(),
{
    if b.len() > 0 {
        let n: int = final_chunk_len(b);
        let rest = b.skip(n);
        lemma_final_chunks(rest);
        let cs = final_chunks(b);
        assert(cs.first() == b.take(n));
        assert(cs.drop_first() =~= final_chunks(rest));
        assert(b =~= b.take(n) + rest);
        assert forall|i: int| 0 <= i < cs.len() - 1 implies #[trigger] cs[i].len() == BUFFER_SIZE by {
            if i > 0 {
                assert(cs[i] == final_chunks(rest)[i - 1]);
            } else if rest.len() > 0 {
                assert(n == BUFFER_SIZE);
            }
        }
        assert forall|i: int| 0 <= i < cs.len() implies 0 < #[trigger] cs[i].len() <= BUFFER_SIZE by {
            if i > 0 {
                assert(cs[i] == final_chunks(rest)[i - 1]);
            }
        }
    }
}

impl AudioBuffer {
    /// A buffer that starts with `initial`.
    pub fn new(initial: Vec<u8>) -> (r: Self)
        ensures
            r@ == initial@,
    {
        let mut buffer: Vec<u8> = Vec::with_capacity(BUFFER_SIZE);
        let mut initial = initial;
        buffer.append(&mut initial);
        AudioBuffer { buffer }
    }

    /// Adds audio at the end of the buffer.
    pub fn extend(&mut self, chunk: Vec<u8>)
        ensures
            final(self)@ == old(self)@ + chunk@,
    {
        let mut chunk = chunk;
        self.buffer.append(&mut chunk);
    }

    /// Takes a full chunk from the front of the buffer, if there is one.
    pub fn next_full_chunk(&mut self) -> (r: Option<Vec<u8>>)
        ensures
            old(self)@.len() >= BUFFER_SIZE ==> (r matches Some(c) && c@ == old(self)@.take(
                BUFFER_SIZE as int,
            ) && final(self)@ == old(self)@.skip(BUFFER_SIZE as int)),
            old(self)@.len() < BUFFER_SIZE ==> r is None && final(self)@ == old(self)@,
    {
        if self.buffer.len() >= BUFFER_SIZE {
            let rest = self.buffer.split_off(BUFFER_SIZE);
            let mut chunk = rest;
            std::mem::swap(&mut self.buffer, &mut chunk);
            Some(chunk)
        } else {
            None
        }
    }

    /// Once no more audio arrives: takes the next chunk from the front of the
    /// buffer, full or the last short one, while the buffer is not empty.
    pub fn next_final_chunk(&mut self) -> (r: Option<Vec<u8>>)
        ensures
            old(self)@.len() > 0 ==> (r matches Some(c) && c@ == old(self)@.take(
                final_chunk_len(old(self)@),
            ) && final(self)@ == old(self)@.skip(final_chunk_len(old(self)@))),
            old(self)@.len() > 0 ==> (r matches Some(c) && c@ == final_chunks(old(self)@)[0]
                && final_chunks(final(self)@) == final_chunks(old(self)@).drop_first()),
            old(self)@.len() == 0 ==> r is None && final(self)@ == old(self)@,
    {
        if self.buffer.len() == 0 {
            return None;
        }
        let n: usize = if self.buffer.len() < BUFFER_SIZE {
            self.buffer.len()
        } else {
            BUFFER_SIZE
        };
        let rest = self.buffer.split_off(n);
        let mut chunk = rest;
        std::mem::swap(&mut self.buffer, &mut chunk);
        proof {
            let b = old(self)@;
            assert(final_chunks(b).drop_first() =~= final_chunks(b.skip(final_chunk_len(b))));
        }
        Some(chunk)
    }
}

} // verus!
