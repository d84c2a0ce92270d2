//! The decoder: header packets first, then one chunk of samples per packet.

use crate::chunk::{plan_chunk, spec_plan, DecodeRequest};
use crate::cursor::{decoded_view, CursorView, SampleCursor};
use crate::error::OpusSourceError;
use crate::metadata::{StreamMetadata, DECODE_SAMPLE_RATE};
use crate::stream::{
    after_read, first_read, pending, source_bytes, stream_packets, ByteStream, PacketSource,
};
use std::time::Duration;
use vstd::prelude::*;

verus! {

/// The nominal length of a frame that the decoder reports, whatever the length
/// of the chunk at hand.
pub const NOMINAL_FRAME_LEN: usize = 240;

/// The two header packets of a stream, as read.
#[derive(Debug)]
pub struct Headers {
    /// The identification header.
    pub id_header: Vec<u8>,
    /// The comment header.
    pub comment_header: Vec<u8>,
}

/// The header packets that the pending reads give: the first two, if both
/// reads yield a packet.
pub open spec fn spec_headers(reads: Seq<Option<Seq<u8>>>) -> Option<(Seq<u8>, Seq<u8>)> {
    match first_read(reads) {
        Some(id_header) => match first_read(after_read(reads)) {
            Some(comment_header) => Some((id_header, comment_header)),
            None => None,
        },
        None => None,
    }
}

/// What is left of the pending reads once the headers have been asked for: the
/// second read is made only where the first gave a packet.
pub open spec fn after_headers(reads: Seq<Option<Seq<u8>>>) -> Seq<Option<Seq<u8>>> {
    if first_read(reads) is Some {
        after_read(after_read(reads))
    } else {
        after_read(reads)
    }
}

/// Reads the identification header and the comment header. A read that fails
/// is an error of the header data, like a malformed header.
pub fn read_metadata(packet: &mut PacketSource) -> (headers: Result<Headers, OpusSourceError>)
    ensures
        match headers {
            Ok(found) => spec_headers(pending(*old(packet))) == Some(
                (found.id_header@, found.comment_header@),
            ),
            Err(error) => spec_headers(pending(*old(packet))) is None && error
                == OpusSourceError::InvalidHeaderData,
        },
        pending(*final(packet)) == after_headers(pending(*old(packet))),
        headers is Ok ==> pending(*final(packet)) == pending(*old(packet)).skip(2),
        source_bytes(*final(packet)) == source_bytes(*old(packet)),
{
    proof {
        if spec_headers(pending(*packet)) is Some {
            lemma_headers_take_two(pending(*packet));
        }
    }
    let id_header = match packet.read_packet() {
        Some(id_header) => id_header,
        None => {
            return Err(OpusSourceError::InvalidHeaderData);
        },
    };
    let comment_header = match packet.read_packet() {
        Some(comment_header) => comment_header,
        None => {
            return Err(OpusSourceError::InvalidHeaderData);
        },
    };
    Ok(Headers { id_header, comment_header })
}

/// Where both header packets are read, exactly two reads have been made: what
/// is left of the pending reads begins with the third.
pub proof fn lemma_headers_take_two(reads: Seq<Option<Seq<u8>>>)
    requires
        spec_headers(reads) is Some,
    ensures
        reads.len() >= 2,
        spec_headers(reads) == Some((reads[0].unwrap(), reads[1].unwrap())),
        after_headers(reads) == reads.skip(2),
{
    assert(reads.skip(1).skip(1) =~= reads.skip(2));
}

/// A stream whose header packets have been read and wait to be parsed. The
/// position at which the stream stood is kept, so that the stream can be handed
/// back as it came.
pub struct HeaderProbe {
    packet: PacketSource,
    origin: u64,
    headers: Headers,
}

impl HeaderProbe {
    /// The packet source, two packets into the stream.
    pub closed spec fn source(&self) -> PacketSource {
        self.packet
    }

    /// The position at which the stream stood when the probe began.
    pub closed spec fn origin(&self) -> u64 {
        self.origin
    }

    /// The header packets that were read.
    pub closed spec fn found(&self) -> (Seq<u8>, Seq<u8>) {
        (self.headers.id_header@, self.headers.comment_header@)
    }

    /// Reads the two header packets of `data`. Where one of them cannot be
    /// read, the stream comes back as it was handed in, bytes and position.
    pub fn begin(data: ByteStream) -> (probe: Result<HeaderProbe, ByteStream>)
        ensures
            match probe {
                Ok(probe) => {
                    &&& spec_headers(stream_packets(data.data@, data.position)) == Some(
                        probe.found(),
                    )
                    &&& pending(probe.source()) == stream_packets(data.data@, data.position).skip(
                        2,
                    )
                    &&& source_bytes(probe.source()) == data.data@
                    &&& probe.origin() == data.position
                },
                Err(stream) => {
                    &&& spec_headers(stream_packets(data.data@, data.position)) is None
                    &&& stream.data@ == data.data@
                    &&& stream.position == data.position
                },
            },
    {
        let origin = data.position;
        let mut packet = PacketSource::new(data);
        match read_metadata(&mut packet) {
            Ok(headers) => Ok(HeaderProbe { packet, origin, headers }),
            Err(_) => {
                let mut stream = packet.into_inner();
                stream.position = origin;
                Err(stream)
            },
        }
    }

    /// The header packets, for the parser.
    pub fn headers(&self) -> (headers: &Headers)
        ensures
            (headers.id_header@, headers.comment_header@) == self.found(),
    {
        &self.headers
    }
}

/// What a decoder answers when it is asked for the next sample.
#[derive(Debug)]
pub enum Step {
    /// The next sample.
    Sample(i16),
    /// The chunk is used up and the next packet has been read: decode it as
    /// the request says, and supply the outcome.
    Decode(DecodeRequest),
    /// The stream gives no more.
    End,
}

/// A step as plain values.
pub enum StepView {
    Sample(i16),
    Decode { packet: Seq<u8>, len: nat },
    End,
}

/// The plain values of a step.
pub open spec fn step_view(step: Step) -> StepView {
    match step {
        Step::Sample(sample) => StepView::Sample(sample),
        Step::Decode(request) => StepView::Decode {
            packet: request.packet@,
            len: request.output@.len(),
        },
        Step::End => StepView::End,
    }
}

/// The state of a decoder as plain values.
pub struct DecoderView {
    /// The metadata that the headers gave.
    pub metadata: StreamMetadata,
    /// The bytes of the stream.
    pub bytes: Seq<u8>,
    /// The outcomes of the packet reads to come.
    pub pending: Seq<Option<Seq<u8>>>,
    /// The sample cursor.
    pub cursor: CursorView,
}

impl DecoderView {
    /// A decoder that has served nothing yet.
    pub open spec fn fresh(
        metadata: StreamMetadata,
        bytes: Seq<u8>,
        pending: Seq<Option<Seq<u8>>>,
    ) -> DecoderView {
        DecoderView { metadata, bytes, pending, cursor: CursorView::empty() }
    }

    /// Asking for the next sample. While the chunk lasts, its next sample is
    /// served and no packet is read. Once it is used up, one packet is read and
    /// planned: either the cursor awaits its decoding, or the stream has ended
    /// and the cursor is left empty.
    pub open spec fn next(self) -> (StepView, DecoderView) {
        if !self.cursor.exhausted() {
            (
                StepView::Sample(self.cursor.take().0.unwrap()),
                DecoderView { cursor: self.cursor.take().1, ..self },
            )
        } else {
            match spec_plan(self.metadata.sample_rate, first_read(self.pending)) {
                Some((packet, len)) => (
                    StepView::Decode { packet, len },
                    DecoderView {
                        pending: after_read(self.pending),
                        cursor: self.cursor.await_chunk(len),
                        ..self
                    },
                ),
                None => (
                    StepView::End,
                    DecoderView {
                        pending: after_read(self.pending),
                        cursor: CursorView::empty(),
                        ..self
                    },
                ),
            }
        }
    }

    /// Taking the outcome of a decoding: the cursor's business alone.
    pub open spec fn supply(self, decoded: Option<Seq<i16>>) -> (Option<i16>, DecoderView) {
        (
            self.cursor.supply(decoded).0,
            DecoderView { cursor: self.cursor.supply(decoded).1, ..self },
        )
    }

    /// The decoder after it has been asked `count` times for the next sample.
    pub open spec fn after_requests(self, count: nat) -> DecoderView
        decreases count,
    {
        if count == 0 {
            self
        } else {
            self.after_requests((count - 1) as nat).next().1
        }
    }

    /// The decoder after one more packet has gone through it: the packet was
    /// asked for, `chunk` was supplied as the outcome of its decoding, and the
    /// chunk was served to its last sample.
    pub open spec fn after_chunk(self, chunk: Seq<i16>) -> DecoderView {
        self.next().1.supply(Some(chunk)).1.after_requests((chunk.len() - 1) as nat)
    }

    /// The decoder after as many packets have gone through it as there are
    /// `chunks`, each decoded to the chunk of its place.
    pub open spec fn after_chunks(self, chunks: Seq<Seq<i16>>) -> DecoderView
        decreases chunks.len(),
    {
        if chunks.len() == 0 {
            self
        } else {
            self.after_chunks(chunks.drop_last()).after_chunk(chunks.last())
        }
    }
}

/// Whether the first reads of `reads` give packets that decode to `chunks` at
/// `sample_rate`: each of them can be planned, and the chunk of its place has
/// the length that the plan asks for.
pub open spec fn decodes_to(
    sample_rate: u32,
    reads: Seq<Option<Seq<u8>>>,
    chunks: Seq<Seq<i16>>,
) -> bool {
    &&& chunks.len() <= reads.len()
    &&& forall|i: int|
        0 <= i < chunks.len() ==> (#[trigger] spec_plan(sample_rate, reads[i])) is Some
            && spec_plan(sample_rate, reads[i]).unwrap().1 == chunks[i].len()
}

/// While the chunk lasts, asking for the next sample serves the chunk in
/// order and reads no packet: after `count` samples the decoder differs only
/// in the place of its cursor.
pub proof fn lemma_samples_before_next_packet(decoder: DecoderView, count: nat)
    requires
        decoder.cursor.well_formed(),
        decoder.cursor.position + count <= decoder.cursor.samples.len(),
    ensures
        decoder.after_requests(count) == (DecoderView {
            cursor: CursorView { position: decoder.cursor.position + count, ..decoder.cursor },
            ..decoder
        }),
        count > 0 ==> decoder.after_requests((count - 1) as nat).next().0 == StepView::Sample(
            decoder.cursor.samples[decoder.cursor.position + count - 1],
        ),
    decreases count,
{
    if count > 0 {
        lemma_samples_before_next_packet(decoder, (count - 1) as nat);
    }
}

/// A chunk of `chunk.len()` samples that the decoder awaits gives exactly that
/// many samples before the next packet is read: the first when it is supplied,
/// the others one per request and in order, with the pending reads untouched.
/// The request after the last sample gives no sample and makes the next read.
pub proof fn lemma_chunk_then_next_packet(decoder: DecoderView, chunk: Seq<i16>, index: nat)
    requires
        decoder.cursor.well_formed(),
        decoder.cursor.accepts(Some(chunk)),
        index < chunk.len(),
    ensures
        decoder.supply(Some(chunk)).0 == Some(chunk[0]),
        index > 0 ==> decoder.supply(Some(chunk)).1.after_requests((index - 1) as nat).next().0
            == StepView::Sample(chunk[index as int]),
        decoder.supply(Some(chunk)).1.after_requests(index).pending == decoder.pending,
        !(decoder.supply(Some(chunk)).1.after_requests(
            (chunk.len() - 1) as nat,
        ).next().0 is Sample),
        decoder.supply(Some(chunk)).1.after_requests((chunk.len() - 1) as nat).next().1.pending
            == after_read(decoder.pending),
{
    let loaded = decoder.supply(Some(chunk)).1;
    if index > 0 {
        lemma_samples_before_next_packet(loaded, (index - 1) as nat);
    }
    lemma_samples_before_next_packet(loaded, index);
    lemma_samples_before_next_packet(loaded, (chunk.len() - 1) as nat);
}

/// A run of packets, each decoded to the chunk of its place, takes the decoder
/// through the pending reads one by one and leaves it with its chunk used up.
pub proof fn lemma_after_chunks(decoder: DecoderView, chunks: Seq<Seq<i16>>, count: int)
    requires
        decoder.cursor.well_formed(),
        decoder.cursor.exhausted(),
        decodes_to(decoder.metadata.sample_rate, decoder.pending, chunks),
        0 <= count <= chunks.len(),
    ensures
        decoder.after_chunks(chunks.take(count)).metadata == decoder.metadata,
        decoder.after_chunks(chunks.take(count)).bytes == decoder.bytes,
        decoder.after_chunks(chunks.take(count)).pending == decoder.pending.skip(count),
        decoder.after_chunks(chunks.take(count)).cursor.well_formed(),
        decoder.after_chunks(chunks.take(count)).cursor.exhausted(),
    decreases count,
{
    if count == 0 {
        assert(decoder.pending.skip(0) =~= decoder.pending);
    } else {
        lemma_after_chunks(decoder, chunks, count - 1);
        let run = chunks.take(count);
        let chunk = chunks[count - 1];
        assert(run.drop_last() =~= chunks.take(count - 1));
        assert(run.last() == chunk);
        let before = decoder.after_chunks(chunks.take(count - 1));
        assert(first_read(before.pending) == decoder.pending[count - 1]);
        assert(spec_plan(decoder.metadata.sample_rate, decoder.pending[count - 1]) is Some);
        assert(after_read(before.pending) =~= decoder.pending.skip(count));
        let loaded = before.next().1.supply(Some(chunk)).1;
        lemma_samples_before_next_packet(loaded, (chunk.len() - 1) as nat);
    }
}

/// A stream served end to end. Let the packets that the pending reads give
/// decode to `chunks`. Then the decoder asks for the packets in order, one
/// decoding each, and serves every chunk whole and in order: its first sample
/// when the chunk is supplied, sample `place` by the request that follows
/// `place - 1` others. A stream of packets that all decode to chunks of one
/// length thus gives that length once for every packet.
pub proof fn lemma_stream_served_in_order(
    decoder: DecoderView,
    chunks: Seq<Seq<i16>>,
    index: int,
    place: int,
)
    requires
        decoder.cursor.well_formed(),
        decoder.cursor.exhausted(),
        decodes_to(decoder.metadata.sample_rate, decoder.pending, chunks),
        0 <= index < chunks.len(),
        0 <= place < chunks[index].len(),
    ensures
        decoder.after_chunks(chunks.take(index)).next().0 == (StepView::Decode {
            packet: decoder.pending[index].unwrap(),
            len: chunks[index].len(),
        }),
        place == 0 ==> decoder.after_chunks(chunks.take(index)).next().1.supply(
            Some(chunks[index]),
        ).0 == Some(chunks[index][0]),
        place > 0 ==> decoder.after_chunks(chunks.take(index)).next().1.supply(
            Some(chunks[index]),
        ).1.after_requests((place - 1) as nat).next().0 == StepView::Sample(chunks[index][place]),
{
    lemma_after_chunks(decoder, chunks, index);
    let before = decoder.after_chunks(chunks.take(index));
    assert(first_read(before.pending) == decoder.pending[index]);
    assert(spec_plan(decoder.metadata.sample_rate, decoder.pending[index]) is Some);
    let loaded = before.next().1.supply(Some(chunks[index])).1;
    if place > 0 {
        lemma_samples_before_next_packet(loaded, (place - 1) as nat);
    }
}

/// A stream served to its end. Once every packet that the container holds has
/// been decoded and served, the next request gives the end of the stream, with
/// no more than the samples of the chunks served before it.
pub proof fn lemma_stream_ends_after_last_chunk(decoder: DecoderView, chunks: Seq<Seq<i16>>)
    requires
        decoder.cursor.well_formed(),
        decoder.cursor.exhausted(),
        decodes_to(decoder.metadata.sample_rate, decoder.pending, chunks),
        chunks.len() == decoder.pending.len(),
    ensures
        decoder.after_chunks(chunks).next().0 == StepView::End,
        decoder.after_chunks(chunks).next().1.pending.len() == 0,
        decoder.after_chunks(chunks).next().1.cursor == CursorView::empty(),
{
    lemma_after_chunks(decoder, chunks, chunks.len() as int);
    assert(chunks.take(chunks.len() as int) =~= chunks);
}

/// Once the container holds no more packets and the chunk is used up, every
/// request gives the end of the stream, however often it is made, and leaves
/// the decoder without samples.
pub proof fn lemma_end_is_final(decoder: DecoderView, count: nat)
    requires
        decoder.pending.len() == 0,
        decoder.cursor.exhausted(),
    ensures
        decoder.after_requests(count).next().0 == StepView::End,
        decoder.after_requests(count).next().1.pending.len() == 0,
        decoder.after_requests(count).next().1.cursor == CursorView::empty(),
        count > 0 ==> decoder.after_requests(count) == decoder.next().1,
    decreases count,
{
    if count > 0 {
        lemma_end_is_final(decoder, (count - 1) as nat);
    }
}

/// A request that gives the end of the stream leaves no sample behind, and so
/// does a decoding that is refused: nothing that was served before can be
/// served again.
pub proof fn lemma_no_stale_samples(decoder: DecoderView, decoded: Option<Seq<i16>>)
    requires
        decoder.cursor.well_formed(),
    ensures
        decoder.next().0 == StepView::End ==> decoder.next().1.cursor == CursorView::empty(),
        decoder.cursor.awaiting is Some && decoder.supply(decoded).0 is None ==> decoder.supply(
            decoded,
        ).1.cursor == CursorView::empty(),
{
}

/// A decoder of one Ogg Opus stream.
pub struct OpusDecoder {
    pub metadata: StreamMetadata,
    packet: PacketSource,
    cursor: SampleCursor,
}

impl View for OpusDecoder {
    type V = DecoderView;

    closed spec fn view(&self) -> DecoderView {
        DecoderView {
            metadata: self.metadata,
            bytes: source_bytes(self.packet),
            pending: pending(self.packet),
            cursor: self.cursor@,
        }
    }
}

impl OpusDecoder {
    /// Ends a probe. With metadata the probe becomes a decoder, which goes on
    /// behind the header packets. Without, the stream comes back with its bytes
    /// as they were and at the position at which the probe began.
    pub fn new(probe: HeaderProbe, parsed: Result<StreamMetadata, OpusSourceError>) -> (decoder:
        Result<Self, ByteStream>)
        ensures
            match decoder {
                Ok(decoder) => parsed is Ok && decoder@ == DecoderView::fresh(
                    parsed.unwrap(),
                    source_bytes(probe.source()),
                    pending(probe.source()),
                ),
                Err(stream) => {
                    &&& parsed is Err
                    &&& stream.data@ == source_bytes(probe.source())
                    &&& stream.position == probe.origin()
                },
            },
    {
        match parsed {
            Ok(metadata) => Ok(Self::from_meta_and_reader(metadata, probe.packet)),
            Err(_) => {
                let mut stream = probe.packet.into_inner();
                stream.position = probe.origin;
                Err(stream)
            },
        }
    }

    /// Makes a decoder of a packet source whose header packets have been read
    /// and parsed. An error of the headers is handed on as it is; the source is
    /// not rewound.
    pub fn from_packet_reader(
        packet: PacketSource,
        parsed: Result<StreamMetadata, OpusSourceError>,
    ) -> (decoder: Result<Self, OpusSourceError>)
        ensures
            match decoder {
                Ok(decoder) => parsed is Ok && decoder@ == DecoderView::fresh(
                    parsed.unwrap(),
                    source_bytes(packet),
                    pending(packet),
                ),
                Err(error) => parsed == Err::<StreamMetadata, OpusSourceError>(error),
            },
    {
        match parsed {
            Ok(metadata) => Ok(Self::from_meta_and_reader(metadata, packet)),
            Err(error) => Err(error),
        }
    }

    fn from_meta_and_reader(metadata: StreamMetadata, packet: PacketSource) -> (decoder: Self)
        ensures
            decoder@ == DecoderView::fresh(metadata, source_bytes(packet), pending(packet)),
    {
        OpusDecoder { metadata, packet, cursor: SampleCursor::new() }
    }

    /// Reads the next packet and plans its decoding, which the cursor then
    /// awaits. Where the read gives no packet that can be decoded the cursor is
    /// left as it is.
    fn load_next_chunk(&mut self) -> (request: Result<DecodeRequest, OpusSourceError>)
        ensures
            final(self)@.metadata == old(self)@.metadata,
            final(self)@.bytes == old(self)@.bytes,
            final(self)@.pending == after_read(old(self)@.pending),
            match request {
                Ok(request) => {
                    &&& spec_plan(old(self)@.metadata.sample_rate, first_read(old(self)@.pending))
                        == Some((request.packet@, request.output@.len()))
                    &&& request.output@ == Seq::new(request.output@.len(), |i: int| 0i16)
                    &&& !request.fec
                    &&& final(self)@.cursor == old(self)@.cursor.await_chunk(request.output@.len())
                },
                Err(error) => {
                    &&& spec_plan(old(self)@.metadata.sample_rate, first_read(old(self)@.pending))
                        is None
                    &&& error == OpusSourceError::InvalidAudioStream
                    &&& final(self)@.cursor == old(self)@.cursor
                },
            },
    {
        let read = self.packet.read_packet();
        let request = plan_chunk(self.metadata.sample_rate, read)?;
        self.cursor.await_chunk(request.output.len());
        Ok(request)
    }

    /// Asks for the next sample. A failure to load the next chunk is the end of
    /// the stream, not an error.
    pub fn next(&mut self) -> (step: Step)
        ensures
            step_view(step) == old(self)@.next().0,
            final(self)@ == old(self)@.next().1,
            match step {
                Step::Decode(request) => !request.fec && request.output@ == Seq::new(
                    request.output@.len(),
                    |i: int| 0i16,
                ),
                _ => true,
            },
    {
        match self.cursor.take() {
            Some(sample) => Step::Sample(sample),
            None => match self.load_next_chunk() {
                Ok(request) => Step::Decode(request),
                Err(_) => {
                    self.cursor.clear();
                    Step::End
                },
            },
        }
    }

    /// Takes the outcome of the decoding that the last step asked for: the
    /// filled buffer, or `None` where the codec failed. Gives the first sample
    /// of the new chunk, or `None` where the stream has ended.
    pub fn supply(&mut self, decoded: Option<Vec<i16>>) -> (sample: Option<i16>)
        ensures
            sample == old(self)@.supply(decoded_view(decoded)).0,
            final(self)@ == old(self)@.supply(decoded_view(decoded)).1,
    {
        self.cursor.supply(decoded)
    }

    /// Gives the packet source back, as far as it has been read.
    pub fn into_inner(self) -> (packet: PacketSource)
        ensures
            pending(packet) == self@.pending,
            source_bytes(packet) == self@.bytes,
    {
        self.packet
    }

    /// The nominal frame length: 240, whatever the chunk at hand.
    pub fn current_frame_len(&self) -> (len: Option<usize>)
        ensures
            len == Some(NOMINAL_FRAME_LEN),
            NOMINAL_FRAME_LEN == 240,
    {
        Some(NOMINAL_FRAME_LEN)
    }

    /// The number of channels that the headers declare.
    pub fn channels(&self) -> (channels: u16)
        ensures
            channels == self@.metadata.channel_count,
    {
        self.metadata.channel_count as u16
    }

    /// The rate of the samples served: 48 kHz, whatever the headers declare.
    pub fn sample_rate(&self) -> (rate: u32)
        ensures
            rate == DECODE_SAMPLE_RATE,
            DECODE_SAMPLE_RATE == 48_000,
    {
        DECODE_SAMPLE_RATE
    }

    /// The length of the stream: not known.
    pub fn total_duration(&self) -> (duration: Option<Duration>)
        ensures
            duration is None,
    {
        None
    }
}

} // verus!
