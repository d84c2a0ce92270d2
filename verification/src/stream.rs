//! The container: an in-memory byte stream and the packets read from it.

use ogg::PacketReader;
use std::io::Cursor;
use vstd::prelude::*;

verus! {

/// A seekable byte stream held in memory.
#[derive(Debug)]
pub struct ByteStream {
    /// The bytes of the stream, from its start.
    pub data: Vec<u8>,
    /// The read position, counted in bytes from the start.
    pub position: u64,
}

/// A reader of container packets over a byte stream: `ogg::PacketReader` on a
/// `std::io::Cursor` over the stream's bytes. Nothing inside it is visible
/// here; what it holds goes by the names below, which rest on the reader being
/// a function of the bytes, the position it was opened at and the reads made.
#[verifier::external_body]
pub struct PacketSource {
    inner: PacketReader<Cursor<Vec<u8>>>,
}

/// What a packet source still holds: the outcomes of the reads to come, in
/// order, up to the last read that yields a packet. A read that yields a packet
/// stands as `Some` of its bytes, a read that fails before a later one succeeds
/// as `None`. Past the end of the sequence every read fails.
pub uninterp spec fn pending(source: PacketSource) -> Seq<Option<Seq<u8>>>;

/// The bytes of the stream that a packet source reads from.
pub uninterp spec fn source_bytes(source: PacketSource) -> Seq<u8>;

/// What a packet source holds when it is opened on `bytes` at `position`.
pub uninterp spec fn stream_packets(bytes: Seq<u8>, position: u64) -> Seq<Option<Seq<u8>>>;

/// The outcome of a packet read as plain bytes.
pub open spec fn read_view(read: Option<Vec<u8>>) -> Option<Seq<u8>> {
    match read {
        Some(packet) => Some(packet@),
        None => None,
    }
}

/// What is left of the pending reads once the first has been made.
pub open spec fn after_read(reads: Seq<Option<Seq<u8>>>) -> Seq<Option<Seq<u8>>> {
    if reads.len() > 0 {
        reads.skip(1)
    } else {
        reads
    }
}

/// The outcome of the first of the pending reads.
pub open spec fn first_read(reads: Seq<Option<Seq<u8>>>) -> Option<Seq<u8>> {
    if reads.len() > 0 {
        reads[0]
    } else {
        None
    }
}

/// `PacketReader::new`, over a cursor that stands at the stream's position: the
/// reader only stores the cursor, so what it holds is a matter of the bytes and
/// the position alone.
#[verifier::external_body]
fn open_reader(stream: ByteStream) -> (source: PacketSource)
    ensures
        pending(source) == stream_packets(stream.data@, stream.position),
        source_bytes(source) == stream.data@,
{
    let mut cursor = Cursor::new(stream.data);
    cursor.set_position(stream.position);
    PacketSource { inner: PacketReader::new(cursor) }
}

/// `PacketReader::read_packet_expected`: the first of the pending reads. The
/// reader never writes to its stream.
#[verifier::external_body]
fn read_packet_expected(source: &mut PacketSource) -> (read: Option<Vec<u8>>)
    ensures
        read_view(read) == first_read(pending(*old(source))),
        pending(*final(source)) == after_read(pending(*old(source))),
        source_bytes(*final(source)) == source_bytes(*old(source)),
{
    match source.inner.read_packet_expected() {
        Ok(packet) => Some(packet.data),
        Err(_) => None,
    }
}

/// `PacketReader::into_inner`: the stream handed back, with its bytes as they
/// were and its position wherever the reads have left it.
#[verifier::external_body]
fn close_reader(source: PacketSource) -> (stream: ByteStream)
    ensures
        stream.data@ == source_bytes(source),
{
    let cursor = source.inner.into_inner();
    let position = cursor.position();
    ByteStream { data: cursor.into_inner(), position }
}

impl PacketSource {
    /// Opens a packet source on `stream`, at the stream's position.
    pub fn new(stream: ByteStream) -> (source: Self)
        ensures
            pending(source) == stream_packets(stream.data@, stream.position),
            source_bytes(source) == stream.data@,
    {
        open_reader(stream)
    }

    /// Reads the next packet; `None` where the container has ended or is damaged.
    pub fn read_packet(&mut self) -> (read: Option<Vec<u8>>)
        ensures
            read_view(read) == first_read(pending(*old(self))),
            pending(*final(self)) == after_read(pending(*old(self))),
            source_bytes(*final(self)) == source_bytes(*old(self)),
    {
        read_packet_expected(self)
    }

    /// Gives the stream back. Its position is not restored.
    pub fn into_inner(self) -> (stream: ByteStream)
        ensures
            stream.data@ == source_bytes(self),
    {
        close_reader(self)
    }
}

} // verus!
