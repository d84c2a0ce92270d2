use ogg::{PacketWriteEndInfo, PacketWriter};
use opus_stream::decoder::{read_metadata, HeaderProbe, OpusDecoder, Step};
use opus_stream::error::OpusSourceError;
use opus_stream::metadata::{ChannelMode, StreamMetadata};
use opus_stream::stream::{ByteStream, PacketSource};

const SERIAL: u32 = 0x5EED;

/// Hybrid, 20 ms, stereo, one frame.
const HYBRID_STEREO: u8 = 13 << 3 | 1 << 2;

fn id_header() -> Vec<u8> {
    let mut header = b"OpusHead".to_vec();
    header.extend_from_slice(&[1, 2, 0x38, 0x01, 0x80, 0xBB, 0, 0, 0, 0, 0]);
    header
}

fn comment_header() -> Vec<u8> {
    let mut header = b"OpusTags".to_vec();
    header.extend_from_slice(&[4, 0, 0, 0]);
    header.extend_from_slice(b"test");
    header.extend_from_slice(&[0, 0, 0, 0]);
    header
}

fn audio_packet(first: u8, index: usize) -> Vec<u8> {
    vec![first, index as u8, 0xC0, 0xFF, 0xEE]
}

/// An Ogg stream of the given packets, one page each.
fn container(packets: &[Vec<u8>], serial: u32) -> Vec<u8> {
    let mut writer = PacketWriter::new(Vec::new());
    for (index, packet) in packets.iter().enumerate() {
        let info = if index + 1 == packets.len() {
            PacketWriteEndInfo::EndStream
        } else {
            PacketWriteEndInfo::EndPage
        };
        writer.write_packet(packet.clone(), serial, info, index as u64).unwrap();
    }
    writer.into_inner()
}

fn opus_stream_of(audio: &[Vec<u8>]) -> Vec<u8> {
    let mut packets = vec![id_header(), comment_header()];
    packets.extend_from_slice(audio);
    container(&packets, SERIAL)
}

fn stereo_48k() -> StreamMetadata {
    StreamMetadata { channel_count: 2, sample_rate: 48_000 }
}

fn decoder_over(data: Vec<u8>) -> OpusDecoder {
    let probe = match HeaderProbe::begin(ByteStream { data, position: 0 }) {
        Ok(probe) => probe,
        Err(_) => panic!("the header packets are there"),
    };
    match OpusDecoder::new(probe, Ok(stereo_48k())) {
        Ok(decoder) => decoder,
        Err(_) => panic!("the metadata is there"),
    }
}

/// Stands for the codec: fills the buffer with a ramp that starts at the
/// packet's second byte.
fn fake_decode(packet: &[u8], mut output: Vec<i16>) -> Vec<i16> {
    for (place, sample) in output.iter_mut().enumerate() {
        *sample = (packet[1] as i16) * 100 + (place % 100) as i16;
    }
    output
}

/// Pulls samples until the stream ends; gives them with the number of
/// decodings asked for.
fn drain(decoder: &mut OpusDecoder) -> (Vec<i16>, usize) {
    let mut samples = Vec::new();
    let mut decodings = 0;
    loop {
        match decoder.next() {
            Step::Sample(sample) => samples.push(sample),
            Step::Decode(request) => {
                decodings += 1;
                let decoded = fake_decode(&request.packet, request.output);
                match decoder.supply(Some(decoded)) {
                    Some(sample) => samples.push(sample),
                    None => panic!("a chunk of the length asked for is taken"),
                }
            },
            Step::End => return (samples, decodings),
        }
    }
}

#[test]
fn header_packets_are_read_in_order() {
    let data = opus_stream_of(&[audio_packet(HYBRID_STEREO, 0)]);
    let mut source = PacketSource::new(ByteStream { data, position: 0 });
    let headers = read_metadata(&mut source).unwrap();
    assert_eq!(headers.id_header, id_header());
    assert_eq!(headers.comment_header, comment_header());
}

#[test]
fn missing_comment_header_is_a_header_error() {
    let data = container(&[id_header()], SERIAL);
    let mut source = PacketSource::new(ByteStream { data, position: 0 });
    assert_eq!(read_metadata(&mut source).unwrap_err(), OpusSourceError::InvalidHeaderData);
}

#[test]
fn empty_stream_is_a_header_error() {
    let mut source = PacketSource::new(ByteStream { data: Vec::new(), position: 0 });
    assert_eq!(read_metadata(&mut source).unwrap_err(), OpusSourceError::InvalidHeaderData);
}

#[test]
fn no_container_is_a_header_error() {
    let data = b"RIFF....WAVEfmt this is no ogg container at all".to_vec();
    let mut source = PacketSource::new(ByteStream { data, position: 0 });
    assert_eq!(read_metadata(&mut source).unwrap_err(), OpusSourceError::InvalidHeaderData);
}

#[test]
fn failed_probe_hands_the_stream_back_as_it_came() {
    let data = b"RIFF....WAVEfmt this is no ogg container at all".to_vec();
    match HeaderProbe::begin(ByteStream { data: data.clone(), position: 4 }) {
        Ok(_) => panic!("there are no header packets"),
        Err(stream) => {
            assert_eq!(stream.position, 4);
            assert_eq!(stream.data, data);
        },
    }
}

#[test]
fn failed_probe_of_a_truncated_container_rewinds() {
    let mut data = container(&[id_header(), comment_header()], SERIAL);
    data.truncate(data.len() - 5);
    match HeaderProbe::begin(ByteStream { data: data.clone(), position: 0 }) {
        Ok(_) => panic!("the comment header is cut off"),
        Err(stream) => {
            assert_eq!(stream.position, 0);
            assert_eq!(stream.data, data);
        },
    }
}

#[test]
fn failed_parse_hands_the_stream_back_as_it_came() {
    let mut data = vec![0xAB; 7];
    data.extend_from_slice(&opus_stream_of(&[audio_packet(HYBRID_STEREO, 0)]));
    let probe = match HeaderProbe::begin(ByteStream { data: data.clone(), position: 7 }) {
        Ok(probe) => probe,
        Err(_) => panic!("the header packets are there"),
    };
    match OpusDecoder::new(probe, Err(OpusSourceError::InvalidHeaderData)) {
        Ok(_) => panic!("there is no metadata"),
        Err(stream) => {
            assert_eq!(stream.position, 7);
            assert_eq!(stream.data, data);
        },
    }
}

#[test]
fn probe_shows_the_header_packets() {
    let data = opus_stream_of(&[]);
    match HeaderProbe::begin(ByteStream { data, position: 0 }) {
        Ok(probe) => {
            assert_eq!(probe.headers().id_header, id_header());
            assert_eq!(probe.headers().comment_header, comment_header());
        },
        Err(_) => panic!("the header packets are there"),
    }
}

#[test]
fn construction_consumes_exactly_two_packets() {
    let audio = vec![audio_packet(HYBRID_STEREO, 0), audio_packet(HYBRID_STEREO, 1)];
    let decoder = decoder_over(opus_stream_of(&audio));
    let mut source = decoder.into_inner();
    assert_eq!(source.read_packet(), Some(audio[0].clone()));
    assert_eq!(source.read_packet(), Some(audio[1].clone()));
    assert_eq!(source.read_packet(), None);
}

#[test]
fn first_request_reads_the_first_audio_packet() {
    let audio = vec![audio_packet(HYBRID_STEREO, 0), audio_packet(HYBRID_STEREO, 1)];
    let mut decoder = decoder_over(opus_stream_of(&audio));
    match decoder.next() {
        Step::Decode(request) => {
            assert_eq!(request.packet, audio[0]);
            assert_eq!(request.output, vec![0i16; 1_920]);
            assert!(!request.fec);
        },
        _ => panic!("the first audio packet is there"),
    }
}

#[test]
fn decoder_keeps_the_metadata() {
    let decoder = match OpusDecoder::from_packet_reader(
        PacketSource::new(ByteStream { data: Vec::new(), position: 0 }),
        Ok(StreamMetadata { channel_count: 1, sample_rate: 44_100 }),
    ) {
        Ok(decoder) => decoder,
        Err(_) => panic!("the metadata is there"),
    };
    assert_eq!(decoder.metadata, StreamMetadata { channel_count: 1, sample_rate: 44_100 });
}

#[test]
fn reader_mode_hands_the_error_on() {
    let source = PacketSource::new(ByteStream { data: Vec::new(), position: 0 });
    match OpusDecoder::from_packet_reader(source, Err(OpusSourceError::InvalidHeaderData)) {
        Ok(_) => panic!("there is no metadata"),
        Err(error) => assert_eq!(error, OpusSourceError::InvalidHeaderData),
    }
    let source = PacketSource::new(ByteStream { data: Vec::new(), position: 0 });
    match OpusDecoder::from_packet_reader(source, Err(OpusSourceError::InvalidAudioStream)) {
        Ok(_) => panic!("there is no metadata"),
        Err(error) => assert_eq!(error, OpusSourceError::InvalidAudioStream),
    }
}

#[test]
fn reader_mode_goes_on_where_the_source_stands() {
    let audio = vec![audio_packet(HYBRID_STEREO, 0)];
    let data = opus_stream_of(&audio);
    let mut source = PacketSource::new(ByteStream { data, position: 0 });
    read_metadata(&mut source).unwrap();
    let mut decoder = match OpusDecoder::from_packet_reader(source, Ok(stereo_48k())) {
        Ok(decoder) => decoder,
        Err(_) => panic!("the metadata is there"),
    };
    match decoder.next() {
        Step::Decode(request) => assert_eq!(request.packet, audio[0]),
        _ => panic!("the first audio packet is there"),
    }
}

#[test]
fn stream_of_hybrid_stereo_packets_end_to_end() {
    for count in [0usize, 1, 2, 7] {
        let audio: Vec<Vec<u8>> =
            (0..count).map(|index| audio_packet(HYBRID_STEREO, index)).collect();
        let mut decoder = decoder_over(opus_stream_of(&audio));
        let (samples, decodings) = drain(&mut decoder);
        assert_eq!(decodings, count);
        assert_eq!(samples.len(), count * (48_000 * 20 / 1000 * 1 * 2));
        let mut expected = Vec::new();
        for packet in &audio {
            expected.extend(fake_decode(packet, vec![0; 1_920]));
        }
        assert_eq!(samples, expected);
    }
}

#[test]
fn container_that_ends_abruptly_ends_the_stream() {
    let audio: Vec<Vec<u8>> = (0..4).map(|index| audio_packet(HYBRID_STEREO, index)).collect();
    let mut data = opus_stream_of(&audio);
    data.truncate(data.len() - 3);
    let mut decoder = decoder_over(data);
    let (samples, decodings) = drain(&mut decoder);
    assert_eq!(decodings, 3);
    assert_eq!(samples.len(), 3 * 1_920);
    assert!(matches!(decoder.next(), Step::End));
}

#[test]
fn end_of_stream_is_final() {
    let audio = vec![audio_packet(HYBRID_STEREO, 0)];
    let mut decoder = decoder_over(opus_stream_of(&audio));
    let (samples, _) = drain(&mut decoder);
    assert_eq!(samples.len(), 1_920);
    for _ in 0..50 {
        assert!(matches!(decoder.next(), Step::End));
    }
    assert_eq!(decoder.supply(Some(vec![1; 1_920])), None);
    assert!(matches!(decoder.next(), Step::End));
}

#[test]
fn stream_without_audio_ends_at_once() {
    let mut decoder = decoder_over(opus_stream_of(&[]));
    assert!(matches!(decoder.next(), Step::End));
    assert!(matches!(decoder.next(), Step::End));
}

#[test]
fn chunk_is_served_before_the_next_packet_is_read() {
    // configuration 16 (2.5 ms), mono: 120 samples a packet
    let audio = vec![audio_packet(0x80, 1), audio_packet(0x80, 2)];
    let mut decoder = decoder_over(opus_stream_of(&audio));
    let request = match decoder.next() {
        Step::Decode(request) => request,
        _ => panic!("the first audio packet is there"),
    };
    assert_eq!(request.output.len(), 120);
    let chunk = fake_decode(&request.packet, request.output);
    assert_eq!(decoder.supply(Some(chunk.clone())), Some(chunk[0]));
    for place in 1..120 {
        match decoder.next() {
            Step::Sample(sample) => assert_eq!(sample, chunk[place]),
            _ => panic!("the chunk holds 120 samples"),
        }
    }
    match decoder.next() {
        Step::Decode(request) => assert_eq!(request.packet, audio[1]),
        _ => panic!("the second audio packet is there"),
    }
}

#[test]
fn failed_decoding_ends_the_request_only() {
    let audio = vec![audio_packet(HYBRID_STEREO, 0), audio_packet(HYBRID_STEREO, 1)];
    let mut decoder = decoder_over(opus_stream_of(&audio));
    assert!(matches!(decoder.next(), Step::Decode(_)));
    assert_eq!(decoder.supply(None), None);
    match decoder.next() {
        Step::Decode(request) => assert_eq!(request.packet, audio[1]),
        _ => panic!("the second audio packet is there"),
    }
}

#[test]
fn chunk_of_another_length_is_not_served() {
    let audio = vec![audio_packet(HYBRID_STEREO, 0)];
    let mut decoder = decoder_over(opus_stream_of(&audio));
    assert!(matches!(decoder.next(), Step::Decode(_)));
    assert_eq!(decoder.supply(Some(vec![5; 1_919])), None);
    assert!(matches!(decoder.next(), Step::End));
}

#[test]
fn empty_audio_packet_is_an_end() {
    let audio = vec![Vec::new(), audio_packet(HYBRID_STEREO, 1)];
    let mut decoder = decoder_over(opus_stream_of(&audio));
    assert!(matches!(decoder.next(), Step::End));
    match decoder.next() {
        Step::Decode(request) => assert_eq!(request.packet, audio[1]),
        _ => panic!("the second audio packet is there"),
    }
}

#[test]
fn buffers_are_sized_by_the_metadata_rate() {
    let audio = vec![audio_packet(HYBRID_STEREO, 0)];
    let source = {
        let mut source =
            PacketSource::new(ByteStream { data: opus_stream_of(&audio), position: 0 });
        read_metadata(&mut source).unwrap();
        source
    };
    let metadata = StreamMetadata { channel_count: 2, sample_rate: 24_000 };
    let mut decoder = match OpusDecoder::from_packet_reader(source, Ok(metadata)) {
        Ok(decoder) => decoder,
        Err(_) => panic!("the metadata is there"),
    };
    match decoder.next() {
        Step::Decode(request) => assert_eq!(request.output.len(), 960),
        _ => panic!("the first audio packet is there"),
    }
}

#[test]
fn source_opens_at_the_position_of_the_stream() {
    let first = container(&[b"first".to_vec()], 1);
    let second = container(&[b"second".to_vec()], 2);
    let mut data = first.clone();
    data.extend_from_slice(&second);
    let mut from_start = PacketSource::new(ByteStream { data: data.clone(), position: 0 });
    assert_eq!(from_start.read_packet(), Some(b"first".to_vec()));
    let mut from_middle =
        PacketSource::new(ByteStream { data, position: first.len() as u64 });
    assert_eq!(from_middle.read_packet(), Some(b"second".to_vec()));
    assert_eq!(from_middle.read_packet(), None);
}

#[test]
fn source_hands_its_stream_back() {
    let data = opus_stream_of(&[audio_packet(HYBRID_STEREO, 0)]);
    let mut source = PacketSource::new(ByteStream { data: data.clone(), position: 0 });
    assert_eq!(source.read_packet(), Some(id_header()));
    let stream = source.into_inner();
    assert_eq!(stream.data, data);
    assert!(stream.position > 0);
    assert!(stream.position <= data.len() as u64);
}

#[test]
fn exhausted_source_stays_exhausted() {
    let mut source = PacketSource::new(ByteStream { data: container(&[vec![1, 2, 3]], 9), position: 0 });
    assert_eq!(source.read_packet(), Some(vec![1, 2, 3]));
    for _ in 0..5 {
        assert_eq!(source.read_packet(), None);
    }
}

#[test]
fn playback_characteristics() {
    let decoder = decoder_over(opus_stream_of(&[audio_packet(HYBRID_STEREO, 0)]));
    assert_eq!(decoder.current_frame_len(), Some(240));
    assert_eq!(decoder.channels(), 2);
    assert_eq!(decoder.sample_rate(), 48_000);
    assert_eq!(decoder.total_duration(), None);
}

#[test]
fn playback_characteristics_do_not_follow_the_chunk() {
    let mut decoder = decoder_over(opus_stream_of(&[audio_packet(HYBRID_STEREO, 0)]));
    decoder.metadata = StreamMetadata { channel_count: 1, sample_rate: 8_000 };
    match decoder.next() {
        Step::Decode(request) => {
            assert_eq!(request.output.len(), 320);
            decoder.supply(Some(request.output));
        },
        _ => panic!("the first audio packet is there"),
    }
    assert_eq!(decoder.current_frame_len(), Some(240));
    assert_eq!(decoder.channels(), 1);
    assert_eq!(decoder.sample_rate(), 48_000);
}

#[test]
fn channel_mode_of_the_decoder_handle() {
    let mode = |channel_count| StreamMetadata { channel_count, sample_rate: 48_000 }.channel_mode();
    assert_eq!(mode(1), ChannelMode::Mono);
    assert_eq!(mode(2), ChannelMode::Stereo);
    assert_eq!(mode(0), ChannelMode::Stereo);
    assert_eq!(mode(6), ChannelMode::Stereo);
    assert_eq!(mode(255), ChannelMode::Stereo);
}
