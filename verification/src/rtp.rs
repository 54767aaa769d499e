//! RTP packets carrying 16-bit big-endian linear PCM (L16) voice audio.

use vstd::prelude::*;
use crate::protocol::VOICE_AUDIO_PAYLOAD_TYPE;

verus! {

/// Why a voice datagram or RTP packet was refused.
#[derive(Debug, Clone, Copy, PartialEq, Eq, Structural)]
pub enum VoiceDatagramError {
    Empty,
    UnknownTag(u8),
    RtpTooShort,
    RtpVersion(u8),
    RtpPayloadType(u8),
    RtpLayout,
    RtpOddPayload,
    VoiceInputAudioTooLarge,
}

/// One RTP L16 packet.
#[derive(Debug, Clone, PartialEq, Eq)]
pub struct RtpL16Packet {
    pub marker: bool,
    pub sequence: u16,
    pub timestamp: u32,
    pub ssrc: u32,
    pub samples: Vec<i16>,
}

/// The mathematical content of an RTP L16 packet.
pub struct RtpView {
    pub marker: bool,
    pub sequence: u16,
    pub timestamp: u32,
    pub ssrc: u32,
    pub samples: Seq<i16>,
}

impl View for RtpL16Packet {
    type V = RtpView;

    open spec fn view(&self) -> RtpView {
        RtpView {
            marker: self.marker,
            sequence: self.sequence,
            timestamp: self.timestamp,
            ssrc: self.ssrc,
            samples: self.samples@,
        }
    }
}

/// Two bytes, most significant first.
pub open spec fn be16(x: nat) -> Seq<u8> {
    seq![(x / 256) as u8, (x % 256) as u8]
}

/// Four bytes, most significant first.
pub open spec fn be32(x: nat) -> Seq<u8> {
    seq![(x / 16777216) as u8, ((x / 65536) % 256) as u8, ((x / 256) % 256) as u8, (x % 256) as u8]
}

/// The unsigned 16-bit word that holds `s` in two's complement.
pub open spec fn sample_word(s: i16) -> nat {
    if s < 0 { (s + 65536) as nat } else { s as nat }
}

/// The signed sample held by a 16-bit word.
pub open spec fn word_sample(w: nat) -> i16 {
    if w >= 32768 { (w - 65536) as i16 } else { w as i16 }
}

/// Byte `j` of the big-endian rendering of `samples`.
pub open spec fn sample_byte(samples: Seq<i16>, j: int) -> u8 {
    if j % 2 == 0 {
        (sample_word(samples[j / 2]) / 256) as u8
    } else {
        (sample_word(samples[j / 2]) % 256) as u8
    }
}

/// The big-endian rendering of `samples`, two bytes each.
pub open spec fn samples_be(samples: Seq<i16>) -> Seq<u8> {
    Seq::new(2 * samples.len(), |j: int| sample_byte(samples, j))
}

/// The second header byte: the marker bit above the payload type.
pub open spec fn marker_byte(marker: bool) -> u8 {
    if marker { (128 + VOICE_AUDIO_PAYLOAD_TYPE) as u8 } else { VOICE_AUDIO_PAYLOAD_TYPE }
}

/// The bytes of a packet: version 2 with no padding, extension or CSRC,
/// the marker and payload type, the three header words, then the samples.
pub open spec fn rtp_bytes(p: RtpView) -> Seq<u8> {
    seq![128u8, marker_byte(p.marker)] + be16(p.sequence as nat) + be32(p.timestamp as nat)
        + be32(p.ssrc as nat) + samples_be(p.samples)
}

/// The big-endian 16-bit value at `at`.
pub open spec fn read16(b: Seq<u8>, at: int) -> nat {
    (b[at] as nat) * 256 + (b[at + 1] as nat)
}

/// The big-endian 32-bit value at `at`.
pub open spec fn read32(b: Seq<u8>, at: int) -> nat {
    (b[at] as nat) * 16777216 + (b[at + 1] as nat) * 65536 + (b[at + 2] as nat) * 256 + (b[at + 3] as nat)
}

/// Where the payload starts, past the fixed header, the CSRC list and any
/// header extension; `None` when the packet is too short for them.
pub open spec fn payload_start(p: Seq<u8>) -> Option<int> {
    let header = 12 + 4 * ((p[0] % 16) as int);
    if p.len() < header {
        None
    } else if (p[0] / 16) % 2 == 1 {
        if p.len() < header + 4 {
            None
        } else {
            let start = header + 4 + 4 * read16(p, header + 2);
            if p.len() < start { None } else { Some(start) }
        }
    } else {
        Some(header)
    }
}

/// The payload past the header, less any padding named by its last byte;
/// `None` when the padding does not fit.
pub open spec fn payload_of(p: Seq<u8>, start: int) -> Option<Seq<u8>> {
    let rest = p.subrange(start, p.len() as int);
    if (p[0] / 32) % 2 == 1 {
        if rest.len() == 0 {
            None
        } else {
            let padding = rest.last() as int;
            if padding == 0 || padding > rest.len() {
                None
            } else {
                Some(rest.subrange(0, rest.len() - padding))
            }
        }
    } else {
        Some(rest)
    }
}

/// The samples held by an even-length big-endian payload.
pub open spec fn payload_samples(payload: Seq<u8>) -> Seq<i16> {
    Seq::new(payload.len() / 2, |i: int| word_sample(read16(payload, 2 * i)))
}

/// What a received packet means: its header fields and samples, or the
/// first rule of the RTP L16 layout that it breaks.
pub open spec fn rtp_decoding(p: Seq<u8>) -> Result<RtpView, VoiceDatagramError> {
    if p.len() < 12 {
        Err(VoiceDatagramError::RtpTooShort)
    } else if p[0] / 64 != 2 {
        Err(VoiceDatagramError::RtpVersion(p[0] / 64))
    } else if p[1] % 128 != VOICE_AUDIO_PAYLOAD_TYPE {
        Err(VoiceDatagramError::RtpPayloadType(p[1] % 128))
    } else {
        match payload_start(p) {
            None => Err(VoiceDatagramError::RtpLayout),
            Some(start) => match payload_of(p, start) {
                None => Err(VoiceDatagramError::RtpLayout),
                Some(payload) => if payload.len() % 2 != 0 {
                    Err(VoiceDatagramError::RtpOddPayload)
                } else {
                    Ok(RtpView {
                        marker: p[1] >= 128,
                        sequence: read16(p, 2) as u16,
                        timestamp: read32(p, 4) as u32,
                        ssrc: read32(p, 8) as u32,
                        samples: payload_samples(payload),
                    })
                },
            },
        }
    }
}

fn push_be16(out: &mut Vec<u8>, x: u16)
    ensures
        final(out)@ == old(out)@ + be16(x as nat),
{
    out.push((x / 256) as u8);
    out.push((x % 256) as u8);
    assert(final(out)@ =~= old(out)@ + be16(x as nat));
}

fn push_be32(out: &mut Vec<u8>, x: u32)
    ensures
        final(out)@ == old(out)@ + be32(x as nat),
{
    out.push((x / 16777216) as u8);
    out.push(((x / 65536) % 256) as u8);
    out.push(((x / 256) % 256) as u8);
    out.push((x % 256) as u8);
    assert(final(out)@ =~= old(out)@ + be32(x as nat));
}

impl RtpL16Packet {
    /// The packet's bytes in network order.
    pub fn encode(&self) -> (packet: Vec<u8>)
        ensures
            packet@ == rtp_bytes(self@),
    {
        let mut packet: Vec<u8> = Vec::new();
        packet.push(128u8);
        packet.push(if self.marker { 128u8 + VOICE_AUDIO_PAYLOAD_TYPE } else { VOICE_AUDIO_PAYLOAD_TYPE });
        push_be16(&mut packet, self.sequence);
        push_be32(&mut packet, self.timestamp);
        push_be32(&mut packet, self.ssrc);
        let ghost header = packet@;
        assert(header =~= seq![128u8, marker_byte(self.marker)] + be16(self.sequence as nat)
            + be32(self.timestamp as nat) + be32(self.ssrc as nat));
        let n = self.samples.len();
        let mut i: usize = 0;
        while i < n
            invariant
                n == self.samples@.len(),
                i <= n,
                header.len() == 12,
                packet@.len() == 12 + 2 * i,
                forall|k: int| 0 <= k < 12 ==> packet@[k] == header[k],
                forall|j: int| 0 <= j < 2 * i ==> packet@[12 + j] == sample_byte(self.samples@, j),
            decreases n - i,
        {
            let s = self.samples[i];
            let w: u32 = if s < 0 { (s as i32 + 65536i32) as u32 } else { s as u32 };
            assert(w as nat == sample_word(s));
            packet.push((w / 256) as u8);
            packet.push((w % 256) as u8);
            proof {
                assert forall|j: int| 0 <= j < 2 * (i + 1) implies packet@[12 + j] == sample_byte(self.samples@, j) by {
                    if j >= 2 * i {
                        assert(j / 2 == i as int);
                    }
                }
            }
            i = i + 1;
        }
        assert(packet@ =~= header + samples_be(self.samples@));
        packet
    }

    /// Reads an RTP L16 packet, refusing any other version, payload type or
    /// layout.
    pub fn decode(packet: &[u8]) -> (result: Result<RtpL16Packet, VoiceDatagramError>)
        ensures
            match result {
                Ok(p) => rtp_decoding(packet@) == Ok::<RtpView, VoiceDatagramError>(p@),
                Err(e) => rtp_decoding(packet@) == Err::<RtpView, VoiceDatagramError>(e),
            },
    {
        let p = packet;
        let len = p.len();
        if len < 12 {
            return Err(VoiceDatagramError::RtpTooShort);
        }
        let version = p[0] / 64;
        if version != 2 {
            return Err(VoiceDatagramError::RtpVersion(version));
        }
        let csrc_count = (p[0] % 16) as usize;
        if p[1] % 128 != VOICE_AUDIO_PAYLOAD_TYPE {
            return Err(VoiceDatagramError::RtpPayloadType(p[1] % 128));
        }
        let header_len = 12 + csrc_count * 4;
        if len < header_len {
            return Err(VoiceDatagramError::RtpLayout);
        }
        let mut start = header_len;
        if (p[0] / 16) % 2 == 1 {
            if len < start + 4 {
                return Err(VoiceDatagramError::RtpLayout);
            }
            let words = (p[start + 2] as usize) * 256 + (p[start + 3] as usize);
            start = start + 4 + words * 4;
            if len < start {
                return Err(VoiceDatagramError::RtpLayout);
            }
        }
        assert(payload_start(p@) == Some(start as int));
        let mut end = len;
        if (p[0] / 32) % 2 == 1 {
            if end == start {
                return Err(VoiceDatagramError::RtpLayout);
            }
            let padding = p[len - 1] as usize;
            if padding == 0 || padding > len - start {
                return Err(VoiceDatagramError::RtpLayout);
            }
            end = len - padding;
        }
        let ghost payload = p@.subrange(start as int, end as int);
        assert(payload_of(p@, start as int) == Some(payload)) by {
            let rest = p@.subrange(start as int, len as int);
            if (p@[0] / 32) % 2 == 1 {
                assert(rest.last() == p@[len - 1]);
                assert(rest.subrange(0, rest.len() - (len - end)) =~= payload);
            } else {
                assert(rest =~= payload);
            }
        }
        if (end - start) % 2 != 0 {
            return Err(VoiceDatagramError::RtpOddPayload);
        }
        let count = (end - start) / 2;
        let mut samples: Vec<i16> = Vec::new();
        let mut i: usize = 0;
        while i < count
            invariant
                count == payload.len() / 2,
                payload.len() % 2 == 0,
                start + payload.len() == end,
                end <= len,
                len == p@.len(),
                payload == p@.subrange(start as int, end as int),
                i <= count,
                samples@.len() == i,
                forall|k: int| 0 <= k < i ==> samples@[k] == word_sample(read16(payload, 2 * k)),
            decreases count - i,
        {
            let w: u32 = (p[start + 2 * i] as u32) * 256 + (p[start + 2 * i + 1] as u32);
            assert(w as nat == read16(payload, 2 * i as int));
            let s: i16 = if w >= 32768 { (w as i32 - 65536i32) as i16 } else { w as i16 };
            samples.push(s);
            i = i + 1;
        }
        assert(samples@ =~= payload_samples(payload));
        let result = RtpL16Packet {
            marker: p[1] >= 128,
            sequence: ((p[2] as u32) * 256 + (p[3] as u32)) as u16,
            timestamp: (p[4] as u32) * 16777216 + (p[5] as u32) * 65536 + (p[6] as u32) * 256 + (p[7] as u32),
            ssrc: (p[8] as u32) * 16777216 + (p[9] as u32) * 65536 + (p[10] as u32) * 256 + (p[11] as u32),
            samples,
        };
        Ok(result)
    }
}

proof fn be16_read(x: nat)
    requires
        x < 65536,
    ensures
        read16(be16(x), 0) == x,
{
    assert(x / 256 < 256) by (nonlinear_arith) requires x < 65536;
    assert(((x / 256) as u8) as nat == x / 256);
    assert(((x % 256) as u8) as nat == x % 256);
    assert((x / 256) * 256 + x % 256 == x) by (nonlinear_arith);
}

proof fn be32_read(x: nat)
    requires
        x < 4294967296,
    ensures
        read32(be32(x), 0) == x,
{
    assert(x / 16777216 < 256) by (nonlinear_arith) requires x < 4294967296;
    assert(((x / 16777216) as u8) as nat == x / 16777216);
    assert((((x / 65536) % 256) as u8) as nat == (x / 65536) % 256);
    assert((((x / 256) % 256) as u8) as nat == (x / 256) % 256);
    assert(((x % 256) as u8) as nat == x % 256);
    assert((x / 16777216) * 16777216 + ((x / 65536) % 256) * 65536 + ((x / 256) % 256) * 256 + x % 256 == x)
        by (nonlinear_arith);
}

proof fn sample_word_read(s: i16)
    ensures
        sample_word(s) < 65536,
        ((sample_word(s) / 256) as u8) as nat * 256 + ((sample_word(s) % 256) as u8) as nat == sample_word(s),
        word_sample(sample_word(s)) == s,
{
    let w = sample_word(s);
    assert(w / 256 < 256) by (nonlinear_arith) requires w < 65536;
    assert((w / 256) * 256 + w % 256 == w) by (nonlinear_arith);
}

/// Decoding what was encoded gives the packet back: every packet the
/// backend sends survives the trip to the frontend unchanged.
pub proof fn rtp_round_trip(p: RtpView)
    ensures
        rtp_decoding(rtp_bytes(p)) == Ok::<RtpView, VoiceDatagramError>(p),
{
    let b = rtp_bytes(p);
    let n = p.samples.len();
    let head = seq![128u8, marker_byte(p.marker)];
    let s16 = be16(p.sequence as nat);
    let t32 = be32(p.timestamp as nat);
    let c32 = be32(p.ssrc as nat);
    let body = samples_be(p.samples);
    assert(b.len() == 12 + 2 * n);
    assert(b[0] == 128u8);
    assert(b[1] == marker_byte(p.marker));
    assert(payload_start(b) == Some(12int));
    let rest = b.subrange(12, b.len() as int);
    assert(rest =~= body);
    assert(payload_of(b, 12) == Some(rest));
    be16_read(p.sequence as nat);
    be32_read(p.timestamp as nat);
    be32_read(p.ssrc as nat);
    assert(b.subrange(2, 4) =~= s16);
    assert(b.subrange(4, 8) =~= t32);
    assert(b.subrange(8, 12) =~= c32);
    assert(read16(b, 2) == read16(s16, 0));
    assert(read32(b, 4) == read32(t32, 0));
    assert(read32(b, 8) == read32(c32, 0));
    assert forall|i: int| 0 <= i < n implies word_sample(read16(rest, 2 * i)) == p.samples[i] by {
        assert((2 * i) / 2 == i);
        assert((2 * i + 1) / 2 == i);
        assert((2 * i) % 2 == 0);
        assert((2 * i + 1) % 2 == 1);
        sample_word_read(p.samples[i]);
    }
    assert(payload_samples(rest) =~= p.samples);
}

/// Two bytes read as a big-endian word and written back are the same bytes.
proof fn be16_of_read(x: u8, y: u8)
    ensures
        be16((x as nat) * 256 + (y as nat)) == seq![x, y],
{
    let w = (x as nat) * 256 + (y as nat);
    assert(w / 256 == x as nat && w % 256 == y as nat) by (nonlinear_arith)
        requires w == (x as nat) * 256 + (y as nat), y < 256;
    assert(be16(w) =~= seq![x, y]);
}

/// Four bytes read as a big-endian word and written back are the same bytes.
proof fn be32_of_read(a: u8, b: u8, c: u8, d: u8)
    ensures
        be32((a as nat) * 16777216 + (b as nat) * 65536 + (c as nat) * 256 + (d as nat)) == seq![a, b, c, d],
{
    let w = (a as nat) * 16777216 + (b as nat) * 65536 + (c as nat) * 256 + (d as nat);
    assert(w / 16777216 == a as nat && (w / 65536) % 256 == b as nat && (w / 256) % 256 == c as nat && w % 256 == d as nat)
        by (nonlinear_arith)
        requires w == (a as nat) * 16777216 + (b as nat) * 65536 + (c as nat) * 256 + (d as nat), b < 256, c < 256, d < 256;
    assert(be32(w) =~= seq![a, b, c, d]);
}

/// A 16-bit word read as a sample and written back is the same word.
proof fn word_sample_written(w: nat)
    requires
        w < 65536,
    ensures
        sample_word(word_sample(w)) == w,
{
}

/// Encoding what was decoded gives the bytes back, for every packet with the
/// plain header the backend writes (first byte 0x80: version 2, no padding,
/// no header extension, no CSRC list) that decodes.
pub proof fn rtp_bytes_round_trip(b: Seq<u8>)
    requires
        b.len() >= 2,
        b[0] == 128u8,
        rtp_decoding(b) is Ok,
    ensures
        rtp_bytes(rtp_decoding(b)->Ok_0) == b,
{
    let v = rtp_decoding(b)->Ok_0;
    assert(payload_start(b) == Some(12int));
    let rest = b.subrange(12, b.len() as int);
    assert(payload_of(b, 12) == Some(rest));
    assert(v.samples == payload_samples(rest));
    assert(b[1] == marker_byte(v.marker));
    be16_of_read(b[2], b[3]);
    be32_of_read(b[4], b[5], b[6], b[7]);
    be32_of_read(b[8], b[9], b[10], b[11]);
    assert(read16(b, 2) < 65536);
    assert(read32(b, 4) < 0x1_0000_0000) by (nonlinear_arith)
        requires read32(b, 4) == (b[4] as nat) * 16777216 + (b[5] as nat) * 65536 + (b[6] as nat) * 256 + (b[7] as nat),
            b[4] < 256, b[5] < 256, b[6] < 256, b[7] < 256;
    assert(read32(b, 8) < 0x1_0000_0000) by (nonlinear_arith)
        requires read32(b, 8) == (b[8] as nat) * 16777216 + (b[9] as nat) * 65536 + (b[10] as nat) * 256 + (b[11] as nat),
            b[8] < 256, b[9] < 256, b[10] < 256, b[11] < 256;
    assert(be16(v.sequence as nat) == seq![b[2], b[3]]);
    assert(be32(v.timestamp as nat) == seq![b[4], b[5], b[6], b[7]]);
    assert(be32(v.ssrc as nat) == seq![b[8], b[9], b[10], b[11]]);
    let n = v.samples.len();
    assert(rest.len() == 2 * n);
    assert forall|j: int| 0 <= j < 2 * n implies #[trigger] sample_byte(v.samples, j) == rest[j] by {
        let i = j / 2;
        assert(0 <= i < n);
        let w = read16(rest, 2 * i);
        assert(w < 65536);
        word_sample_written(w);
        assert(v.samples[i] == word_sample(w));
        assert(w / 256 == rest[2 * i] as nat && w % 256 == rest[2 * i + 1] as nat) by (nonlinear_arith)
            requires w == (rest[2 * i] as nat) * 256 + (rest[2 * i + 1] as nat), rest[2 * i + 1] < 256;
        if j % 2 == 0 {
            assert(j == 2 * i);
        } else {
            assert(j == 2 * i + 1);
        }
    }
    assert(samples_be(v.samples) =~= rest);
    assert(rtp_bytes(v) =~= b);
}

} // verus!
