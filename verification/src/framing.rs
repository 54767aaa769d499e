//! Byte framing for the wire: tagged voice datagrams and length-prefixed
//! stream frames. The payloads themselves are CBOR, read and written at the
//! edge of the program.

use vstd::prelude::*;
use crate::protocol::{MAX_FRAME_SIZE, VOICE_INPUT_AUDIO_PACKET_SAMPLES, VoiceInputAudioMessage};
use crate::rtp::{be32, read32, VoiceDatagramError};

verus! {

/// A frame whose length exceeds the protocol maximum.
#[derive(Debug, Clone, Copy, PartialEq, Eq, Structural)]
pub enum FrameLengthError {
    Oversized(usize),
}

/// A voice datagram: the one-byte message tag, then the payload.
pub fn tag_voice_datagram(tag: u8, payload: &[u8]) -> (datagram: Vec<u8>)
    ensures
        datagram@ == seq![tag] + payload@,
{
    let mut datagram: Vec<u8> = Vec::new();
    datagram.push(tag);
    let mut i: usize = 0;
    while i < payload.len()
        invariant
            i <= payload@.len(),
            datagram@ == seq![tag] + payload@.subrange(0, i as int),
        decreases payload@.len() - i,
    {
        datagram.push(payload[i]);
        i = i + 1;
        assert(datagram@ =~= seq![tag] + payload@.subrange(0, i as int));
    }
    assert(payload@.subrange(0, payload@.len() as int) =~= payload@);
    datagram
}

/// The payload of a voice datagram that carries `tag`: an empty datagram and
/// one with another tag are refused.
pub fn voice_datagram_payload(datagram: &[u8], tag: u8) -> (payload: Result<Vec<u8>, VoiceDatagramError>)
    ensures
        datagram@.len() == 0 ==> payload == Err::<Vec<u8>, VoiceDatagramError>(VoiceDatagramError::Empty),
        datagram@.len() > 0 && datagram@[0] != tag ==> payload == Err::<Vec<u8>, VoiceDatagramError>(
            VoiceDatagramError::UnknownTag(datagram@[0]),
        ),
        datagram@.len() > 0 && datagram@[0] == tag ==> (payload matches Ok(p) && p@ == datagram@.drop_first()),
{
    if datagram.len() == 0 {
        return Err(VoiceDatagramError::Empty);
    }
    if datagram[0] != tag {
        return Err(VoiceDatagramError::UnknownTag(datagram[0]));
    }
    let mut payload: Vec<u8> = Vec::new();
    let mut i: usize = 1;
    while i < datagram.len()
        invariant
            1 <= i <= datagram@.len(),
            payload@ == datagram@.subrange(1, i as int),
        decreases datagram@.len() - i,
    {
        payload.push(datagram[i]);
        i = i + 1;
        assert(payload@ =~= datagram@.subrange(1, i as int));
    }
    assert(payload@ =~= datagram@.drop_first());
    Ok(payload)
}

/// Reading the payload of a tagged datagram gives back what was tagged.
pub proof fn voice_datagram_round_trip(tag: u8, payload: Seq<u8>)
    ensures
        (seq![tag] + payload).len() > 0,
        (seq![tag] + payload)[0] == tag,
        (seq![tag] + payload).drop_first() == payload,
{
    assert((seq![tag] + payload).drop_first() =~= payload);
}

/// A voice input chunk may hold at most one packet's worth of samples.
pub fn check_voice_input_audio(message: VoiceInputAudioMessage) -> (checked: Result<VoiceInputAudioMessage, VoiceDatagramError>)
    ensures
        message.samples@.len() > VOICE_INPUT_AUDIO_PACKET_SAMPLES ==> checked == Err::<VoiceInputAudioMessage, VoiceDatagramError>(
            VoiceDatagramError::VoiceInputAudioTooLarge,
        ),
        message.samples@.len() <= VOICE_INPUT_AUDIO_PACKET_SAMPLES ==> checked == Ok::<VoiceInputAudioMessage, VoiceDatagramError>(message),
{
    if message.samples.len() > VOICE_INPUT_AUDIO_PACKET_SAMPLES {
        Err(VoiceDatagramError::VoiceInputAudioTooLarge)
    } else {
        Ok(message)
    }
}

/// The four-byte big-endian length that precedes a payload of `length` bytes.
pub fn frame_header(length: usize) -> (header: Result<[u8; 4], FrameLengthError>)
    ensures
        length > MAX_FRAME_SIZE ==> header == Err::<[u8; 4], FrameLengthError>(FrameLengthError::Oversized(length)),
        length <= MAX_FRAME_SIZE ==> (header matches Ok(h) && h@ == be32(length as nat)),
{
    if length > MAX_FRAME_SIZE {
        return Err(FrameLengthError::Oversized(length));
    }
    let x = length as u32;
    let h: [u8; 4] = [(x / 16777216) as u8, ((x / 65536) % 256) as u8, ((x / 256) % 256) as u8, (x % 256) as u8];
    assert(h@ =~= be32(length as nat));
    Ok(h)
}

/// The payload length that a frame header announces, refused above the
/// protocol maximum.
pub fn frame_payload_length(header: [u8; 4]) -> (length: Result<usize, FrameLengthError>)
    ensures
        read32(header@, 0) > MAX_FRAME_SIZE ==> length == Err::<usize, FrameLengthError>(
            FrameLengthError::Oversized(read32(header@, 0) as usize),
        ),
        read32(header@, 0) <= MAX_FRAME_SIZE ==> length == Ok::<usize, FrameLengthError>(read32(header@, 0) as usize),
{
    let n: u32 = (header[0] as u32) * 16777216 + (header[1] as u32) * 65536 + (header[2] as u32) * 256 + (header[3] as u32);
    assert(n as nat == read32(header@, 0));
    if n as usize > MAX_FRAME_SIZE {
        return Err(FrameLengthError::Oversized(n as usize));
    }
    Ok(n as usize)
}

/// A frame header announces exactly the length it was written for.
pub proof fn frame_length_round_trip(length: nat)
    requires
        length <= MAX_FRAME_SIZE,
    ensures
        read32(be32(length), 0) == length,
{
    let x = length;
    assert(x / 16777216 < 256) by (nonlinear_arith) requires x <= 4194304;
    assert(((x / 16777216) as u8) as nat == x / 16777216);
    assert((((x / 65536) % 256) as u8) as nat == (x / 65536) % 256);
    assert((((x / 256) % 256) as u8) as nat == (x / 256) % 256);
    assert(((x % 256) as u8) as nat == x % 256);
    assert((x / 16777216) * 16777216 + ((x / 65536) % 256) * 65536 + ((x / 256) % 256) * 256 + x % 256 == x)
        by (nonlinear_arith);
}

} // verus!
