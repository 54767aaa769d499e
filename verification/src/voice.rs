//! The computing side of the local voice pipeline: microphone samples and
//! their level, the WAV file a capture is kept in, the HTTP exchanges with
//! the local speech workers, and the text the subscribers say.

use vstd::prelude::*;
use vstd::string::*;
use vstd::utf8::{decode_utf8, encode_utf8, encode_utf8_decode_utf8, valid_utf8};
use crate::cabinet::{joined, SubscriberProfile, VoicePipelineError, VoiceStage};
use crate::protocol::{VoiceInputAudioMessage, VOICE_PROTOCOL_VERSION};
use crate::debug_http::{push_bytes, push_text, find_head_end, head_end, head_terminator, skip_space, skip_spaces, skip_word, skip_word_chars, word_at};
use crate::scan::{find_text, first_occurrence, lemma_first_occurrence, lemma_no_occurrence, occurs_at, prefix_to, suffix_from};
use crate::text::{ascii_lower, ascii_lowercase, chars_of, decimal, push_decimal, same_chars, trim_chars, trimmed};

verus! {

/// The size of a sample, ignoring its sign.
pub open spec fn magnitude(s: i16) -> nat {
    if s < 0 {
        (-s) as nat
    } else {
        s as nat
    }
}

/// The loudest sample's size; zero for no samples.
pub open spec fn peak(samples: Seq<i16>) -> nat
    decreases samples.len(),
{
    if samples.len() == 0 {
        0
    } else {
        let rest = peak(samples.drop_last());
        let last = magnitude(samples.last());
        if rest >= last {
            rest
        } else {
            last
        }
    }
}

proof fn lemma_peak_bound(samples: Seq<i16>)
    ensures
        peak(samples) <= 32768,
    decreases samples.len(),
{
    if samples.len() > 0 {
        lemma_peak_bound(samples.drop_last());
    }
}

/// The loudest sample's size.
pub fn capture_peak(samples: &[i16]) -> (level: u32)
    ensures
        level == peak(samples@),
{
    let mut level: u32 = 0;
    let mut i: usize = 0;
    while i < samples.len()
        invariant
            i <= samples@.len(),
            level == peak(samples@.subrange(0, i as int)),
            level <= 32768,
        decreases samples@.len() - i,
    {
        let s = samples[i];
        let size: u32 = if s < 0 { (-(s as i32)) as u32 } else { s as u32 };
        assert(samples@.subrange(0, i + 1).drop_last() =~= samples@.subrange(0, i as int));
        if size > level {
            level = size;
        }
        i = i + 1;
    }
    assert(samples@.subrange(0, samples@.len() as int) =~= samples@);
    level
}

/// The loudest a capture may be and still count as silence.
pub open spec fn silence_peak_limit() -> nat {
    16
}

/// Refuses a capture whose loudest sample is no louder than silence.
pub fn captured_audio_has_signal(samples: &[i16]) -> (checked: Result<(), VoicePipelineError>)
    ensures
        checked is Ok <==> peak(samples@) > silence_peak_limit(),
        checked matches Err(e) ==> e.stage_spec() == VoiceStage::Capture
            && e.message_spec() == "MICROPHONE CAPTURED SILENCE: SPEAK INTO THE ACTIVE PIPEWIRE INPUT"@,
{
    if capture_peak(samples) <= 16 {
        return Err(VoicePipelineError::new(
            VoiceStage::Capture,
            "MICROPHONE CAPTURED SILENCE: SPEAK INTO THE ACTIVE PIPEWIRE INPUT",
        ));
    }
    Ok(())
}

/// The sum of some samples.
pub open spec fn sum_of(samples: Seq<i16>) -> int
    decreases samples.len(),
{
    if samples.len() == 0 {
        0
    } else {
        sum_of(samples.drop_last()) + samples.last()
    }
}

/// Integer division as Rust does it, rounding toward zero (`b > 0`).
pub open spec fn div_toward_zero(a: int, b: int) -> int {
    if a >= 0 {
        a / b
    } else {
        -((-a) / b)
    }
}

/// The mean of a frame of samples, rounded toward zero.
pub open spec fn frame_mean(frame: Seq<i16>) -> i16 {
    div_toward_zero(sum_of(frame), frame.len() as int) as i16
}

/// The samples mixed to one channel: each frame of `channels` samples (the
/// last one possibly shorter) becomes its mean.
pub open spec fn mixed(input: Seq<i16>, channels: nat) -> Seq<i16>
    decreases input.len(),
{
    if input.len() == 0 || channels == 0 {
        Seq::empty()
    } else if input.len() <= channels {
        seq![frame_mean(input)]
    } else {
        seq![frame_mean(input.take(channels as int))] + mixed(input.skip(channels as int), channels)
    }
}

proof fn lemma_sum_bounds(samples: Seq<i16>)
    ensures
        -32768 * samples.len() <= sum_of(samples) <= 32767 * samples.len(),
    decreases samples.len(),
{
    if samples.len() > 0 {
        lemma_sum_bounds(samples.drop_last());
    }
}

proof fn lemma_mean_fits(s: int, n: int)
    requires
        n > 0,
        -32768 * n <= s <= 32767 * n,
    ensures
        -32768 <= div_toward_zero(s, n) <= 32767,
{
    if s >= 0 {
        assert(s / n <= 32767) by (nonlinear_arith)
            requires
                n > 0,
                0 <= s <= 32767 * n,
        ;
    } else {
        assert((-s) / n <= 32768) by (nonlinear_arith)
            requires
                n > 0,
                0 < -s <= 32768 * n,
        ;
    }
}

/// The mean of `input[start..end]`, rounded toward zero.
fn mean_of(input: &[i16], start: usize, end: usize) -> (mean: i16)
    requires
        start < end <= input@.len(),
    ensures
        mean == frame_mean(input@.subrange(start as int, end as int)),
{
    let ghost frame = input@.subrange(start as int, end as int);
    let mut sum: i128 = 0;
    let mut i: usize = start;
    while i < end
        invariant
            start <= i <= end <= input@.len(),
            frame == input@.subrange(start as int, end as int),
            sum == sum_of(input@.subrange(start as int, i as int)),
            -32768 * (i - start) <= sum <= 32767 * (i - start),
            end <= usize::MAX,
        decreases end - i,
    {
        assert(input@.subrange(start as int, i + 1).drop_last() =~= input@.subrange(start as int, i as int));
        sum = sum + input[i] as i128;
        i = i + 1;
    }
    let count = (end - start) as u128;
    proof {
        lemma_sum_bounds(frame);
        lemma_mean_fits(sum as int, (end - start) as int);
    }
    if sum >= 0 {
        ((sum as u128) / count) as i16
    } else {
        (0 - (((0 - sum) as u128) / count) as i128) as i16
    }
}

/// What one callback of the microphone stream does with its samples: it
/// reports their peak as the level, and while recording keeps them mixed to
/// one channel.
pub fn append_captured_samples(input: &[i16], samples: &mut Vec<i16>, recording: bool, channels: usize) -> (level: u32)
    requires
        channels > 0,
    ensures
        level == peak(input@),
        final(samples)@ == if recording {
            old(samples)@ + mixed(input@, channels as nat)
        } else {
            old(samples)@
        },
{
    let level = capture_peak(input);
    if !recording {
        return level;
    }
    let ghost start = samples@;
    let n = input.len();
    let mut i: usize = 0;
    assert(input@.skip(0) =~= input@);
    while i < n
        invariant
            channels > 0,
            n == input@.len(),
            i <= n,
            samples@ + mixed(input@.skip(i as int), channels as nat) == start + mixed(input@, channels as nat),
        decreases n - i,
    {
        let rest = n - i;
        let ghost tail = input@.skip(i as int);
        if rest <= channels {
            let mean = mean_of(input, i, n);
            assert(tail =~= input@.subrange(i as int, n as int));
            samples.push(mean);
            assert(input@.skip(n as int) =~= Seq::<i16>::empty());
            assert(samples@ + mixed(input@.skip(n as int), channels as nat) =~= start + mixed(input@, channels as nat));
            i = n;
        } else {
            let end = i + channels;
            let mean = mean_of(input, i, end);
            assert(tail.take(channels as int) =~= input@.subrange(i as int, end as int));
            assert(tail.skip(channels as int) =~= input@.skip(end as int));
            samples.push(mean);
            assert(samples@ + mixed(input@.skip(end as int), channels as nat) =~= start + mixed(input@, channels as nat));
            i = end;
        }
    }
    level
}

proof fn lemma_single_mean(frame: Seq<i16>)
    requires
        frame.len() == 1,
    ensures
        frame_mean(frame) == frame[0],
{
    assert(frame.drop_last().len() == 0);
    assert(sum_of(frame.drop_last()) == 0);
    assert(frame.last() == frame[0]);
    assert(sum_of(frame) == frame[0] as int);
    let x = frame[0] as int;
    if x >= 0 {
        assert(x / 1 == x);
    } else {
        assert((-x) / 1 == -x);
    }
    assert(div_toward_zero(x, 1) == x);
}

/// A single-channel stream is kept sample for sample.
pub proof fn law_one_channel_is_kept_as_it_is(input: Seq<i16>)
    ensures
        mixed(input, 1) == input,
    decreases input.len(),
{
    if input.len() > 1 {
        law_one_channel_is_kept_as_it_is(input.skip(1));
        let first = input.take(1);
        lemma_single_mean(first);
        assert(seq![frame_mean(first)] + input.skip(1) =~= input);
    } else if input.len() == 1 {
        lemma_single_mean(input);
        assert(seq![frame_mean(input)] =~= input);
    }
}

/// Refuses a capture file no longer than a bare WAV header.
pub fn captured_audio_has_frames(file_length: u64) -> (checked: Result<(), VoicePipelineError>)
    ensures
        checked is Ok <==> file_length > 44,
        checked matches Err(e) ==> e.stage_spec() == VoiceStage::Capture
            && e.message_spec() == "MICROPHONE RECORDED NO AUDIO"@,
{
    if file_length <= 44 {
        return Err(VoicePipelineError::new(VoiceStage::Capture, "MICROPHONE RECORDED NO AUDIO"));
    }
    Ok(())
}

/// A value's two bytes, least significant first.
pub open spec fn le16(x: nat) -> Seq<u8> {
    seq![(x % 256) as u8, ((x / 256) % 256) as u8]
}

/// A value's four bytes, least significant first.
pub open spec fn le32(x: nat) -> Seq<u8> {
    le16(x % 65536) + le16(x / 65536)
}

/// A value capped at the largest `u32`.
pub open spec fn capped32(x: int) -> nat {
    if x > u32::MAX {
        u32::MAX as nat
    } else {
        x as nat
    }
}

/// The bytes that the samples of a capture take, as the machine counts
/// them: twice the samples, capped at the largest `usize`.
pub open spec fn sample_bytes(count: nat) -> int {
    if 2 * count > usize::MAX {
        usize::MAX as int
    } else {
        (2 * count) as int
    }
}

/// The 44-byte header of a mono, 16-bit PCM WAV file.
pub open spec fn wav_header_bytes(sample_rate: u32, data_length: nat) -> Seq<u8> {
    "RIFF"@.map_values(|c: char| c as u8) + le32(capped32(36 + data_length as int))
        + "WAVEfmt "@.map_values(|c: char| c as u8) + le32(16) + le16(1) + le16(1)
        + le32(sample_rate as nat) + le32(capped32(2 * sample_rate)) + le16(2) + le16(16)
        + "data"@.map_values(|c: char| c as u8) + le32(data_length)
}

fn push_le16(out: &mut Vec<u8>, x: u16)
    ensures
        final(out)@ == old(out)@ + le16(x as nat),
{
    out.push((x % 256) as u8);
    out.push((x / 256) as u8);
    assert(final(out)@ =~= old(out)@ + le16(x as nat));
}

fn push_le32(out: &mut Vec<u8>, x: u32)
    ensures
        final(out)@ == old(out)@ + le32(x as nat),
{
    push_le16(out, (x % 65536) as u16);
    push_le16(out, (x / 65536) as u16);
    assert(final(out)@ =~= old(out)@ + le32(x as nat));
}

fn push_ascii(out: &mut Vec<u8>, text: &str)
    requires
        text@.len() == 4,
        forall|i: int| 0 <= i < 4 ==> (#[trigger] text@[i]) as u32 <= 127,
    ensures
        final(out)@ == old(out)@ + text@.map_values(|c: char| c as u8),
{
    let ghost start = out@;
    let mut i: usize = 0;
    while i < 4
        invariant
            i <= 4,
            text@.len() == 4,
            forall|k: int| 0 <= k < 4 ==> (#[trigger] text@[k]) as u32 <= 127,
            out@ == start + text@.subrange(0, i as int).map_values(|c: char| c as u8),
        decreases 4 - i,
    {
        let c = text.get_char(i);
        out.push(c as u8);
        assert(out@ =~= start + text@.subrange(0, i + 1).map_values(|c: char| c as u8));
        i = i + 1;
    }
    assert(text@.subrange(0, 4) =~= text@);
}

/// The header of the WAV file that keeps a capture of `sample_count`
/// samples; refused where the samples' bytes do not fit the header's field.
pub fn wav_header(sample_rate: u32, sample_count: usize) -> (header: Result<Vec<u8>, VoicePipelineError>)
    ensures
        match header {
            Ok(h) => sample_bytes(sample_count as nat) <= u32::MAX
                && h@ == wav_header_bytes(sample_rate, sample_bytes(sample_count as nat) as nat),
            Err(e) => sample_bytes(sample_count as nat) > u32::MAX && e.stage_spec() == VoiceStage::Capture
                && e.message_spec() == "CAPTURE IS TOO LARGE TO WRITE"@,
        },
{
    let bytes: usize = if sample_count > usize::MAX / 2 { usize::MAX } else { sample_count * 2 };
    if bytes > u32::MAX as usize {
        return Err(VoicePipelineError::new(VoiceStage::Capture, "CAPTURE IS TOO LARGE TO WRITE"));
    }
    let data = bytes as u32;
    proof {
        reveal_strlit("RIFF");
        reveal_strlit("WAVEfmt ");
        reveal_strlit("data");
    }
    let mut h: Vec<u8> = Vec::new();
    push_ascii(&mut h, "RIFF");
    push_le32(&mut h, data.saturating_add(36));
    assert(h@.len() == 8);
    let fmt = "WAVEfmt ";
    let mut i: usize = 0;
    let ghost before = h@;
    while i < 8
        invariant
            i <= 8,
            fmt@ == "WAVEfmt "@,
            fmt@.len() == 8,
            h@ == before + fmt@.subrange(0, i as int).map_values(|c: char| c as u8),
        decreases 8 - i,
    {
        proof { reveal_strlit("WAVEfmt "); }
        let c = fmt.get_char(i);
        h.push(c as u8);
        assert(h@ =~= before + fmt@.subrange(0, i + 1).map_values(|c: char| c as u8));
        i = i + 1;
    }
    assert(fmt@.subrange(0, 8) =~= fmt@);
    push_le32(&mut h, 16);
    push_le16(&mut h, 1);
    push_le16(&mut h, 1);
    push_le32(&mut h, sample_rate);
    let byte_rate: u32 = if sample_rate > u32::MAX / 2 { u32::MAX } else { sample_rate * 2 };
    push_le32(&mut h, byte_rate);
    push_le16(&mut h, 2);
    push_le16(&mut h, 16);
    push_ascii(&mut h, "data");
    push_le32(&mut h, data);
    assert(h@ =~= wav_header_bytes(sample_rate, sample_bytes(sample_count as nat) as nat));
    Ok(h)
}

/// The sample as the 16-bit word that stores it.
pub open spec fn sample_word_le(s: i16) -> nat {
    if s < 0 {
        (s + 65536) as nat
    } else {
        s as nat
    }
}

/// The samples' bytes, each least significant byte first.
pub open spec fn samples_le(samples: Seq<i16>) -> Seq<u8>
    decreases samples.len(),
{
    if samples.len() == 0 {
        Seq::empty()
    } else {
        samples_le(samples.drop_last()) + le16(sample_word_le(samples.last()))
    }
}

/// The bytes that follow the header in a capture's WAV file.
pub fn wav_samples(samples: &[i16]) -> (data: Vec<u8>)
    ensures
        data@ == samples_le(samples@),
{
    let mut data: Vec<u8> = Vec::new();
    let mut i: usize = 0;
    while i < samples.len()
        invariant
            i <= samples@.len(),
            data@ == samples_le(samples@.subrange(0, i as int)),
        decreases samples@.len() - i,
    {
        let s = samples[i];
        let word: u16 = if s < 0 { (s as i32 + 65536) as u16 } else { s as u16 };
        assert(samples@.subrange(0, i + 1).drop_last() =~= samples@.subrange(0, i as int));
        push_le16(&mut data, word);
        i = i + 1;
    }
    assert(samples@.subrange(0, samples@.len() as int) =~= samples@);
    data
}

/// The value of a hexadecimal digit.
pub open spec fn hex_digit(c: char) -> Option<nat> {
    if '0' <= c && c <= '9' {
        Some(((c as nat) - ('0' as nat)) as nat)
    } else if 'a' <= c && c <= 'f' {
        Some(((c as nat) - ('a' as nat) + 10) as nat)
    } else if 'A' <= c && c <= 'F' {
        Some(((c as nat) - ('A' as nat) + 10) as nat)
    } else {
        None
    }
}

pub open spec fn all_hex(s: Seq<char>) -> bool {
    forall|i: int| 0 <= i < s.len() ==> (#[trigger] hex_digit(s[i])) is Some
}

/// The value of a string of hexadecimal digits.
pub open spec fn hex_value(s: Seq<char>) -> nat
    decreases s.len(),
{
    if s.len() == 0 {
        0
    } else {
        hex_value(s.drop_last()) * 16 + match hex_digit(s.last()) {
            Some(d) => d,
            None => 0,
        }
    }
}

proof fn lemma_hex_value_grows(s: Seq<char>, k: int)
    requires
        0 <= k <= s.len(),
    ensures
        hex_value(s.subrange(0, k)) <= hex_value(s),
    decreases s.len() - k,
{
    if k < s.len() {
        lemma_hex_value_grows(s, k + 1);
        let t = s.subrange(0, k + 1);
        assert(t.drop_last() =~= s.subrange(0, k));
    } else {
        assert(s.subrange(0, k) =~= s);
    }
}

/// What `usize::from_str_radix(_, 16)` reads: an optional `+` and at least
/// one hexadecimal digit, within range.
pub open spec fn hex_reading(t: Seq<char>) -> Option<usize> {
    let body = if t.len() > 0 && t[0] == '+' { t.drop_first() } else { t };
    if body.len() == 0 || !all_hex(body) || hex_value(body) > usize::MAX {
        None
    } else {
        Some(hex_value(body) as usize)
    }
}

fn hex_digit_of(c: char) -> (d: Option<usize>)
    ensures
        match d {
            Some(v) => hex_digit(c) == Some(v as nat) && v < 16,
            None => hex_digit(c) is None,
        },
{
    if '0' <= c && c <= '9' {
        Some((c as u32 - '0' as u32) as usize)
    } else if 'a' <= c && c <= 'f' {
        Some((c as u32 - 'a' as u32 + 10) as usize)
    } else if 'A' <= c && c <= 'F' {
        Some((c as u32 - 'A' as u32 + 10) as usize)
    } else {
        None
    }
}

/// Reads a chunk size as `usize::from_str_radix(_, 16)` does.
fn read_hex(t: &Vec<char>) -> (value: Option<usize>)
    ensures
        value == hex_reading(t@),
{
    let start: usize = if t.len() > 0 && t[0] == '+' { 1 } else { 0 };
    let ghost body = t@.skip(start as int);
    assert(body == (if t@.len() > 0 && t@[0] == '+' { t@.drop_first() } else { t@ }));
    let n = t.len();
    if start == n {
        return None;
    }
    let mut value: usize = 0;
    let mut i: usize = start;
    assert(t@.subrange(start as int, start as int) =~= Seq::<char>::empty());
    while i < n
        invariant
            start <= i <= n,
            start < n,
            n == t@.len(),
            body == t@.skip(start as int),
            body == (if t@.len() > 0 && t@[0] == '+' { t@.drop_first() } else { t@ }),
            all_hex(t@.subrange(start as int, i as int)),
            value == hex_value(t@.subrange(start as int, i as int)),
        decreases n - i,
    {
        let c = t[i];
        let ghost prefix = t@.subrange(start as int, i + 1);
        assert(prefix.drop_last() =~= t@.subrange(start as int, i as int));
        assert(prefix.last() == c);
        let d = match hex_digit_of(c) {
            Some(d) => d,
            None => {
                assert(!all_hex(body)) by {
                    assert(body[i - start] == c);
                    assert(hex_digit(body[i - start]) is None);
                }
                return None;
            },
        };
        assert(hex_value(prefix) == value * 16 + d);
        if value > (usize::MAX - d) / 16 {
            proof {
                assert(value * 16 + d > usize::MAX) by (nonlinear_arith)
                    requires value > (usize::MAX - d) / 16, d < 16;
                lemma_hex_value_grows(body, (i + 1 - start) as int);
                assert(body.subrange(0, (i + 1 - start) as int) =~= prefix);
            }
            return None;
        }
        proof {
            assert(value * 16 + d <= usize::MAX) by (nonlinear_arith)
                requires value <= (usize::MAX - d) / 16, d < 16;
        }
        value = value * 16 + d;
        i = i + 1;
        assert(all_hex(t@.subrange(start as int, i as int))) by {
            assert forall|k: int| 0 <= k < i - start implies (#[trigger] hex_digit(t@.subrange(start as int, i as int)[k])) is Some by {
                if k < i - 1 - start {
                    assert(t@.subrange(start as int, i as int)[k] == t@.subrange(start as int, i - 1)[k]);
                }
            }
        }
    }
    assert(t@.subrange(start as int, n as int) =~= body);
    Some(value)
}

/// Calls `std::str::from_utf8`. The contract claims what its documentation
/// promises: it succeeds exactly on bytes that are valid UTF-8 (taken here
/// as vstd's `valid_utf8`), and the text it gives is the one those bytes
/// encode.
#[verifier::external_body]
fn utf8_text(bytes: &[u8]) -> (text: Option<String>)
    ensures
        match text {
            Some(t) => valid_utf8(bytes@) && encode_utf8(t@) == bytes@,
            None => !valid_utf8(bytes@),
        },
{
    match std::str::from_utf8(bytes) {
        Ok(text) => Some(text.to_string()),
        Err(_) => None,
    }
}

/// The text that valid UTF-8 bytes encode.
fn decoded_chars(bytes: &[u8]) -> (chars: Option<Vec<char>>)
    ensures
        match chars {
            Some(c) => valid_utf8(bytes@) && c@ == decode_utf8(bytes@),
            None => !valid_utf8(bytes@),
        },
{
    match utf8_text(bytes) {
        Some(text) => {
            proof { encode_utf8_decode_utf8(text@); }
            Some(chars_of(text.as_str()))
        },
        None => None,
    }
}

/// The line ending of HTTP, as bytes.
pub open spec fn crlf_bytes() -> Seq<u8> {
    seq![13u8, 10u8]
}

/// Finds the first line ending at or after `from`.
fn find_line_end(h: &[u8], from: usize) -> (found: Option<usize>)
    requires
        from <= h@.len(),
    ensures
        match found {
            Some(k) => from <= k && k + 2 <= h@.len() && first_occurrence(h@.skip(from as int), crlf_bytes()) == Some(k - from),
            None => first_occurrence(h@.skip(from as int), crlf_bytes()) is None,
        },
{
    let ghost rest = h@.skip(from as int);
    let n = h.len();
    let mut k: usize = from;
    while k < n && n - k >= 2
        invariant
            from <= k,
            k <= n,
            n == h@.len(),
            rest == h@.skip(from as int),
            forall|j: int| 0 <= j < k - from ==> !occurs_at(rest, crlf_bytes(), j),
        decreases h@.len() - k,
    {
        let ghost w = rest.subrange(k - from, k - from + 2);
        assert(w[0] == h@[k as int] && w[1] == h@[k + 1]);
        if h[k] == 13 && h[k + 1] == 10 {
            assert(w =~= crlf_bytes());
            proof { lemma_first_occurrence(rest, crlf_bytes(), k - from); }
            return Some(k);
        }
        k = k + 1;
    }
    assert forall|j: int| !occurs_at(rest, crlf_bytes(), j) by {}
        proof { lemma_no_occurrence(rest, crlf_bytes()); }
    None
}

/// The part of a chunk-size line before any extension.
pub open spec fn before_semicolon(text: Seq<char>) -> Seq<char> {
    match first_occurrence(text, seq![';']) {
        Some(i) => text.take(i),
        None => text,
    }
}

/// The size a chunk-size line declares: UTF-8 text whose part before any
/// `;`, trimmed, reads as hexadecimal.
#[verifier::opaque]
pub open spec fn chunk_size(line: Seq<u8>) -> Option<usize> {
    if valid_utf8(line) {
        hex_reading(trimmed(before_semicolon(decode_utf8(line))))
    } else {
        None
    }
}

/// The body a chunked transfer encoding carries, or the message that
/// refuses it.
#[verifier::opaque]
pub open spec fn dechunked(encoded: Seq<u8>) -> Result<Seq<u8>, Seq<char>>
    decreases encoded.len(),
{
    match first_occurrence(encoded, crlf_bytes()) {
        None => Err("LOCAL WORKER SENT AN INVALID CHUNK"@),
        Some(line_end) => match chunk_size(encoded.take(line_end)) {
            None => Err("LOCAL WORKER SENT AN INVALID CHUNK SIZE"@),
            Some(size) => {
                let start = line_end + 2;
                let end = start + size;
                if size == 0 {
                    Ok(Seq::empty())
                } else if end + 2 > encoded.len() || line_end < 0 {
                    Err("LOCAL WORKER TRUNCATED A CHUNK"@)
                } else if encoded.subrange(end, end + 2) != crlf_bytes() {
                    Err("LOCAL WORKER SENT AN INVALID CHUNK TERMINATOR"@)
                } else {
                    match dechunked(encoded.skip(end + 2)) {
                        Ok(rest) => Ok(encoded.subrange(start, end) + rest),
                        Err(message) => Err(message),
                    }
                }
            },
        },
    }
}

/// What the chunks after a size line ending at `at` decode to.
pub open spec fn dechunked_after(encoded: Seq<u8>, at: int) -> Result<Seq<u8>, Seq<char>> {
    match chunk_size(encoded.take(at)) {
        None => Err("LOCAL WORKER SENT AN INVALID CHUNK SIZE"@),
        Some(size) => {
            let start = at + 2;
            let end = start + size;
            if size == 0 {
                Ok(Seq::empty())
            } else if end + 2 > encoded.len() || at < 0 {
                Err("LOCAL WORKER TRUNCATED A CHUNK"@)
            } else if encoded.subrange(end, end + 2) != crlf_bytes() {
                Err("LOCAL WORKER SENT AN INVALID CHUNK TERMINATOR"@)
            } else {
                match dechunked(encoded.skip(end + 2)) {
                    Ok(rest) => Ok(encoded.subrange(start, end) + rest),
                    Err(message) => Err(message),
                }
            }
        },
    }
}

proof fn lemma_dechunked(encoded: Seq<u8>)
    ensures
        dechunked(encoded) == match first_occurrence(encoded, crlf_bytes()) {
            None => Err("LOCAL WORKER SENT AN INVALID CHUNK"@),
            Some(at) => dechunked_after(encoded, at),
        },
{
    reveal(dechunked);
}

fn size_of_line(encoded: &[u8], start: usize, end: usize) -> (size: Option<usize>)
    requires
        start <= end <= encoded@.len(),
    ensures
        size == chunk_size(encoded@.subrange(start as int, end as int)),
{
    reveal(chunk_size);
    let mut line: Vec<u8> = Vec::new();
    let mut i: usize = start;
    while i < end
        invariant
            start <= i <= end <= encoded@.len(),
            line@ == encoded@.subrange(start as int, i as int),
        decreases end - i,
    {
        line.push(encoded[i]);
        assert(line@ =~= encoded@.subrange(start as int, i + 1));
        i = i + 1;
    }
    let text = match decoded_chars(line.as_slice()) {
        Some(text) => text,
        None => {
            return None;
        },
    };
    let semicolon = vec![';'];
    assert(semicolon@ =~= seq![';']);
    let field = match find_text(&text, &semicolon, 0) {
        Some(k) => prefix_to(&text, k),
        None => {
            assert(text@.take(text@.len() as int) =~= text@);
            prefix_to(&text, text.len())
        },
    };
    read_hex(&trim_chars(&field))
}

/// Where the data of the chunk whose size line starts at `cursor` lies:
/// none after the last chunk.
fn chunk_at(stage: VoiceStage, encoded: &[u8], cursor: usize) -> (found: Result<Option<(usize, usize)>, VoicePipelineError>)
    requires
        cursor <= encoded@.len(),
    ensures
        match found {
            Err(e) => dechunked(encoded@.skip(cursor as int)) == Err::<Seq<u8>, Seq<char>>(e.message_spec())
                && e.stage_spec() == stage,
            Ok(None) => dechunked(encoded@.skip(cursor as int)) == Ok::<Seq<u8>, Seq<char>>(Seq::empty()),
            Ok(Some((start, end))) => cursor < start <= end && end + 2 <= encoded@.len()
                && dechunked(encoded@.skip(cursor as int)) == match dechunked(encoded@.skip(end + 2)) {
                    Ok(rest) => Ok::<Seq<u8>, Seq<char>>(encoded@.subrange(start as int, end as int) + rest),
                    Err(message) => Err::<Seq<u8>, Seq<char>>(message),
                },
        },
{
    let n = encoded.len();
    let ghost rest = encoded@.skip(cursor as int);
    proof { lemma_dechunked(rest); }
    let line_end = match find_line_end(encoded, cursor) {
        Some(k) => k,
        None => {
            return Err(VoicePipelineError::new(stage, "LOCAL WORKER SENT AN INVALID CHUNK"));
        },
    };
    let ghost at = line_end - cursor;
    assert(rest.take(at) =~= encoded@.subrange(cursor as int, line_end as int));
    let size = match size_of_line(encoded, cursor, line_end) {
        Some(size) => size,
        None => {
            return Err(VoicePipelineError::new(stage, "LOCAL WORKER SENT AN INVALID CHUNK SIZE"));
        },
    };
    let start = line_end + 2;
    if size == 0 {
        return Ok(None);
    }
    if size > n - start || n - start - size < 2 {
        return Err(VoicePipelineError::new(stage, "LOCAL WORKER TRUNCATED A CHUNK"));
    }
    let end = start + size;
    assert(rest.subrange(at + 2 + size, at + 2 + size + 2) =~= encoded@.subrange(end as int, end + 2));
    if !(encoded[end] == 13 && encoded[end + 1] == 10) {
        assert(encoded@.subrange(end as int, end + 2) != crlf_bytes()) by {
            if encoded@.subrange(end as int, end + 2) == crlf_bytes() {
                assert(encoded@.subrange(end as int, end + 2)[0] == encoded@[end as int]);
                assert(encoded@.subrange(end as int, end + 2)[1] == encoded@[end + 1]);
            }
        }
        return Err(VoicePipelineError::new(stage, "LOCAL WORKER SENT AN INVALID CHUNK TERMINATOR"));
    }
    assert(encoded@.subrange(end as int, end + 2) =~= crlf_bytes());
    assert(rest.subrange(at + 2, at + 2 + size) =~= encoded@.subrange(start as int, end as int));
    assert(rest.skip(at + 2 + size + 2) =~= encoded@.skip(end + 2));
    Ok(Some((start, end)))
}

/// Decodes a chunked transfer encoding.
pub fn decode_chunked_body(stage: VoiceStage, encoded: &[u8]) -> (body: Result<Vec<u8>, VoicePipelineError>)
    ensures
        match body {
            Ok(b) => dechunked(encoded@) == Ok::<Seq<u8>, Seq<char>>(b@),
            Err(e) => dechunked(encoded@) == Err::<Seq<u8>, Seq<char>>(e.message_spec()) && e.stage_spec() == stage,
        },
{
    let n = encoded.len();
    let mut cursor: usize = 0;
    let mut decoded: Vec<u8> = Vec::new();
    assert(encoded@.skip(0) =~= encoded@);
    assert(decoded@ + Seq::<u8>::empty() =~= decoded@);
    loop
        invariant
            cursor <= encoded@.len(),
            n == encoded@.len(),
            match dechunked(encoded@.skip(cursor as int)) {
                Ok(rest) => dechunked(encoded@) == Ok::<Seq<u8>, Seq<char>>(decoded@ + rest),
                Err(message) => dechunked(encoded@) == Err::<Seq<u8>, Seq<char>>(message),
            },
        decreases encoded@.len() - cursor,
    {
        match chunk_at(stage, encoded, cursor) {
            Err(e) => {
                return Err(e);
            },
            Ok(None) => {
                assert(decoded@ + Seq::<u8>::empty() =~= decoded@);
                return Ok(decoded);
            },
            Ok(Some((start, end))) => {
                let ghost before = decoded@;
                let mut i: usize = start;
                while i < end
                    invariant
                        start <= i <= end,
                        end + 2 <= encoded@.len(),
                        decoded@ == before + encoded@.subrange(start as int, i as int),
                    decreases end - i,
                {
                    decoded.push(encoded[i]);
                    assert(decoded@ =~= before + encoded@.subrange(start as int, i + 1));
                    i = i + 1;
                }
                proof {
                    match dechunked(encoded@.skip(end + 2)) {
                        Ok(tail) => {
                            assert(before + (encoded@.subrange(start as int, end as int) + tail) =~= decoded@ + tail);
                        },
                        Err(_) => {},
                    }
                }
                cursor = end + 2;
            },
        }
    }
}

/// The status a worker's reply head gives: its second word, or `UNKNOWN`
/// where it has none.
pub open spec fn reply_status(head: Seq<char>) -> Seq<char> {
    let word = word_at(head, skip_word(head, skip_space(head, 0)));
    if word.len() == 0 {
        "UNKNOWN"@
    } else {
        word
    }
}

/// A line without the carriage return that ends it, if any.
pub open spec fn strip_cr(line: Seq<char>) -> Seq<char> {
    if line.len() > 0 && line.last() == '\r' {
        line.drop_last()
    } else {
        line
    }
}

/// Whether a comma-separated list of codings names `chunked`, in any ASCII
/// case and with white space around it.
pub open spec fn lists_chunked(value: Seq<char>) -> bool
    decreases value.len(),
{
    match first_occurrence(value, seq![',']) {
        Some(i) => ascii_lower(trimmed(value.take(i))) == "chunked"@
            || (0 <= i < value.len() && lists_chunked(value.skip(i + 1))),
        None => ascii_lower(trimmed(value)) == "chunked"@,
    }
}

/// Whether a header line declares the chunked transfer coding.
pub open spec fn line_declares_chunked(line: Seq<char>) -> bool {
    match first_occurrence(line, seq![':']) {
        Some(i) => ascii_lower(line.take(i)) == "transfer-encoding"@ && lists_chunked(line.skip(i + 1)),
        None => false,
    }
}

/// Whether some line of a reply head declares the chunked transfer coding;
/// lines end at `\n`, and a `\r` before it belongs to the ending.
pub open spec fn head_declares_chunked(head: Seq<char>) -> bool
    decreases head.len(),
{
    match first_occurrence(head, seq!['\n']) {
        Some(i) => line_declares_chunked(strip_cr(head.take(i)))
            || (0 <= i < head.len() && head_declares_chunked(head.skip(i + 1))),
        None => line_declares_chunked(head),
    }
}

/// The body of a worker's reply, or the message that refuses the reply: the
/// head must end, be text and carry a 2xx status; a chunked body is decoded.
pub open spec fn reply_body(response: Seq<u8>) -> Result<Seq<u8>, Seq<char>> {
    match head_end(response) {
        None => Err("LOCAL WORKER SENT AN INVALID HTTP RESPONSE"@),
        Some(end) => {
            let head_bytes = response.take(end - 4);
            if !valid_utf8(head_bytes) {
                Err("LOCAL WORKER SENT A NON-TEXT HTTP RESPONSE"@)
            } else {
                let head = decode_utf8(head_bytes);
                let status = reply_status(head);
                if !(status[0] == '2') {
                    Err("LOCAL WORKER RETURNED HTTP "@ + status)
                } else if head_declares_chunked(head) {
                    dechunked(response.skip(end))
                } else {
                    Ok(response.skip(end))
                }
            }
        },
    }
}

fn byte_range(v: &[u8], start: usize, end: usize) -> (r: Vec<u8>)
    requires
        start <= end <= v@.len(),
    ensures
        r@ == v@.subrange(start as int, end as int),
{
    let mut r: Vec<u8> = Vec::new();
    let mut i: usize = start;
    while i < end
        invariant
            start <= i <= end <= v@.len(),
            r@ == v@.subrange(start as int, i as int),
        decreases end - i,
    {
        r.push(v[i]);
        assert(r@ =~= v@.subrange(start as int, i + 1));
        i = i + 1;
    }
    r
}

fn names_chunked(piece: &Vec<char>, word: &Vec<char>) -> (yes: bool)
    requires
        word@ == "chunked"@,
    ensures
        yes == (ascii_lower(trimmed(piece@)) == "chunked"@),
{
    same_chars(&ascii_lowercase(&trim_chars(piece)), word)
}

fn value_lists_chunked(value: Vec<char>) -> (yes: bool)
    ensures
        yes == lists_chunked(value@),
{
    let word = chars_of("chunked");
    let comma = vec![','];
    assert(comma@ =~= seq![',']);
    let ghost target = lists_chunked(value@);
    let mut rest = value;
    loop
        invariant
            word@ == "chunked"@,
            comma@ == seq![','],
            target == lists_chunked(value@),
            lists_chunked(rest@) == target,
        decreases rest@.len(),
    {
        match find_text(&rest, &comma, 0) {
            Some(i) => {
                if names_chunked(&prefix_to(&rest, i), &word) {
                    return true;
                }
                assert(rest@.len() == rest.len());
                rest = suffix_from(&rest, i + 1);
            },
            None => {
                return names_chunked(&rest, &word);
            },
        }
    }
}

fn declares_chunked(line: &Vec<char>) -> (yes: bool)
    ensures
        yes == line_declares_chunked(line@),
{
    let colon = vec![':'];
    assert(colon@ =~= seq![':']);
    match find_text(line, &colon, 0) {
        Some(i) => {
            assert(line@.len() == line.len());
            same_chars(&ascii_lowercase(&prefix_to(line, i)), &chars_of("transfer-encoding"))
                && value_lists_chunked(suffix_from(line, i + 1))
        },
        None => false,
    }
}

fn without_cr(line: Vec<char>) -> (stripped: Vec<char>)
    ensures
        stripped@ == strip_cr(line@),
{
    if line.len() > 0 && line[line.len() - 1] == '\r' {
        let stripped = prefix_to(&line, line.len() - 1);
        assert(stripped@ =~= line@.drop_last());
        stripped
    } else {
        line
    }
}

fn any_line_declares_chunked(head: Vec<char>) -> (yes: bool)
    ensures
        yes == head_declares_chunked(head@),
{
    let newline = vec!['\n'];
    assert(newline@ =~= seq!['\n']);
    let ghost target = head_declares_chunked(head@);
    let mut rest = head;
    loop
        invariant
            newline@ == seq!['\n'],
            target == head_declares_chunked(head@),
            head_declares_chunked(rest@) == target,
        decreases rest@.len(),
    {
        match find_text(&rest, &newline, 0) {
            Some(i) => {
                if declares_chunked(&without_cr(prefix_to(&rest, i))) {
                    return true;
                }
                assert(rest@.len() == rest.len());
                rest = suffix_from(&rest, i + 1);
            },
            None => {
                return declares_chunked(&rest);
            },
        }
    }
}

/// The body of a worker's reply.
pub fn http_response_body(stage: VoiceStage, response: &[u8]) -> (body: Result<Vec<u8>, VoicePipelineError>)
    ensures
        match body {
            Ok(b) => reply_body(response@) == Ok::<Seq<u8>, Seq<char>>(b@),
            Err(e) => reply_body(response@) == Err::<Seq<u8>, Seq<char>>(e.message_spec()) && e.stage_spec() == stage,
        },
{
    let end = match find_head_end(response) {
        Some(end) => end,
        None => {
            return Err(VoicePipelineError::new(stage, "LOCAL WORKER SENT AN INVALID HTTP RESPONSE"));
        },
    };
    let head_bytes = byte_range(response, 0, end - 4);
    assert(head_bytes@ =~= response@.take(end - 4));
    let text = match utf8_text(head_bytes.as_slice()) {
        Some(text) => text,
        None => {
            return Err(VoicePipelineError::new(stage, "LOCAL WORKER SENT A NON-TEXT HTTP RESPONSE"));
        },
    };
    proof { encode_utf8_decode_utf8(text@); }
    let head = chars_of(text.as_str());
    let first_start = skip_spaces(&head, 0);
    let first_end = skip_word_chars(&head, first_start);
    let status_start = skip_spaces(&head, first_end);
    let status_end = skip_word_chars(&head, status_start);
    let mut status = if status_start == status_end {
        String::from_str("UNKNOWN")
    } else {
        String::from_str(text.as_str().substring_char(status_start, status_end))
    };
    proof { reveal_strlit("UNKNOWN"); }
    if !(status.as_str().get_char(0) == '2') {
        let mut message = String::from_str("LOCAL WORKER RETURNED HTTP ");
        message.append(status.as_str());
        return Err(VoicePipelineError::new(stage, message.as_str()));
    }
    let rest = byte_range(response, end, response.len());
    assert(rest@ =~= response@.skip(end as int));
    if any_line_declares_chunked(head) {
        decode_chunked_body(stage, rest.as_slice())
    } else {
        Ok(rest)
    }
}

/// The voice a subscriber's Pocket TTS configuration names: what follows
/// `pocket-tts:`, which must not be empty.
pub open spec fn pocket_voice(configuration: Seq<char>) -> Option<Seq<char>> {
    let prefix = "pocket-tts:"@;
    if prefix.is_prefix_of(configuration) && configuration.len() > prefix.len() {
        Some(configuration.skip(prefix.len() as int))
    } else {
        None
    }
}

/// The Pocket TTS voice of a subscriber.
pub fn pocket_tts_voice(profile: &SubscriberProfile) -> (voice: Result<String, VoicePipelineError>)
    ensures
        match voice {
            Ok(v) => pocket_voice(profile.local_voice_configuration@) == Some(v@),
            Err(e) => pocket_voice(profile.local_voice_configuration@) is None && e.stage_spec() == VoiceStage::Tts
                && e.message_spec() == "INVALID POCKET TTS VOICE PROFILE: "@ + profile.local_voice_configuration@,
        },
{
    let configuration = profile.local_voice_configuration;
    let c = chars_of(configuration);
    let prefix = chars_of("pocket-tts:");
    if crate::scan::starts_with(&c, &prefix) && c.len() > prefix.len() {
        Ok(String::from_str(configuration.substring_char(prefix.len(), c.len())))
    } else {
        let mut message = String::from_str("INVALID POCKET TTS VOICE PROFILE: ");
        message.append(configuration);
        Err(VoicePipelineError::new(VoiceStage::Tts, message.as_str()))
    }
}

/// Up to `count` words of `s` from position `i` on, words being separated by
/// white space.
pub open spec fn words_from(s: Seq<char>, i: int, count: nat) -> Seq<Seq<char>>
    decreases count,
{
    let start = skip_space(s, i);
    if count == 0 || start >= s.len() || start < 0 {
        Seq::empty()
    } else {
        seq![s.subrange(start, skip_word(s, start))] + words_from(s, skip_word(s, start), (count - 1) as nat)
    }
}

/// The most words a spoken line may have.
pub open spec fn word_limit() -> nat {
    35
}

/// A text cut to its first thirty-five words, joined by single spaces.
pub open spec fn bounded(s: Seq<char>) -> Seq<char> {
    joined(words_from(s, 0, word_limit()))
}

proof fn lemma_skip_bounds(s: Seq<char>, i: int)
    requires
        0 <= i <= s.len(),
    ensures
        i <= skip_space(s, i) <= s.len(),
        i <= skip_word(s, i) <= s.len(),
    decreases s.len() - i,
{
    if i < s.len() {
        lemma_skip_bounds(s, i + 1);
    }
}

/// Cuts a text to its first thirty-five words, joined by single spaces.
pub fn bounded_text(value: &str) -> (text: String)
    ensures
        text@ == bounded(value@),
{
    let v = chars_of(value);
    let n = v.len();
    let mut text = String::new();
    let mut taken: usize = 0;
    let mut i: usize = 0;
    let ghost mut done: Seq<Seq<char>> = Seq::empty();
    while taken < 35
        invariant
            v@ == value@,
            n == v@.len(),
            i <= n,
            taken <= 35,
            done.len() == taken,
            text@ == joined(done),
            done + words_from(v@, i as int, (35 - taken) as nat) == words_from(v@, 0, 35),
        ensures
            text@ == joined(done),
            done == words_from(v@, 0, 35),
        decreases 35 - taken,
    {
        let start = skip_spaces(&v, i);
        if start >= n {
            assert(words_from(v@, i as int, (35 - taken) as nat) =~= Seq::<Seq<char>>::empty());
            assert(done + Seq::<Seq<char>>::empty() =~= done);
            break;
        }
        let end = skip_word_chars(&v, start);
        proof { lemma_skip_bounds(v@, start as int); }
        let ghost word = v@.subrange(start as int, end as int);
        if taken > 0 {
            text.append(" ");
        }
        text.append(value.substring_char(start, end));
        proof {
            let next = words_from(v@, end as int, (35 - taken - 1) as nat);
            assert(words_from(v@, i as int, (35 - taken) as nat) == seq![word] + next);
            assert(done + (seq![word] + next) =~= done.push(word) + next);
            if taken == 0 {
                assert(done.push(word) =~= seq![word]);
            } else {
                assert(done.push(word).drop_last() =~= done);
            }
            done = done.push(word);
        }
        taken = taken + 1;
        i = end;
        proof {
            if taken == 35 {
                assert(words_from(v@, i as int, 0) =~= Seq::<Seq<char>>::empty());
                assert(done + Seq::<Seq<char>>::empty() =~= done);
            }
        }
    }
    text
}

/// The lower-case form of a text, as `str::to_lowercase` gives it: full
/// Unicode case mapping, the same in every locale.
pub uninterp spec fn unicode_lowercase(text: Seq<char>) -> Seq<char>;

/// Calls `str::to_lowercase`. The contract claims only that the result is
/// the Unicode lower-case form of the text, a function of the text alone.
#[verifier::external_body]
fn lowercase(text: &str) -> (lower: String)
    ensures
        lower@ == unicode_lowercase(text@),
{
    text.to_lowercase()
}

/// `n` occurs somewhere in `h`.
pub open spec fn contains_text(h: Seq<char>, n: Seq<char>) -> bool {
    exists|i: int| occurs_at(h, n, i)
}

/// Whether a reply keeps to the subscriber's goal: a subscriber with an
/// authoritative callee must name it, in any case.
pub open spec fn on_goal(profile: SubscriberProfile, reply: Seq<char>) -> bool {
    match profile.authoritative_callee {
        None => true,
        Some(callee) => contains_text(unicode_lowercase(reply), unicode_lowercase(callee@)),
    }
}

/// Whether the lower-cased reply names the lower-cased callee.
pub fn names_callee(reply: &str, callee: &str) -> (named: bool)
    ensures
        named == contains_text(reply@, callee@),
{
    let r = chars_of(reply);
    let c = chars_of(callee);
    match find_text(&r, &c, 0) {
        Some(i) => true,
        None => false,
    }
}

/// Whether a reply keeps to the subscriber's goal.
pub fn response_is_on_goal(profile: &SubscriberProfile, response: &str) -> (keeps: bool)
    ensures
        keeps == on_goal(*profile, response@),
{
    match profile.authoritative_callee {
        None => true,
        Some(callee) => names_callee(lowercase(response).as_str(), lowercase(callee).as_str()),
    }
}

/// What a subscriber says when no reply keeps to its goal.
pub open spec fn fallback_of(profile: SubscriberProfile) -> Seq<char> {
    bounded("Operator, please connect me. "@ + profile.immediate_goal@)
}

/// What a subscriber says when no reply keeps to its goal.
pub fn fallback_response(profile: &SubscriberProfile) -> (text: String)
    ensures
        text@ == fallback_of(*profile),
{
    let mut text = String::from_str("Operator, please connect me. ");
    text.append(profile.immediate_goal);
    bounded_text(text.as_str())
}

/// A generated reply as the subscriber may say it: cut to thirty-five
/// words, and kept only if it is not empty and keeps to the goal.
pub open spec fn accepted_reply(profile: SubscriberProfile, reply: Seq<char>) -> Option<Seq<char>> {
    let cut = bounded(reply);
    if cut.len() == 0 || !on_goal(profile, cut) {
        None
    } else {
        Some(cut)
    }
}

/// A generated reply as the subscriber may say it, if it may.
pub fn accept_reply(profile: &SubscriberProfile, reply: &str) -> (accepted: Option<String>)
    ensures
        match accepted {
            Some(r) => accepted_reply(*profile, reply@) == Some(r@),
            None => accepted_reply(*profile, reply@) is None,
        },
{
    let cut = bounded_text(reply);
    if cut.as_str().unicode_len() == 0 || !response_is_on_goal(profile, cut.as_str()) {
        None
    } else {
        Some(cut)
    }
}

/// The most lines of dialogue remembered per subscriber.
pub open spec fn dialogue_memory() -> nat {
    4
}

/// The dialogue remembered after a turn: the operator's words and the
/// subscriber's reply are added, and only the last four lines kept.
pub open spec fn remembered(history: Seq<Seq<char>>, identity: Seq<char>, transcript: Seq<char>, response: Seq<char>) -> Seq<Seq<char>> {
    let longer = history.push("OPERATOR: "@ + transcript).push(identity + ": "@ + response);
    if longer.len() > dialogue_memory() {
        longer.skip(longer.len() - dialogue_memory())
    } else {
        longer
    }
}

/// However long the conversation, a subscriber's memory of it keeps at most
/// four lines, and always the two just said.
pub proof fn law_dialogue_memory_is_bounded(history: Seq<Seq<char>>, identity: Seq<char>, transcript: Seq<char>, response: Seq<char>)
    ensures
        remembered(history, identity, transcript, response).len() <= dialogue_memory(),
        remembered(history, identity, transcript, response).last() == identity + ": "@ + response,
        remembered(history, identity, transcript, response)[remembered(history, identity, transcript, response).len() - 2]
            == "OPERATOR: "@ + transcript,
{
}

/// Remembers a turn of dialogue with a subscriber.
pub fn remember_dialogue(history: &mut Vec<String>, identity: &str, transcript: &str, response: &str)
    ensures
        final(history)@.map_values(|line: String| line@)
            == remembered(old(history)@.map_values(|line: String| line@), identity@, transcript@, response@),
{
    let ghost old_lines = history@.map_values(|line: String| line@);
    let mut said = String::from_str("OPERATOR: ");
    said.append(transcript);
    let mut reply = String::from_str(identity);
    reply.append(": ");
    reply.append(response);
    history.push(said);
    history.push(reply);
    let ghost longer = old_lines.push("OPERATOR: "@ + transcript@).push(identity@ + ": "@ + response@);
    assert(history@.map_values(|line: String| line@) =~= longer);
    let ghost mut removed: int = 0;
    while history.len() > 4
        invariant
            history@.map_values(|line: String| line@) == longer.skip(removed),
            0 <= removed <= longer.len(),
            history@.len() == longer.len() - removed,
            removed > 0 ==> history@.len() >= 4,
        decreases history@.len(),
    {
        let ghost before = history@;
        history.remove(0);
        assert(history@ =~= before.subrange(1, before.len() as int));
        assert(history@.map_values(|line: String| line@) =~= longer.skip(removed + 1)) by {
            assert forall|j: int| 0 <= j < history@.len() implies
                history@.map_values(|line: String| line@)[j] == #[trigger] longer.skip(removed + 1)[j] by {
                assert(history@[j] == before[j + 1]);
                assert(before.map_values(|line: String| line@)[j + 1] == longer.skip(removed)[j + 1]);
            }
        }
        proof { removed = removed + 1; }
    }
    assert(longer.skip(0) =~= longer);
}

/// The boundary of the multipart bodies sent to the speech-to-text worker.
pub const STT_BOUNDARY: &'static str = "north-neeladesh-mvp-stt";

/// The boundary of the multipart bodies sent to the text-to-speech worker.
pub const TTS_BOUNDARY: &'static str = "north-neeladesh-mvp-tts";

/// A named field of a multipart form.
pub open spec fn form_field(boundary: Seq<char>, name: Seq<char>, value: Seq<u8>) -> Seq<u8> {
    encode_utf8("--"@ + boundary + "\r\nContent-Disposition: form-data; name=\""@ + name + "\"\r\n\r\n"@)
        + value + crlf_bytes()
}

/// The captured audio as the file field of a multipart form.
pub open spec fn audio_file_field(boundary: Seq<char>, audio: Seq<u8>) -> Seq<u8> {
    encode_utf8("--"@ + boundary
        + "\r\nContent-Disposition: form-data; name=\"file\"; filename=\"capture.wav\"\r\nContent-Type: audio/wav\r\n\r\n"@)
        + audio + crlf_bytes()
}

/// The line that closes a multipart form.
pub open spec fn form_end(boundary: Seq<char>) -> Seq<u8> {
    encode_utf8("--"@ + boundary + "--\r\n"@)
}

/// What the speech-to-text worker is sent: the capture, a temperature of
/// zero and a request for JSON.
pub open spec fn stt_body(audio: Seq<u8>) -> Seq<u8> {
    audio_file_field(STT_BOUNDARY@, audio) + form_field(STT_BOUNDARY@, "temperature"@, encode_utf8("0.0"@))
        + form_field(STT_BOUNDARY@, "response_format"@, encode_utf8("json"@)) + form_end(STT_BOUNDARY@)
}

/// What the text-to-speech worker is sent: the reply and the voice.
pub open spec fn tts_body(text: Seq<char>, voice: Seq<char>) -> Seq<u8> {
    form_field(TTS_BOUNDARY@, "text"@, encode_utf8(text)) + form_field(TTS_BOUNDARY@, "voice_url"@, encode_utf8(voice))
        + form_end(TTS_BOUNDARY@)
}

/// Appends a named field to a multipart form.
pub fn append_form_field(body: &mut Vec<u8>, boundary: &str, name: &str, value: &[u8])
    ensures
        final(body)@ == old(body)@ + form_field(boundary@, name@, value@),
{
    let mut head = String::from_str("--");
    head.append(boundary);
    head.append("\r\nContent-Disposition: form-data; name=\"");
    head.append(name);
    head.append("\"\r\n\r\n");
    push_text(body, head.as_str());
    push_bytes(body, value);
    body.push(13);
    body.push(10);
    assert(final(body)@ =~= old(body)@ + form_field(boundary@, name@, value@));
}

/// Appends the captured audio as the file field of a multipart form.
pub fn append_audio_file(body: &mut Vec<u8>, boundary: &str, audio: &[u8])
    ensures
        final(body)@ == old(body)@ + audio_file_field(boundary@, audio@),
{
    let mut head = String::from_str("--");
    head.append(boundary);
    head.append("\r\nContent-Disposition: form-data; name=\"file\"; filename=\"capture.wav\"\r\nContent-Type: audio/wav\r\n\r\n");
    push_text(body, head.as_str());
    push_bytes(body, audio);
    body.push(13);
    body.push(10);
    assert(final(body)@ =~= old(body)@ + audio_file_field(boundary@, audio@));
}

fn append_form_end(body: &mut Vec<u8>, boundary: &str)
    ensures
        final(body)@ == old(body)@ + form_end(boundary@),
{
    let mut end = String::from_str("--");
    end.append(boundary);
    end.append("--\r\n");
    push_text(body, end.as_str());
}

/// The body sent to the speech-to-text worker.
pub fn stt_request_body(audio: &[u8]) -> (body: Vec<u8>)
    ensures
        body@ == stt_body(audio@),
{
    let mut body: Vec<u8> = Vec::new();
    append_audio_file(&mut body, STT_BOUNDARY, audio);
    append_form_field(&mut body, STT_BOUNDARY, "temperature", "0.0".as_bytes());
    append_form_field(&mut body, STT_BOUNDARY, "response_format", "json".as_bytes());
    append_form_end(&mut body, STT_BOUNDARY);
    assert(body@ =~= stt_body(audio@));
    body
}

/// The body sent to the text-to-speech worker.
pub fn tts_request_body(text: &str, voice: &str) -> (body: Vec<u8>)
    ensures
        body@ == tts_body(text@, voice@),
{
    let mut body: Vec<u8> = Vec::new();
    append_form_field(&mut body, TTS_BOUNDARY, "text", text.as_bytes());
    append_form_field(&mut body, TTS_BOUNDARY, "voice_url", voice.as_bytes());
    append_form_end(&mut body, TTS_BOUNDARY);
    assert(body@ =~= tts_body(text@, voice@));
    body
}

/// The head of a request to a local worker.
pub open spec fn worker_head(path: Seq<char>, port: Seq<char>, content_type: Seq<char>, length: nat) -> Seq<char> {
    "POST "@ + path + " HTTP/1.1\r\nHost: 127.0.0.1:"@ + port + "\r\nContent-Type: "@ + content_type
        + "\r\nContent-Length: "@ + decimal(length) + "\r\nConnection: close\r\n\r\n"@
}

/// The head of a request to the local worker on `port`.
pub fn worker_request_head(path: &str, port: &str, content_type: &str, length: usize) -> (head: String)
    ensures
        head@ == worker_head(path@, port@, content_type@, length as nat),
{
    let mut head = String::from_str("POST ");
    head.append(path);
    head.append(" HTTP/1.1\r\nHost: 127.0.0.1:");
    head.append(port);
    head.append("\r\nContent-Type: ");
    head.append(content_type);
    head.append("\r\nContent-Length: ");
    push_decimal(&mut head, length as u64);
    head.append("\r\nConnection: close\r\n\r\n");
    head
}

/// Whether a chunk of microphone audio belongs to the turn the backend is
/// waiting for: a voice peer is registered, the chunk names its session, the
/// current turn and state revision, and the tap bridge is not carrying audio.
pub fn voice_input_is_current(
    peer_known: bool,
    session_id: u64,
    turn_id: u64,
    state_revision: u64,
    tap_bridge_audio_active: bool,
    input: &VoiceInputAudioMessage,
) -> (current: bool)
    ensures
        current == (peer_known && input.session_id == session_id && input.turn_id == turn_id
            && input.state_revision == state_revision && !tap_bridge_audio_active),
{
    peer_known && input.session_id == session_id && input.turn_id == turn_id
        && input.state_revision == state_revision && !tap_bridge_audio_active
}

/// The microphone audio of a voice turn gathered so far, and the index of the
/// chunk expected next.
pub struct ChunkBuffer {
    pub samples: Vec<i16>,
    pub next_chunk: u32,
}

/// What one received chunk does to the gathered samples and the expected
/// index, and the whole turn's audio when the chunk completes it. A chunk of
/// another protocol version or of another turn, or out of order, changes
/// nothing; chunk 0 starts the turn afresh; the completing chunk hands the
/// audio over and empties the buffer.
pub open spec fn chunk_step(samples: Seq<i16>, next: u32, input: VoiceInputAudioMessage, current: bool)
    -> (Seq<i16>, u32, Option<Seq<i16>>)
{
    if input.protocol_version != VOICE_PROTOCOL_VERSION || !current
        || (input.chunk_index != 0 && input.chunk_index != next) {
        (samples, next, None)
    } else {
        let gathered = (if input.chunk_index == 0 { Seq::<i16>::empty() } else { samples }) + input.samples@;
        let expected: u32 = if input.chunk_index == 0 { 1 } else if next == u32::MAX { next } else { (next + 1) as u32 };
        if input.complete {
            (Seq::empty(), 0, Some(gathered))
        } else {
            (gathered, expected, None)
        }
    }
}

/// Takes one chunk of a voice turn's microphone audio; `current` says
/// whether it belongs to the turn being waited for.
pub fn accept_voice_chunk(buffer: &mut ChunkBuffer, input: &VoiceInputAudioMessage, current: bool)
    -> (complete: Option<Vec<i16>>)
    ensures
        final(buffer).samples@ == chunk_step(old(buffer).samples@, old(buffer).next_chunk, *input, current).0,
        final(buffer).next_chunk == chunk_step(old(buffer).samples@, old(buffer).next_chunk, *input, current).1,
        match complete {
            Some(v) => chunk_step(old(buffer).samples@, old(buffer).next_chunk, *input, current).2 == Some(v@),
            None => chunk_step(old(buffer).samples@, old(buffer).next_chunk, *input, current).2 is None,
        },
{
    if input.protocol_version != VOICE_PROTOCOL_VERSION || !current {
        return None;
    }
    if input.chunk_index == 0 {
        buffer.samples = Vec::new();
        buffer.next_chunk = 0;
    }
    if input.chunk_index != buffer.next_chunk {
        return None;
    }
    let ghost start = buffer.samples@;
    let mut k: usize = 0;
    while k < input.samples.len()
        invariant
            k <= input.samples@.len(),
            buffer.samples@ == start + input.samples@.subrange(0, k as int),
            buffer.next_chunk == input.chunk_index,
        decreases input.samples@.len() - k,
    {
        buffer.samples.push(input.samples[k]);
        assert(input.samples@.subrange(0, k + 1) =~= input.samples@.subrange(0, k as int).push(input.samples@[k as int]));
        k = k + 1;
    }
    assert(input.samples@.subrange(0, input.samples@.len() as int) =~= input.samples@);
    assert(start =~= (if input.chunk_index == 0 { Seq::<i16>::empty() } else { old(buffer).samples@ }));
    assert(buffer.samples@ =~= (if input.chunk_index == 0 { Seq::<i16>::empty() } else { old(buffer).samples@ }) + input.samples@);
    buffer.next_chunk = if buffer.next_chunk == u32::MAX { u32::MAX } else { buffer.next_chunk + 1 };
    if input.complete {
        let mut samples: Vec<i16> = Vec::new();
        core::mem::swap(&mut samples, &mut buffer.samples);
        buffer.next_chunk = 0;
        assert(buffer.samples@ =~= Seq::<i16>::empty());
        Some(samples)
    } else {
        None
    }
}

} // verus!
