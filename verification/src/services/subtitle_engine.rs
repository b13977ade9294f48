//! The Subtitle Engine's own logic: checking its configuration, turning
//! the segments a speech-recognition pass reports into numbered subtitle
//! lines, and rendering those lines as an SRT document.
//!
//! Loading the model, decoding audio and running inference happen outside
//! this crate; they hand their results to the functions here.

use vstd::prelude::*;

use crate::error::CoreError;
use crate::text::{
    chars_of, padded_decimal, push_char, push_chars, push_padded_decimal, spec_is_blank,
    string_from_range, trim, trim_bounds, decimal_digits, lemma_decimal_digits_len,
    lemma_trim_empty_iff_blank, lemma_trim_idempotent, digits_value, is_ascii_digit,
    lemma_padded_decimal_value,
};
use crate::time::Duration;

verus! {

/// What the engine needs to load a model and run inference.
#[derive(Debug, Clone)]
pub struct SubtitleEngineConfig {
    /// Path to a whisper.cpp GGML/GGUF model file.
    pub model_path: String,
    /// Language code the model expects (e.g. "en"), or "auto" to detect it.
    pub language: String,
    /// Threads used for inference.
    pub threads: i32,
}

impl SubtitleEngineConfig {
    /// Checks the configuration before a model is loaded. `model_exists`
    /// tells whether a file exists at `model_path`.
    pub fn validate(&self, model_exists: bool) -> (r: Result<(), CoreError>)
        ensures
            !model_exists ==> (r matches Err(CoreError::WhisperInit(m)) && m@
                == "model file not found at "@ + self.model_path@ + " - download a whisper.cpp GGML model (e.g. ggml-base.en.bin) and point whisper.model_path at it"@),
            model_exists && self.threads <= 0 ==> (r matches Err(CoreError::Validation(m)) && m@
                == "whisper threads must be greater than zero"@),
            model_exists && self.threads > 0 && spec_is_blank(self.language@) ==> (r matches Err(
                CoreError::Validation(m),
            ) && m@ == "whisper language must not be empty (use \"auto\" to auto-detect)"@),
            model_exists && self.threads > 0 && !spec_is_blank(self.language@) ==> r is Ok,
    {
        if !model_exists {
            let mut m = "model file not found at ".to_string();
            m.append(self.model_path.as_str());
            m.append(" - download a whisper.cpp GGML model (e.g. ggml-base.en.bin) and point whisper.model_path at it");
            return Err(CoreError::WhisperInit(m));
        }
        if self.threads <= 0 {
            return Err(CoreError::Validation("whisper threads must be greater than zero".to_string()));
        }
        if crate::text::is_blank(self.language.as_str()) {
            return Err(
                CoreError::Validation(
                    "whisper language must not be empty (use \"auto\" to auto-detect)".to_string(),
                ),
            );
        }
        Ok(())
    }
}

/// The language to ask the recognizer for: none when the configured
/// language is `auto`, so that it detects the language itself; the
/// configured language otherwise.
pub fn whisper_language(language: &str) -> (r: Option<&str>)
    ensures
        language@ == "auto"@ ==> r is None,
        language@ != "auto"@ ==> r == Some(language),
{
    if crate::text::same_text(language, "auto") {
        None
    } else {
        Some(language)
    }
}

// ---------------------------------------------------------------------
// Segments
// ---------------------------------------------------------------------

/// One transcribed line, with start/end offsets from the start of the audio.
#[derive(Debug, Clone, PartialEq)]
pub struct SubtitleSegment {
    pub index: usize,
    pub start: Duration,
    pub end: Duration,
    pub text: String,
}

/// One segment as the recognizer reports it: its text, untrimmed, and its
/// start and end in centiseconds (units of 10 ms).
#[derive(Debug, Clone)]
pub struct RawSegment {
    pub text: String,
    pub t0_centis: i64,
    pub t1_centis: i64,
}

/// Whether a reported segment holds any text once trimmed.
pub open spec fn has_text(r: RawSegment) -> bool {
    !spec_is_blank(r.text@)
}

/// The reported segments that hold text, in order.
pub open spec fn kept_segments(raw: Seq<RawSegment>) -> Seq<RawSegment> {
    raw.filter(|r: RawSegment| has_text(r))
}

/// A reported offset in milliseconds: negative offsets count as zero.
pub open spec fn centis_to_millis(t: i64) -> nat {
    if t < 0 {
        0
    } else {
        (t * 10) as nat
    }
}

/// The largest offset, in centiseconds, whose value in milliseconds fits a
/// `u64`.
pub open spec fn max_centis() -> int {
    (u64::MAX / 10) as int
}

/// `seg` is the subtitle line numbered `index` made from `r`.
pub open spec fn is_segment_of(seg: SubtitleSegment, index: nat, r: RawSegment) -> bool {
    &&& seg.index == index
    &&& seg.start@ == centis_to_millis(r.t0_centis) * 1_000_000
    &&& seg.end@ == centis_to_millis(r.t1_centis) * 1_000_000
    &&& seg.text@ == trim(r.text@)
}

/// Turns the segments the recognizer reports into subtitle lines: segments
/// whose text is blank are dropped, the rest keep their order, are numbered
/// from 1, have their text trimmed, and their offsets converted from
/// centiseconds (negative offsets count as zero).
pub fn collect_segments(raw: &Vec<RawSegment>) -> (out: Vec<SubtitleSegment>)
    requires
        forall|i: int|
            0 <= i < raw@.len() ==> #[trigger] raw@[i].t0_centis <= max_centis()
                && raw@[i].t1_centis <= max_centis(),
    ensures
        out@.len() == kept_segments(raw@).len(),
        forall|k: int|
            0 <= k < out@.len() ==> is_segment_of(#[trigger] out@[k], (k + 1) as nat, kept_segments(raw@)[k]),
        forall|k: int|
            0 <= k < out@.len() ==> offsets_in_nanos(#[trigger] out@[k], kept_segments(raw@)[k]),
{
    let mut out: Vec<SubtitleSegment> = Vec::new();
    let mut i: usize = 0;
    while i < raw.len()
        invariant
            i <= raw@.len(),
            forall|j: int|
                0 <= j < raw@.len() ==> #[trigger] raw@[j].t0_centis <= max_centis()
                    && raw@[j].t1_centis <= max_centis(),
            out@.len() == kept_segments(raw@.take(i as int)).len(),
            forall|k: int|
                0 <= k < out@.len() ==> is_segment_of(
                    #[trigger] out@[k],
                    (k + 1) as nat,
                    kept_segments(raw@.take(i as int))[k],
                ),
        decreases raw@.len() - i,
    {
        let r = &raw[i];
        let chars = chars_of(r.text.as_str());
        let (a, b) = trim_bounds(&chars);
        proof {
            lemma_trim_empty_iff_blank(r.text@);
            assert(raw@.take(i + 1).drop_last() =~= raw@.take(i as int));
            reveal_with_fuel(Seq::<_>::filter, 1);
        }
        if a < b {
            let text = string_from_range(&chars, a, b);
            let start = Duration::from_millis(millis_of(r.t0_centis));
            let end = Duration::from_millis(millis_of(r.t1_centis));
            let seg = SubtitleSegment { index: out.len() + 1, start, end, text };
            let ghost old_out = out@;
            out.push(seg);
            proof {
                let kept = kept_segments(raw@.take(i + 1));
                assert(kept == kept_segments(raw@.take(i as int)).push(raw@[i as int]));
                assert forall|k: int| 0 <= k < out@.len() implies is_segment_of(
                    #[trigger] out@[k],
                    (k + 1) as nat,
                    kept[k],
                ) by {
                    if k < old_out.len() {
                        assert(out@[k] == old_out[k]);
                    }
                }
            }
        } else {
            proof {
                assert(kept_segments(raw@.take(i + 1)) == kept_segments(raw@.take(i as int)));
            }
        }
        i += 1;
    }
    assert(raw@.take(raw@.len() as int) =~= raw@);
    proof {
        lemma_segment_offsets(out@, raw@);
    }
    out
}

/// A line's start and end, in nanoseconds, are the reported centiseconds
/// times ten milliseconds, negative offsets counting as zero: a segment
/// reported at 150 centiseconds starts 1.5 s into the audio.
pub open spec fn offsets_in_nanos(seg: SubtitleSegment, r: RawSegment) -> bool {
    &&& seg.start@ == (if r.t0_centis < 0 { 0 } else { r.t0_centis as int }) * 10 * 1_000_000
    &&& seg.end@ == (if r.t1_centis < 0 { 0 } else { r.t1_centis as int }) * 10 * 1_000_000
}

/// Every line [`collect_segments`] makes starts and ends at its segment's
/// reported offsets converted from centiseconds: `max(t, 0) * 10` ms.
pub proof fn lemma_segment_offsets(segs: Seq<SubtitleSegment>, raw: Seq<RawSegment>)
    requires
        segs.len() == kept_segments(raw).len(),
        forall|k: int|
            0 <= k < segs.len() ==> is_segment_of(#[trigger] segs[k], (k + 1) as nat, kept_segments(raw)[k]),
    ensures
        forall|k: int| 0 <= k < segs.len() ==> offsets_in_nanos(#[trigger] segs[k], kept_segments(raw)[k]),
{
    assert forall|k: int| 0 <= k < segs.len() implies offsets_in_nanos(
        #[trigger] segs[k],
        kept_segments(raw)[k],
    ) by {
        assert(is_segment_of(segs[k], (k + 1) as nat, kept_segments(raw)[k]));
    }
}

/// A reported offset in milliseconds.
fn millis_of(t: i64) -> (r: u64)
    requires
        t <= max_centis(),
    ensures
        r == centis_to_millis(t),
{
    if t < 0 {
        0
    } else {
        (t as u64) * 10
    }
}

/// Subtitle lines made by [`collect_segments`] are numbered 1, 2, 3, ...
/// without gaps.
pub proof fn lemma_segments_numbered_consecutively(segs: Seq<SubtitleSegment>, raw: Seq<RawSegment>)
    requires
        segs.len() == kept_segments(raw).len(),
        forall|k: int|
            0 <= k < segs.len() ==> is_segment_of(#[trigger] segs[k], (k + 1) as nat, kept_segments(raw)[k]),
    ensures
        forall|k: int| 0 <= k < segs.len() ==> #[trigger] segs[k].index == k + 1,
        forall|k: int| 0 < k < segs.len() ==> #[trigger] segs[k].index == segs[k - 1].index + 1,
        forall|k: int| 0 <= k < segs.len() ==> !spec_is_blank(#[trigger] segs[k].text@),
{
    assert forall|k: int| 0 <= k < segs.len() implies !spec_is_blank(#[trigger] segs[k].text@) by {
        let r = kept_segments(raw)[k];
        lemma_kept_has_text(raw, k);
        lemma_trim_empty_iff_blank(r.text@);
        lemma_trim_idempotent(r.text@);
        lemma_trim_empty_iff_blank(trim(r.text@));
    }
    assert forall|k: int| 0 < k < segs.len() implies #[trigger] segs[k].index == segs[k - 1].index
        + 1 by {
        assert(is_segment_of(segs[k - 1], k as nat, kept_segments(raw)[k - 1]));
    }
}

/// Every kept segment holds text.
proof fn lemma_kept_has_text(raw: Seq<RawSegment>, k: int)
    requires
        0 <= k < kept_segments(raw).len(),
    ensures
        has_text(kept_segments(raw)[k]),
{
    broadcast use vstd::seq_lib::group_filter_ensures;

    let pred = |r: RawSegment| has_text(r);
    assert(pred(raw.filter(pred)[k]));
}

// ---------------------------------------------------------------------
// SRT rendering
// ---------------------------------------------------------------------

/// An SRT timestamp, `HH:MM:SS,mmm`, for `ms` milliseconds: hours, minutes
/// and seconds zero-padded to two digits (hours take more digits when they
/// need them), milliseconds to three.
pub open spec fn srt_timestamp(ms: nat) -> Seq<char> {
    padded_decimal(ms / 3_600_000, 2) + seq![':'] + padded_decimal((ms % 3_600_000) / 60_000, 2)
        + seq![':'] + padded_decimal((ms % 60_000) / 1_000, 2) + seq![','] + padded_decimal(
        ms % 1_000,
        3,
    )
}

/// Formats a span as an SRT timestamp: `HH:MM:SS,mmm`, of its whole
/// milliseconds.
pub fn format_srt_timestamp(duration: Duration) -> (r: String)
    ensures
        r@ == srt_timestamp(duration@ / 1_000_000),
        reads_back_as_millis(r@, duration@ / 1_000_000),
{
    proof {
        lemma_srt_timestamp_reads_back(duration@ / 1_000_000);
    }
    let total_millis = duration.as_millis();
    let hours = total_millis / 3_600_000;
    let minutes = (total_millis % 3_600_000) / 60_000;
    let seconds = (total_millis % 60_000) / 1_000;
    let millis = total_millis % 1_000;
    let mut out = String::new();
    push_timestamp_fields(&mut out, hours, minutes, seconds, millis);
    out
}

fn push_timestamp_fields(out: &mut String, hours: u128, minutes: u128, seconds: u128, millis: u128)
    ensures
        final(out)@ == old(out)@ + padded_decimal(hours as nat, 2) + seq![':'] + padded_decimal(
            minutes as nat,
            2,
        ) + seq![':'] + padded_decimal(seconds as nat, 2) + seq![','] + padded_decimal(
            millis as nat,
            3,
        ),
{
    let ghost start = out@;
    push_padded_decimal(out, hours, 2);
    push_char(out, ':');
    push_padded_decimal(out, minutes, 2);
    push_char(out, ':');
    push_padded_decimal(out, seconds, 2);
    push_char(out, ',');
    push_padded_decimal(out, millis, 3);
    assert(out@ =~= start + padded_decimal(hours as nat, 2) + seq![':'] + padded_decimal(
        minutes as nat,
        2,
    ) + seq![':'] + padded_decimal(seconds as nat, 2) + seq![','] + padded_decimal(
        millis as nat,
        3,
    ));
}

/// Below a hundred hours an SRT timestamp is twelve characters, `HH:MM:SS,mmm`,
/// and its fields add back up to the span.
pub proof fn lemma_srt_timestamp_shape(ms: nat)
    requires
        ms < 360_000_000,
    ensures
        srt_timestamp(ms).len() == 12,
        srt_timestamp(ms)[2] == ':',
        srt_timestamp(ms)[5] == ':',
        srt_timestamp(ms)[8] == ',',
        (ms % 3_600_000) / 60_000 < 60,
        (ms % 60_000) / 1_000 < 60,
        (ms / 3_600_000) * 3_600_000 + ((ms % 3_600_000) / 60_000) * 60_000 + ((ms % 60_000)
            / 1_000) * 1_000 + ms % 1_000 == ms,
{
    let h = ms / 3_600_000;
    let m = (ms % 3_600_000) / 60_000;
    let s = (ms % 60_000) / 1_000;
    let x = ms % 1_000;
    assert(h < 100);
    assert(m < 60);
    assert(s < 60);
    assert(x < 1000);
    lemma_decimal_digits_len(h);
    lemma_decimal_digits_len(m);
    lemma_decimal_digits_len(s);
    lemma_decimal_digits_len(x);
    assert(padded_decimal(h, 2).len() == 2);
    assert(padded_decimal(m, 2).len() == 2);
    assert(padded_decimal(s, 2).len() == 2);
    assert(padded_decimal(x, 3).len() == 3);
    assert(h * 3_600_000 + m * 60_000 + s * 1_000 + x == ms) by {
        assert(ms == h * 3_600_000 + ms % 3_600_000);
        assert(ms % 3_600_000 == m * 60_000 + (ms % 3_600_000) % 60_000);
        assert((ms % 3_600_000) % 60_000 == ms % 60_000) by {
            vstd::arithmetic::div_mod::lemma_mod_mod(ms as int, 60_000, 60);
        }
        assert(ms % 60_000 == s * 1_000 + (ms % 60_000) % 1_000);
        assert((ms % 60_000) % 1_000 == ms % 1_000) by {
            vstd::arithmetic::div_mod::lemma_mod_mod(ms as int, 1_000, 60);
        }
    }
}

/// `t` reads as `HH:MM:SS,mmm`: digits apart from the two colons and the
/// comma, minutes and seconds under 60, milliseconds under 1000, and the
/// fields together make `ms` milliseconds.
pub open spec fn reads_back_as_millis(t: Seq<char>, ms: nat) -> bool {
    let n = t.len() as int;
    &&& n >= 12
    &&& t[n - 10] == ':'
    &&& t[n - 7] == ':'
    &&& t[n - 4] == ','
    &&& forall|i: int|
        0 <= i < n && i != n - 10 && i != n - 7 && i != n - 4 ==> is_ascii_digit(
            #[trigger] t[i],
        )
    &&& digits_value(t.subrange(n - 9, n - 7)) < 60
    &&& digits_value(t.subrange(n - 6, n - 4)) < 60
    &&& digits_value(t.subrange(n - 3, n)) < 1000
    &&& digits_value(t.subrange(0, n - 10)) * 3_600_000 + digits_value(t.subrange(n - 9, n - 7))
        * 60_000 + digits_value(t.subrange(n - 6, n - 4)) * 1_000 + digits_value(
        t.subrange(n - 3, n),
    ) == ms
}

/// An SRT timestamp reads back as `HH:MM:SS,mmm`: ASCII digits with `:`,
/// `:` and `,` ten, seven and four characters from its end; the minutes and
/// seconds are two digits below 60, the milliseconds three digits, the
/// hours at least two digits, and the fields add back up to `ms`.
pub proof fn lemma_srt_timestamp_reads_back(ms: nat)
    ensures
        reads_back_as_millis(srt_timestamp(ms), ms),
{
    let h = ms / 3_600_000;
    let m = (ms % 3_600_000) / 60_000;
    let s = (ms % 60_000) / 1_000;
    let x = ms % 1_000;
    assert(m < 60);
    assert(s < 60);
    assert(x < 1000);
    lemma_padded_decimal_value(h, 2);
    lemma_padded_decimal_value(m, 2);
    lemma_padded_decimal_value(s, 2);
    lemma_padded_decimal_value(x, 3);
    let hh = padded_decimal(h, 2);
    let mm = padded_decimal(m, 2);
    let ss = padded_decimal(s, 2);
    let xx = padded_decimal(x, 3);
    let t = srt_timestamp(ms);
    assert(t == hh + seq![':'] + mm + seq![':'] + ss + seq![','] + xx);
    let n = t.len() as int;
    let k = hh.len() as int;
    assert(n == k + 10);
    assert(t.subrange(0, n - 10) =~= hh);
    assert(t.subrange(n - 9, n - 7) =~= mm);
    assert(t.subrange(n - 6, n - 4) =~= ss);
    assert(t.subrange(n - 3, n) =~= xx);
    assert forall|i: int|
        0 <= i < n && i != n - 10 && i != n - 7 && i != n - 4 implies is_ascii_digit(
        #[trigger] t[i],
    ) by {
        if i < k {
            assert(t[i] == hh[i]);
        } else if i < k + 3 {
            assert(t[i] == mm[i - k - 1]);
        } else if i < k + 6 {
            assert(t[i] == ss[i - k - 4]);
        } else {
            assert(t[i] == xx[i - k - 7]);
        }
    }
    assert(h * 3_600_000 + m * 60_000 + s * 1_000 + x == ms) by {
        assert(ms == h * 3_600_000 + ms % 3_600_000);
        assert(ms % 3_600_000 == m * 60_000 + (ms % 3_600_000) % 60_000);
        assert((ms % 3_600_000) % 60_000 == ms % 60_000) by {
            vstd::arithmetic::div_mod::lemma_mod_mod(ms as int, 60_000, 60);
        }
        assert(ms % 60_000 == s * 1_000 + (ms % 60_000) % 1_000);
        assert((ms % 60_000) % 1_000 == ms % 1_000) by {
            vstd::arithmetic::div_mod::lemma_mod_mod(ms as int, 1_000, 60);
        }
    }
}

/// The SRT block of one subtitle line: its number, its time range, its
/// text, and a blank line.
pub open spec fn srt_block(seg: SubtitleSegment) -> Seq<char> {
    decimal_digits(seg.index as nat) + seq!['\n'] + srt_timestamp(seg.start@ / 1_000_000) + seq![
        ' ',
        '-',
        '-',
        '>',
        ' ',
    ] + srt_timestamp(seg.end@ / 1_000_000) + seq!['\n'] + seg.text@ + seq!['\n', '\n']
}

/// A standard SRT document: the blocks of the lines, in order.
pub open spec fn srt_document(segs: Seq<SubtitleSegment>) -> Seq<char>
    decreases segs.len(),
{
    if segs.len() == 0 {
        Seq::empty()
    } else {
        srt_document(segs.drop_last()) + srt_block(segs.last())
    }
}

/// Renders subtitle lines as a standard SRT document.
pub fn render_srt(segments: &[SubtitleSegment]) -> (r: String)
    ensures
        r@ == srt_document(segments@),
{
    let mut out = String::new();
    let mut i: usize = 0;
    while i < segments.len()
        invariant
            i <= segments@.len(),
            out@ == srt_document(segments@.take(i as int)),
        decreases segments@.len() - i,
    {
        let seg = &segments[i];
        let ghost before = out@;
        push_block(&mut out, seg);
        proof {
            let t = segments@.take(i + 1);
            assert(t.drop_last() =~= segments@.take(i as int));
            assert(t.last() == segments@[i as int]);
        }
        i += 1;
    }
    assert(segments@.take(segments@.len() as int) =~= segments@);
    out
}

fn push_block(out: &mut String, seg: &SubtitleSegment)
    ensures
        final(out)@ == old(out)@ + srt_block(*seg),
{
    let ghost start = out@;
    let number = crate::text::decimal_chars(seg.index as u128);
    push_chars(out, &number);
    push_char(out, '\n');
    let a = format_srt_timestamp(seg.start);
    out.append(a.as_str());
    push_char(out, ' ');
    push_char(out, '-');
    push_char(out, '-');
    push_char(out, '>');
    push_char(out, ' ');
    let b = format_srt_timestamp(seg.end);
    out.append(b.as_str());
    push_char(out, '\n');
    out.append(seg.text.as_str());
    push_char(out, '\n');
    push_char(out, '\n');
    assert(out@ =~= start + srt_block(*seg));
}

} // verus!
