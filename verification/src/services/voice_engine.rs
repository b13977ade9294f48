//! The Voice Engine's own logic: checking its configuration, deciding
//! whether and when a failed synthesis request is retried, and naming the
//! file the narration is saved to.
//!
//! Sending requests, sleeping between attempts and writing files happen
//! outside this crate: the caller runs the attempt loop, asks
//! [`VoiceEngine::after_failure`] what to do after each failure, and
//! performs what it answers.

use vstd::prelude::*;
use vstd::arithmetic::power2::pow2;

use crate::error::CoreError;
use crate::services::elevenlabs_client::ElevenLabsClient;
use crate::text::{chars_of, push_chars, spec_is_blank};
use crate::time::{max_nanos, Duration};

verus! {

/// What the engine needs to talk to ElevenLabs and persist the result.
#[derive(Debug, Clone)]
pub struct VoiceEngineConfig {
    pub base_url: String,
    pub api_key: String,
    pub voice_id: String,
    pub model_id: String,
    pub output_format: String,
    pub request_timeout: Duration,
    /// Directory generated MP3s are written to (created if missing).
    pub output_dir: String,
    /// Number of retries after the initial attempt, for transient failures
    /// only (network errors, timeouts, HTTP 429/5xx).
    pub max_retries: u32,
    /// Base delay for exponential backoff: `base * 2^attempt`, capped at 30s.
    pub retry_base_delay: Duration,
}

/// Generates narration audio via the ElevenLabs Text-to-Speech API,
/// retrying transient failures.
pub struct VoiceEngine {
    client: ElevenLabsClient,
    config: VoiceEngineConfig,
}

impl VoiceEngine {
    /// Builds the engine, failing fast if no API key or voice is configured.
    pub fn new(config: VoiceEngineConfig) -> (r: Result<Self, CoreError>)
        ensures
            spec_is_blank(config.api_key@) ==> r matches Err(CoreError::MissingElevenLabsApiKey),
            !spec_is_blank(config.api_key@) && spec_is_blank(config.voice_id@) ==> (r matches Err(
                CoreError::Validation(m),
            ) && m@ == "elevenlabs voice_id must not be empty"@),
            !spec_is_blank(config.api_key@) && !spec_is_blank(config.voice_id@) ==> (r matches Ok(
                engine,
            ) && engine.spec_config() == config && engine.spec_client().spec_base_url()
                == config.base_url@ && engine.spec_client().spec_api_key() == config.api_key@
                && engine.spec_client().spec_timeout() == config.request_timeout@) || (
            r matches Err(e) && e is ElevenLabsTransport),
    {
        if crate::text::is_blank(config.api_key.as_str()) {
            return Err(CoreError::MissingElevenLabsApiKey);
        }
        if crate::text::is_blank(config.voice_id.as_str()) {
            return Err(CoreError::Validation("elevenlabs voice_id must not be empty".to_string()));
        }
        let client = ElevenLabsClient::new(
            config.base_url.clone(),
            config.api_key.clone(),
            config.request_timeout,
        )?;
        Ok(Self { client, config })
    }

    pub closed spec fn spec_config(&self) -> VoiceEngineConfig {
        self.config
    }

    /// The engine's configuration.
    pub fn config(&self) -> (r: &VoiceEngineConfig)
        ensures
            *r == self.spec_config(),
    {
        &self.config
    }

    /// The ElevenLabs client requests are sent with.
    pub fn client(&self) -> (r: &ElevenLabsClient)
        ensures
            *r == self.spec_client(),
    {
        &self.client
    }

    pub closed spec fn spec_client(&self) -> ElevenLabsClient {
        self.client
    }

    /// Refuses narration text that is blank, before any request is made.
    pub fn check_text(text: &str) -> (r: Result<(), CoreError>)
        ensures
            spec_is_blank(text@) ==> (r matches Err(CoreError::Validation(m)) && m@
                == "text to synthesize must not be empty"@),
            !spec_is_blank(text@) ==> r is Ok,
    {
        if crate::text::is_blank(text) {
            return Err(CoreError::Validation("text to synthesize must not be empty".to_string()));
        }
        Ok(())
    }

    /// What to do after attempt number `attempt` (counting from 0) failed
    /// with `err`: retry after a backoff delay while retries remain and the
    /// failure is transient, otherwise give up and report `err`.
    pub fn after_failure(&self, attempt: u32, err: &CoreError) -> (step: RetryStep)
        ensures
            is_step_after_failure(
                step,
                attempt,
                self.spec_config().max_retries,
                self.spec_config().retry_base_delay,
                *err,
            ),
    {
        retry_after_failure(attempt, self.config.max_retries, self.config.retry_base_delay, err)
    }

    /// The name of the file the narration for `file_stem` is saved to:
    /// the sanitized stem with an `.mp3` extension.
    pub fn audio_file_name(file_stem: &str) -> (r: String)
        ensures
            r@ == sanitized_stem(file_stem@) + ".mp3"@,
    {
        let mut name = sanitize_file_stem(file_stem);
        name.append(".mp3");
        name
    }
}

// ---------------------------------------------------------------------
// Retry policy
// ---------------------------------------------------------------------

/// What to do after a failed attempt.
#[derive(Debug, Clone, Copy, PartialEq, Eq, Structural)]
pub enum RetryStep {
    /// Wait `delay`, then make attempt number `next_attempt`.
    Retry { delay: Duration, next_attempt: u32 },
    /// Stop and report the failure.
    GiveUp,
}

/// Whether a failure is worth retrying: network-level errors and
/// server-side or rate-limit HTTP statuses are transient; anything else
/// fails the same way every time.
pub open spec fn spec_is_retryable(err: CoreError) -> bool {
    match err {
        CoreError::ElevenLabsTransport(_) => true,
        CoreError::ElevenLabsApi { status, .. } => status == 429 || status >= 500,
        _ => false,
    }
}

/// Whether a failure is worth retrying.
pub fn is_retryable(err: &CoreError) -> (r: bool)
    ensures
        r == spec_is_retryable(*err),
{
    match err {
        CoreError::ElevenLabsTransport(_) => true,
        CoreError::ElevenLabsApi { status, .. } => *status == 429 || *status >= 500,
        _ => false,
    }
}

/// The cap on a single backoff delay: 30 seconds, in nanoseconds.
pub open spec fn backoff_cap() -> nat {
    30_000_000_000
}

/// The factor the base delay is multiplied by before attempt number
/// `attempt`: `2^attempt`, or `u32::MAX` once `2^attempt` no longer fits
/// a `u32`.
pub open spec fn backoff_multiplier(attempt: u32) -> nat {
    if attempt < 32 {
        pow2(attempt as nat)
    } else {
        u32::MAX as nat
    }
}

/// The backoff delay in nanoseconds: `base * multiplier`, capped at 30s.
pub open spec fn backoff_nanos(base: nat, attempt: u32) -> nat {
    if base * backoff_multiplier(attempt) <= backoff_cap() {
        base * backoff_multiplier(attempt)
    } else {
        backoff_cap()
    }
}

/// `step` is what follows a failure of attempt number `attempt` with `err`:
/// a retry after the backoff delay, numbered `attempt + 1`, while retries
/// remain and the failure is transient; otherwise giving up.
pub open spec fn is_step_after_failure(
    step: RetryStep,
    attempt: u32,
    max_retries: u32,
    base: Duration,
    err: CoreError,
) -> bool {
    match step {
        RetryStep::Retry { delay, next_attempt } => {
            &&& attempt < max_retries
            &&& spec_is_retryable(err)
            &&& next_attempt == attempt + 1
            &&& delay@ == backoff_nanos(base@, attempt)
        },
        RetryStep::GiveUp => !(attempt < max_retries && spec_is_retryable(err)),
    }
}

/// Exponential backoff with a fixed cap: `base * 2^attempt`, capped at 30s.
pub fn backoff_delay(base: Duration, attempt: u32) -> (d: Duration)
    ensures
        d@ == backoff_nanos(base@, attempt),
        d.is_normal(),
{
    let multiplier: u32 = if attempt < 32 {
        proof {
            vstd::bits::lemma_u32_pow2_no_overflow(attempt as nat);
            vstd::bits::lemma_u32_shl_is_mul(1, attempt);
        }
        1u32 << attempt
    } else {
        u32::MAX
    };
    assert(multiplier == backoff_multiplier(attempt));
    let scaled = base.saturating_mul(multiplier);
    let cap = Duration::from_secs(30);
    let d = scaled.min(cap);
    assert(backoff_cap() < max_nanos());
    d
}

/// The step to take after attempt number `attempt` failed with `err`.
pub fn retry_after_failure(attempt: u32, max_retries: u32, base: Duration, err: &CoreError) -> (step:
    RetryStep)
    ensures
        is_step_after_failure(step, attempt, max_retries, base, *err),
{
    if attempt < max_retries && is_retryable(err) {
        RetryStep::Retry { delay: backoff_delay(base, attempt), next_attempt: attempt + 1 }
    } else {
        RetryStep::GiveUp
    }
}

/// A request is made at most `max_retries + 1` times: each retry is numbered
/// one past the failed attempt and none is numbered past `max_retries`, and
/// a permanent failure is never retried.
pub proof fn lemma_retries_are_bounded(
    step: RetryStep,
    attempt: u32,
    max_retries: u32,
    base: Duration,
    err: CoreError,
)
    requires
        is_step_after_failure(step, attempt, max_retries, base, err),
    ensures
        step matches RetryStep::Retry { next_attempt, .. } ==> next_attempt == attempt + 1
            && next_attempt <= max_retries,
        attempt >= max_retries ==> step == RetryStep::GiveUp,
        !spec_is_retryable(err) ==> step == RetryStep::GiveUp,
{
}

/// While retries remain, a transport failure, a rate limit (HTTP 429) and
/// every server error (HTTP 500 and above) are retried; any other HTTP
/// status, and every other kind of failure, ends the attempts.
pub proof fn lemma_transient_failures_are_retried(
    step: RetryStep,
    attempt: u32,
    max_retries: u32,
    base: Duration,
    err: CoreError,
)
    requires
        is_step_after_failure(step, attempt, max_retries, base, err),
        attempt < max_retries,
    ensures
        err is ElevenLabsTransport ==> step is Retry,
        err matches CoreError::ElevenLabsApi { status, .. } ==> ((status == 429 || 500 <= status)
            <==> step is Retry),
        !(err is ElevenLabsTransport) && !(err is ElevenLabsApi) ==> step is GiveUp,
        step matches RetryStep::Retry { delay, next_attempt } ==> next_attempt == attempt + 1
            && delay@ == backoff_nanos(base@, attempt),
{
}

/// Backoff delays never exceed 30 seconds and never shrink from one attempt
/// to the next.
pub proof fn lemma_backoff_capped_and_monotone(base: nat, a1: u32, a2: u32)
    requires
        a1 <= a2,
    ensures
        backoff_nanos(base, a1) <= backoff_cap(),
        backoff_nanos(base, a1) <= backoff_nanos(base, a2),
{
    lemma_multiplier_monotone(a1, a2);
    assert(base * backoff_multiplier(a1) <= base * backoff_multiplier(a2)) by (nonlinear_arith)
        requires
            backoff_multiplier(a1) <= backoff_multiplier(a2),
    ;
}

/// Below the cap, each retry waits twice as long as the one before.
pub proof fn lemma_backoff_doubles(base: nat, attempt: u32)
    requires
        attempt < 31,
        base * backoff_multiplier((attempt + 1) as u32) <= backoff_cap(),
    ensures
        backoff_nanos(base, (attempt + 1) as u32) == 2 * backoff_nanos(base, attempt),
{
    vstd::arithmetic::power2::lemma_pow2_unfold((attempt + 1) as nat);
    let p = pow2(attempt as nat);
    assert(base * (2 * p) == 2 * (base * p)) by (nonlinear_arith);
    assert(base * p <= base * (2 * p)) by (nonlinear_arith);
}

/// The multiplier grows with the attempt number.
proof fn lemma_multiplier_monotone(a1: u32, a2: u32)
    requires
        a1 <= a2,
    ensures
        backoff_multiplier(a1) <= backoff_multiplier(a2),
{
    if a2 < 32 {
        if a1 < a2 {
            vstd::arithmetic::power2::lemma_pow2_strictly_increases(a1 as nat, a2 as nat);
        }
    } else if a1 < 32 {
        vstd::bits::lemma_u32_pow2_no_overflow(a1 as nat);
    }
}

// ---------------------------------------------------------------------
// File names
// ---------------------------------------------------------------------

/// Whether a non-ASCII `c` is alphabetic or numeric in Unicode's sense, as
/// `char::is_alphanumeric` answers it from Unicode's tables.
pub uninterp spec fn unicode_is_alphanumeric(c: char) -> bool;

/// Whether `c` is alphabetic or numeric: among ASCII characters exactly the
/// letters and digits, beyond ASCII what Unicode's tables say.
pub open spec fn spec_is_alphanumeric(c: char) -> bool {
    if (c as u32) < 128 {
        ('a' <= c && c <= 'z') || ('A' <= c && c <= 'Z') || ('0' <= c && c <= '9')
    } else {
        unicode_is_alphanumeric(c)
    }
}

/// `char::is_alphanumeric`: whether `c` is alphabetic or numeric. For ASCII
/// characters that is exactly the letters `A`-`Z`, `a`-`z` and the digits
/// `0`-`9`; beyond ASCII the answer follows Unicode's tables and is only
/// named, not stated.
#[verifier::external_body]
fn is_alphanumeric(c: char) -> (r: bool)
    ensures
        (c as u32) < 128 ==> r == (('a' <= c && c <= 'z') || ('A' <= c && c <= 'Z') || ('0' <= c
            && c <= '9')),
        (c as u32) >= 128 ==> r == unicode_is_alphanumeric(c),
{
    c.is_alphanumeric()
}

/// A character kept as is in a file name; every other character is
/// replaced.
pub open spec fn is_file_name_char(c: char) -> bool {
    spec_is_alphanumeric(c) || c == '-' || c == '_'
}

/// Whether `s[i..i + 4]` is the parent-directory step `/../` and stands
/// between two kept characters: the one before `i` (as `prev_kept` tells)
/// and the one at `i + 4`.
pub open spec fn is_inner_parent_step(s: Seq<char>, i: int, prev_kept: bool) -> bool {
    &&& prev_kept
    &&& 0 <= i
    &&& i + 4 < s.len()
    &&& s[i] == '/'
    &&& s[i + 1] == '.'
    &&& s[i + 2] == '.'
    &&& s[i + 3] == '/'
    &&& is_file_name_char(s[i + 4])
}

/// The cleaned form of `s[i..]`, where `prev_kept` tells whether the
/// character before `i` was kept. Every character that does not belong in a
/// file name gives one underscore, except that a `/../` step between two
/// kept characters gives three.
pub open spec fn clean_from(s: Seq<char>, i: int, prev_kept: bool) -> Seq<char>
    decreases s.len() - i,
{
    if i >= s.len() || i < 0 {
        Seq::empty()
    } else if is_file_name_char(s[i]) {
        seq![s[i]] + clean_from(s, i + 1, true)
    } else if is_inner_parent_step(s, i, prev_kept) {
        seq!['_', '_', '_'] + clean_from(s, i + 4, false)
    } else {
        seq!['_'] + clean_from(s, i + 1, false)
    }
}

/// `s` with each character that does not belong in a file name replaced by
/// `_`, a `/../` step between two kept characters giving `___`.
pub open spec fn cleaned_stem(s: Seq<char>) -> Seq<char> {
    clean_from(s, 0, false)
}

/// The sanitized stem: the cleaned stem, or `narration` when the cleaned
/// stem holds nothing but underscores.
pub open spec fn sanitized_stem(s: Seq<char>) -> Seq<char> {
    let cleaned = cleaned_stem(s);
    if forall|i: int| 0 <= i < cleaned.len() ==> #[trigger] cleaned[i] == '_' {
        "narration"@
    } else {
        cleaned
    }
}

/// Whether a character is kept in a file name.
fn keeps(c: char) -> (r: bool)
    ensures
        r == is_file_name_char(c),
{
    is_alphanumeric(c) || c == '-' || c == '_'
}

/// Strips path separators and other characters that don't belong in a file
/// name, so `file_stem` cannot escape the output directory or produce an
/// invalid path: each such character becomes `_` (a `/../` step between two
/// kept characters becomes `___`), and a stem left with nothing but
/// underscores becomes `narration`.
pub fn sanitize_file_stem(file_stem: &str) -> (r: String)
    ensures
        r@ == sanitized_stem(file_stem@),
{
    let chars = chars_of(file_stem);
    let n = chars.len();
    let mut cleaned: Vec<char> = Vec::new();
    let mut prev_kept = false;
    let mut i: usize = 0;
    while i < n
        invariant
            n == chars@.len(),
            i <= n,
            chars@ == file_stem@,
            cleaned_stem(chars@) == cleaned@ + clean_from(chars@, i as int, prev_kept),
        decreases n - i,
    {
        let c = chars[i];
        let ghost before = cleaned@;
        if keeps(c) {
            cleaned.push(c);
            proof {
                assert(clean_from(chars@, i as int, prev_kept) == seq![c] + clean_from(
                    chars@,
                    i + 1,
                    true,
                ));
                assert(before + (seq![c] + clean_from(chars@, i + 1, true)) =~= cleaned@ + clean_from(
                    chars@,
                    i + 1,
                    true,
                ));
            }
            prev_kept = true;
            i += 1;
        } else if prev_kept && n - i > 4 && c == '/' && chars[i + 1] == '.' && chars[i + 2] == '.'
            && chars[i + 3] == '/' && keeps(chars[i + 4]) {
            cleaned.push('_');
            cleaned.push('_');
            cleaned.push('_');
            proof {
                assert(is_inner_parent_step(chars@, i as int, prev_kept));
                assert(clean_from(chars@, i as int, prev_kept) == seq!['_', '_', '_'] + clean_from(
                    chars@,
                    i + 4,
                    false,
                ));
                assert(before + (seq!['_', '_', '_'] + clean_from(chars@, i + 4, false))
                    =~= cleaned@ + clean_from(chars@, i + 4, false));
            }
            prev_kept = false;
            i += 4;
        } else {
            cleaned.push('_');
            proof {
                assert(!is_inner_parent_step(chars@, i as int, prev_kept));
                assert(clean_from(chars@, i as int, prev_kept) == seq!['_'] + clean_from(
                    chars@,
                    i + 1,
                    false,
                ));
                assert(before + (seq!['_'] + clean_from(chars@, i + 1, false)) =~= cleaned@
                    + clean_from(chars@, i + 1, false));
            }
            prev_kept = false;
            i += 1;
        }
    }
    assert(clean_from(chars@, n as int, prev_kept) == Seq::<char>::empty());
    assert(cleaned@ =~= cleaned_stem(chars@));
    let mut all_underscores = true;
    let mut k: usize = 0;
    while k < cleaned.len()
        invariant
            k <= cleaned@.len(),
            all_underscores == (forall|j: int| 0 <= j < k ==> #[trigger] cleaned@[j] == '_'),
        decreases cleaned@.len() - k,
    {
        if cleaned[k] != '_' {
            all_underscores = false;
        }
        k += 1;
    }
    if all_underscores {
        "narration".to_string()
    } else {
        let mut r = String::new();
        push_chars(&mut r, &cleaned);
        assert(r@ =~= cleaned@);
        r
    }
}

/// Every character of a cleaned stem is an underscore or a kept character.
proof fn lemma_clean_chars(s: Seq<char>, i: int, prev_kept: bool)
    ensures
        forall|k: int|
            0 <= k < clean_from(s, i, prev_kept).len() ==> #[trigger] clean_from(s, i, prev_kept)[k]
                == '_' || is_file_name_char(clean_from(s, i, prev_kept)[k]),
    decreases s.len() - i,
{
    if i >= s.len() || i < 0 {
    } else {
        let head: Seq<char> = if is_file_name_char(s[i]) {
            seq![s[i]]
        } else if is_inner_parent_step(s, i, prev_kept) {
            seq!['_', '_', '_']
        } else {
            seq!['_']
        };
        let next: int = if !is_file_name_char(s[i]) && is_inner_parent_step(s, i, prev_kept) {
            i + 4
        } else {
            i + 1
        };
        let next_kept = is_file_name_char(s[i]);
        lemma_clean_chars(s, next, next_kept);
        let rest = clean_from(s, next, next_kept);
        assert(clean_from(s, i, prev_kept) == head + rest);
        assert forall|k: int| 0 <= k < (head + rest).len() implies #[trigger] (head + rest)[k] == '_'
            || is_file_name_char((head + rest)[k]) by {
            if k >= head.len() {
                assert((head + rest)[k] == rest[k - head.len()]);
            }
        }
    }
}

/// An ASCII letter, an ASCII digit, `-` or `_`.
pub open spec fn is_plain_name_char(c: char) -> bool {
    ||| 'a' <= c && c <= 'z'
    ||| 'A' <= c && c <= 'Z'
    ||| '0' <= c && c <= '9'
    ||| c == '-'
    ||| c == '_'
}

/// `s` holds no `/../` step.
pub open spec fn has_no_parent_step(s: Seq<char>) -> bool {
    forall|i: int|
        0 <= i && i + 3 < s.len() ==> !(#[trigger] s[i] == '/' && s[i + 1] == '.' && s[i + 2] == '.'
            && s[i + 3] == '/')
}

/// Without a `/../` step, cleaning maps the text position by position.
proof fn lemma_clean_positions(s: Seq<char>, i: int, prev_kept: bool)
    requires
        0 <= i <= s.len(),
        has_no_parent_step(s),
    ensures
        clean_from(s, i, prev_kept).len() == s.len() - i,
        forall|j: int|
            0 <= j < s.len() - i ==> #[trigger] clean_from(s, i, prev_kept)[j] == if is_file_name_char(
                s[i + j],
            ) {
                s[i + j]
            } else {
                '_'
            },
    decreases s.len() - i,
{
    if i < s.len() {
        let kept = is_file_name_char(s[i]);
        if !kept {
            assert(!is_inner_parent_step(s, i, prev_kept));
        }
        lemma_clean_positions(s, i + 1, kept);
        let head = if kept { seq![s[i]] } else { seq!['_'] };
        let rest = clean_from(s, i + 1, kept);
        assert(clean_from(s, i, prev_kept) == head + rest);
        assert forall|j: int| 0 <= j < s.len() - i implies #[trigger] clean_from(s, i, prev_kept)[j]
            == if is_file_name_char(s[i + j]) { s[i + j] } else { '_' } by {
            if j > 0 {
                assert((head + rest)[j] == rest[j - 1]);
                assert(s[i + 1 + (j - 1)] == s[i + j]);
            }
        }
    }
}

/// Every ASCII letter and digit, `-` and `_` is kept unchanged at its place;
/// every other ASCII character becomes `_`. Positions are kept whenever the
/// stem holds no `/../` step.
pub proof fn lemma_plain_characters_are_kept(s: Seq<char>)
    requires
        has_no_parent_step(s),
    ensures
        cleaned_stem(s).len() == s.len(),
        forall|i: int|
            0 <= i < s.len() && is_plain_name_char(s[i]) ==> #[trigger] cleaned_stem(s)[i] == s[i],
        forall|i: int|
            0 <= i < s.len() && (s[i] as u32) < 128 && !is_plain_name_char(s[i])
                ==> #[trigger] cleaned_stem(s)[i] == '_',
{
    lemma_clean_positions(s, 0, false);
    assert forall|i: int|
        0 <= i < s.len() && is_plain_name_char(s[i]) implies #[trigger] cleaned_stem(s)[i] == s[i] by {
        assert(clean_from(s, 0, false)[i] == if is_file_name_char(s[0 + i]) { s[0 + i] } else { '_' });
    }
    assert forall|i: int|
        0 <= i < s.len() && (s[i] as u32) < 128 && !is_plain_name_char(s[i])
        implies #[trigger] cleaned_stem(s)[i] == '_' by {
        assert(clean_from(s, 0, false)[i] == if is_file_name_char(s[0 + i]) { s[0 + i] } else { '_' });
    }
}

/// A stem made only of ASCII letters, digits, `-` and `_`, and not only of
/// underscores, is its own sanitized form.
pub proof fn lemma_plain_stem_is_unchanged(s: Seq<char>)
    requires
        forall|i: int| 0 <= i < s.len() ==> is_plain_name_char(#[trigger] s[i]),
        exists|i: int| 0 <= i < s.len() && #[trigger] s[i] != '_',
    ensures
        sanitized_stem(s) == s,
{
    assert(has_no_parent_step(s)) by {
        assert forall|i: int| 0 <= i && i + 3 < s.len() implies !(#[trigger] s[i] == '/' && s[i + 1]
            == '.' && s[i + 2] == '.' && s[i + 3] == '/') by {
            assert(is_plain_name_char(s[i]));
        }
    }
    lemma_plain_characters_are_kept(s);
    let cleaned = cleaned_stem(s);
    assert(cleaned =~= s);
    let w = choose|i: int| 0 <= i < s.len() && #[trigger] s[i] != '_';
    assert(cleaned[w] != '_');
}

/// A sanitized stem is never empty and holds no path separator and no dot,
/// so it names a file inside the output directory.
pub proof fn lemma_sanitized_stem_is_safe(s: Seq<char>)
    ensures
        sanitized_stem(s).len() > 0,
        forall|i: int|
            0 <= i < sanitized_stem(s).len() ==> #[trigger] sanitized_stem(s)[i] != '/'
                && sanitized_stem(s)[i] != '\\' && sanitized_stem(s)[i] != '.',
{
    reveal_strlit("narration");
    let cleaned = cleaned_stem(s);
    lemma_clean_chars(s, 0, false);
    if forall|i: int| 0 <= i < cleaned.len() ==> #[trigger] cleaned[i] == '_' {
    } else {
        assert forall|i: int| 0 <= i < cleaned.len() implies #[trigger] cleaned[i] != '/'
            && cleaned[i] != '\\' && cleaned[i] != '.' by {
            assert(cleaned[i] == '_' || is_file_name_char(cleaned[i]));
        }
    }
}

} // verus!
