//! Domain types for the Story Engine.
//!
//! These are independent of the OpenAI wire format: callers build a
//! [`StoryRequest`] and get back a [`StoryResult`] without touching HTTP
//! or JSON details.

use vstd::prelude::*;

use crate::text::{
    chars_of, is_whitespace, lemma_trim_padded, push_range, push_char, spec_is_whitespace, trim,
    trim_bounds, trim_end, trim_start,
};

verus! {

// ---------------------------------------------------------------------
// StoryType
// ---------------------------------------------------------------------

/// The genre/category of story to generate.
#[derive(Debug, Clone, PartialEq, Eq)]
pub enum StoryType {
    Adventure,
    Romance,
    Horror,
    Comedy,
    Drama,
    SciFi,
    Fantasy,
    Mystery,
    Thriller,
    Inspirational,
    /// Escape hatch for genres not covered above, e.g. "cozy mystery" or
    /// "cyberpunk noir": the label is used verbatim.
    Custom(String),
}

impl StoryType {
    /// The human-readable label of the story type.
    pub open spec fn spec_label(&self) -> Seq<char> {
        match self {
            StoryType::Adventure => "Adventure"@,
            StoryType::Romance => "Romance"@,
            StoryType::Horror => "Horror"@,
            StoryType::Comedy => "Comedy"@,
            StoryType::Drama => "Drama"@,
            StoryType::SciFi => "Science Fiction"@,
            StoryType::Fantasy => "Fantasy"@,
            StoryType::Mystery => "Mystery"@,
            StoryType::Thriller => "Thriller"@,
            StoryType::Inspirational => "Inspirational"@,
            StoryType::Custom(label) => label@,
        }
    }

    /// The human-readable label, as the story type is displayed; a custom
    /// label verbatim.
    pub fn to_string(&self) -> (r: String)
        ensures
            r@ == self.spec_label(),
    {
        match self {
            StoryType::Adventure => "Adventure".to_string(),
            StoryType::Romance => "Romance".to_string(),
            StoryType::Horror => "Horror".to_string(),
            StoryType::Comedy => "Comedy".to_string(),
            StoryType::Drama => "Drama".to_string(),
            StoryType::SciFi => "Science Fiction".to_string(),
            StoryType::Fantasy => "Fantasy".to_string(),
            StoryType::Mystery => "Mystery".to_string(),
            StoryType::Thriller => "Thriller".to_string(),
            StoryType::Inspirational => "Inspirational".to_string(),
            StoryType::Custom(label) => label.clone(),
        }
    }
}

// ---------------------------------------------------------------------
// Tone
// ---------------------------------------------------------------------

/// The emotional register the story should be written in.
#[derive(Debug, Clone, PartialEq, Eq)]
pub enum Tone {
    Lighthearted,
    Serious,
    Suspenseful,
    Humorous,
    Dark,
    Romantic,
    Inspirational,
    Whimsical,
    Melancholic,
    Custom(String),
}

impl Tone {
    /// The human-readable label of the tone.
    pub open spec fn spec_label(&self) -> Seq<char> {
        match self {
            Tone::Lighthearted => "Lighthearted"@,
            Tone::Serious => "Serious"@,
            Tone::Suspenseful => "Suspenseful"@,
            Tone::Humorous => "Humorous"@,
            Tone::Dark => "Dark"@,
            Tone::Romantic => "Romantic"@,
            Tone::Inspirational => "Inspirational"@,
            Tone::Whimsical => "Whimsical"@,
            Tone::Melancholic => "Melancholic"@,
            Tone::Custom(label) => label@,
        }
    }

    /// The human-readable label, as the tone is displayed; a custom label
    /// verbatim.
    pub fn to_string(&self) -> (r: String)
        ensures
            r@ == self.spec_label(),
    {
        match self {
            Tone::Lighthearted => "Lighthearted".to_string(),
            Tone::Serious => "Serious".to_string(),
            Tone::Suspenseful => "Suspenseful".to_string(),
            Tone::Humorous => "Humorous".to_string(),
            Tone::Dark => "Dark".to_string(),
            Tone::Romantic => "Romantic".to_string(),
            Tone::Inspirational => "Inspirational".to_string(),
            Tone::Whimsical => "Whimsical".to_string(),
            Tone::Melancholic => "Melancholic".to_string(),
            Tone::Custom(label) => label.clone(),
        }
    }
}

// ---------------------------------------------------------------------
// StoryDuration
// ---------------------------------------------------------------------

/// Target narration length, as presets that the engine turns into
/// concrete prompt guidance.
#[derive(Debug, Clone, Copy, PartialEq, Eq, Structural)]
pub enum StoryDuration {
    /// A short-form story, ~30-60 seconds narrated aloud.
    Short,
    /// A mid-length story, ~2-3 minutes narrated aloud.
    Medium,
    /// A long-form story, ~5-8 minutes narrated aloud.
    Long,
}

impl StoryDuration {
    /// Approximate spoken length in seconds.
    pub open spec fn spec_approx_seconds(self) -> u32 {
        match self {
            StoryDuration::Short => 45,
            StoryDuration::Medium => 150,
            StoryDuration::Long => 420,
        }
    }

    /// `(min_words, max_words)` the story should aim for.
    pub open spec fn spec_target_word_count(self) -> (u32, u32) {
        match self {
            StoryDuration::Short => (60, 130),
            StoryDuration::Medium => (250, 450),
            StoryDuration::Long => (700, 1200),
        }
    }

    /// The human-readable description of the preset.
    pub open spec fn spec_label(self) -> Seq<char> {
        match self {
            StoryDuration::Short => "short (~30-60s)"@,
            StoryDuration::Medium => "medium (~2-3 min)"@,
            StoryDuration::Long => "long (~5-8 min)"@,
        }
    }

    /// Approximate spoken length in seconds, assuming a natural narration
    /// pace (~150 words/minute).
    pub fn approx_seconds(&self) -> (r: u32)
        ensures
            r == self.spec_approx_seconds(),
    {
        match self {
            StoryDuration::Short => 45,
            StoryDuration::Medium => 150,
            StoryDuration::Long => 420,
        }
    }

    /// `(min_words, max_words)` the generated story should aim for, based
    /// on the same ~150 words/minute narration pace.
    pub fn target_word_count(&self) -> (r: (u32, u32))
        ensures
            r == self.spec_target_word_count(),
    {
        match self {
            StoryDuration::Short => (60, 130),
            StoryDuration::Medium => (250, 450),
            StoryDuration::Long => (700, 1200),
        }
    }

    /// The human-readable description, as the preset is displayed.
    pub fn to_string(&self) -> (r: String)
        ensures
            r@ == self.spec_label(),
    {
        match self {
            StoryDuration::Short => "short (~30-60s)".to_string(),
            StoryDuration::Medium => "medium (~2-3 min)".to_string(),
            StoryDuration::Long => "long (~5-8 min)".to_string(),
        }
    }
}

/// The word-count range of every preset lies around the approximate spoken
/// length at 150 words per minute: the lower bound is at most, and the upper
/// bound at least, the words spoken in that time.
pub proof fn lemma_word_count_brackets_spoken_length(d: StoryDuration)
    ensures
        d.spec_target_word_count().0 < d.spec_target_word_count().1,
        d.spec_target_word_count().0 * 60 <= d.spec_approx_seconds() * 150,
        d.spec_approx_seconds() * 150 <= d.spec_target_word_count().1 * 60,
{
}

/// Longer presets are spoken for longer and aim for more words.
pub proof fn lemma_presets_are_ordered()
    ensures
        StoryDuration::Short.spec_approx_seconds() < StoryDuration::Medium.spec_approx_seconds(),
        StoryDuration::Medium.spec_approx_seconds() < StoryDuration::Long.spec_approx_seconds(),
        StoryDuration::Short.spec_target_word_count().1
            < StoryDuration::Medium.spec_target_word_count().0,
        StoryDuration::Medium.spec_target_word_count().1
            < StoryDuration::Long.spec_target_word_count().0,
{
}

// ---------------------------------------------------------------------
// Hashtag
// ---------------------------------------------------------------------

/// A character allowed after the leading `#` of a hashtag.
pub open spec fn is_tag_char(c: char) -> bool {
    !spec_is_whitespace(c) && c != '#'
}

/// A hashtag body: non-empty, with no whitespace and no `#`.
pub open spec fn is_valid_body(b: Seq<char>) -> bool {
    &&& b.len() > 0
    &&& forall|i: int| 0 <= i < b.len() ==> is_tag_char(#[trigger] b[i])
}

/// A normalized hashtag: `#` followed by a valid body.
pub open spec fn is_valid_hashtag(s: Seq<char>) -> bool {
    &&& s.len() > 0
    &&& s[0] == '#'
    &&& is_valid_body(s.drop_first())
}

/// What a raw tag leaves once trimmed and stripped of one leading `#`.
pub open spec fn hashtag_body(v: Seq<char>) -> Seq<char> {
    let t = trim(v);
    if t.len() > 0 && t[0] == '#' {
        t.drop_first()
    } else {
        t
    }
}

/// A validated, normalized hashtag: always non-empty and always
/// `#`-prefixed with no internal whitespace, however it was supplied.
#[derive(Debug, PartialEq, Eq, Hash)]
pub struct Hashtag(String);

impl Clone for Hashtag {
    fn clone(&self) -> (r: Self)
        ensures
            r@ == self@,
    {
        proof {
            use_type_invariant(self);
        }
        Hashtag(self.0.clone())
    }
}

impl View for Hashtag {
    type V = Seq<char>;

    closed spec fn view(&self) -> Seq<char> {
        self.0@
    }
}

impl Hashtag {
    #[verifier::type_invariant]
    spec fn well_formed(self) -> bool {
        is_valid_hashtag(self.0@)
    }

    /// The normalized text, `#` included.
    pub fn as_str(&self) -> (r: &str)
        ensures
            r@ == self@,
            is_valid_hashtag(r@),
    {
        proof {
            use_type_invariant(self);
        }
        self.0.as_str()
    }

    /// Normalizes a raw tag: surrounding whitespace is trimmed, one leading
    /// `#` is optional, and the rest must be non-empty and free of
    /// whitespace and `#`.
    pub fn parse(value: String) -> (ret: Result<Hashtag, HashtagError>)
        ensures
            match ret {
                Ok(h) => is_valid_body(hashtag_body(value@)) && h@ == seq!['#'] + hashtag_body(
                    value@,
                ),
                Err(HashtagError::Empty) => hashtag_body(value@).len() == 0,
                Err(HashtagError::InvalidCharacters(raw)) => {
                    &&& hashtag_body(value@).len() > 0
                    &&& !is_valid_body(hashtag_body(value@))
                    &&& raw@ == value@
                },
            },
            ret is Ok ==> is_valid_hashtag(ret->Ok_0@),
    {
        let chars = chars_of(value.as_str());
        let (mut a, b) = trim_bounds(&chars);
        let ghost t = chars@.subrange(a as int, b as int);
        if a < b && chars[a] == '#' {
            a += 1;
            assert(chars@.subrange(a as int, b as int) =~= t.drop_first());
        }
        let ghost body = chars@.subrange(a as int, b as int);
        assert(body == hashtag_body(value@));
        if a == b {
            return Err(HashtagError::Empty);
        }
        let mut i = a;
        while i < b
            invariant
                a <= i <= b <= chars@.len(),
                body == chars@.subrange(a as int, b as int),
                body == hashtag_body(value@),
                a < b,
                forall|j: int| a <= j < i ==> is_tag_char(#[trigger] chars@[j]),
            decreases b - i,
        {
            let c = chars[i];
            if is_whitespace(c) || c == '#' {
                assert(body[i - a] == c);
                assert(!is_tag_char(body[i - a]));
                return Err(HashtagError::InvalidCharacters(value));
            }
            i += 1;
        }
        assert forall|k: int| 0 <= k < body.len() implies is_tag_char(#[trigger] body[k]) by {
            assert(body[k] == chars@[k + a]);
        }
        let mut out = String::new();
        push_char(&mut out, '#');
        push_range(&mut out, &chars, a, b);
        assert(out@ =~= seq!['#'] + body);
        assert(out@.drop_first() =~= body);
        Ok(Hashtag(out))
    }
}

impl TryFrom<String> for Hashtag {
    type Error = HashtagError;

    /// See [`Hashtag::parse`].
    fn try_from(value: String) -> (ret: Result<Hashtag, HashtagError>)
        ensures
            match ret {
                Ok(h) => is_valid_body(hashtag_body(value@)) && h@ == seq!['#'] + hashtag_body(
                    value@,
                ),
                Err(HashtagError::Empty) => hashtag_body(value@).len() == 0,
                Err(HashtagError::InvalidCharacters(raw)) => {
                    &&& hashtag_body(value@).len() > 0
                    &&& !is_valid_body(hashtag_body(value@))
                    &&& raw@ == value@
                },
            },
    {
        Hashtag::parse(value)
    }
}

impl vstd::std_specs::convert::TryFromSpecImpl<String> for Hashtag {
    /// A hashtag's text cannot be built in a specification, so the outcome
    /// is stated by the `ensures` of `try_from` and of [`Hashtag::parse`].
    open spec fn obeys_try_from_spec() -> bool {
        false
    }

    closed spec fn try_from_spec(v: String) -> Result<Hashtag, HashtagError> {
        Err(HashtagError::InvalidCharacters(v))
    }
}

impl From<Hashtag> for String {
    /// The hashtag's normalized text.
    fn from(hashtag: Hashtag) -> (r: String)
        ensures
            r@ == hashtag@,
    {
        hashtag.0
    }
}

impl vstd::std_specs::convert::FromSpecImpl<Hashtag> for String {
    open spec fn obeys_from_spec() -> bool {
        true
    }

    closed spec fn from_spec(v: Hashtag) -> String {
        v.0
    }
}

/// A normalized hashtag has nothing to trim, so its body is what follows the
/// `#`.
proof fn lemma_valid_hashtag_trims_to_itself(s: Seq<char>)
    requires
        is_valid_hashtag(s),
    ensures
        trim(s) == s,
{
    assert(!spec_is_whitespace(s[0]));
    assert(trim_start(s) == s);
    assert(s.last() == s.drop_first()[s.len() - 2]);
    assert(!spec_is_whitespace(s.last()));
    assert(trim_end(s) == s);
}

/// A normalized hashtag parses to itself: normalizing is idempotent, and
/// turning a hashtag into its text and parsing that text again gives the
/// same hashtag.
pub proof fn lemma_hashtag_normal_form(s: Seq<char>)
    requires
        is_valid_hashtag(s),
    ensures
        hashtag_body(s) == s.drop_first(),
        is_valid_body(hashtag_body(s)),
        seq!['#'] + hashtag_body(s) == s,
{
    lemma_valid_hashtag_trims_to_itself(s);
    assert(seq!['#'] + s.drop_first() =~= s);
}

/// A valid body gives the same hashtag with or without the `#` in front.
pub proof fn lemma_prefix_is_optional(b: Seq<char>)
    requires
        is_valid_body(b),
    ensures
        hashtag_body(b) == b,
        hashtag_body(seq!['#'] + b) == b,
{
    let h = seq!['#'] + b;
    assert(h.drop_first() =~= b);
    assert(is_valid_hashtag(h));
    lemma_hashtag_normal_form(h);
    assert(is_tag_char(b[0]));
    assert(!spec_is_whitespace(b[0]));
    assert(trim_start(b) == b);
    assert(is_tag_char(b[b.len() - 1]));
    assert(trim_end(b) == b);
}

/// Any tag whose body, after surrounding whitespace and one optional `#`
/// are removed, is non-empty and holds neither whitespace nor `#` is
/// accepted, and the hashtag it gives is `#` followed by exactly that body:
/// letters, digits, punctuation and non-ASCII characters are all kept.
pub proof fn lemma_plain_tags_are_accepted(pre: Seq<char>, b: Seq<char>, post: Seq<char>)
    requires
        b.len() > 0,
        forall|i: int| 0 <= i < b.len() ==> !spec_is_whitespace(#[trigger] b[i]) && b[i] != '#',
        forall|j: int| 0 <= j < pre.len() ==> spec_is_whitespace(#[trigger] pre[j]),
        forall|j: int| 0 <= j < post.len() ==> spec_is_whitespace(#[trigger] post[j]),
    ensures
        hashtag_body(pre + b + post) == b,
        hashtag_body(pre + (seq!['#'] + b) + post) == b,
        is_valid_body(b),
{
    assert(!spec_is_whitespace(b[0]) && b[0] != '#');
    assert(!spec_is_whitespace(b[b.len() - 1]));
    lemma_trim_padded(pre, b, post);
    let h = seq!['#'] + b;
    assert(h[0] == '#');
    assert(h.last() == b[b.len() - 1]);
    assert('#' != ' ');
    assert(!spec_is_whitespace('#'));
    lemma_trim_padded(pre, h, post);
    assert(h.drop_first() =~= b);
    assert forall|i: int| 0 <= i < b.len() implies is_tag_char(#[trigger] b[i]) by {
        assert(!spec_is_whitespace(b[i]) && b[i] != '#');
    }
}

/// Why a raw tag was refused.
#[derive(Debug, Clone)]
pub enum HashtagError {
    /// Nothing is left once whitespace and the leading `#` are removed.
    Empty,
    /// The tag (given verbatim) holds whitespace or a stray `#`.
    InvalidCharacters(String),
}

impl HashtagError {
    /// The message the error is displayed with.
    pub open spec fn spec_message(self) -> Seq<char> {
        match self {
            HashtagError::Empty => "hashtag must not be empty"@,
            HashtagError::InvalidCharacters(raw) => "hashtag "@ + debug_text(raw@)
                + " contains whitespace or a stray '#'"@,
        }
    }

    /// The message the error is displayed with; a refused tag is shown
    /// quoted and escaped.
    pub fn message(&self) -> (r: String)
        ensures
            r@ == self.spec_message(),
    {
        match self {
            HashtagError::Empty => "hashtag must not be empty".to_string(),
            HashtagError::InvalidCharacters(raw) => {
                let mut r = "hashtag ".to_string();
                let quoted = debug_quoted(raw.as_str());
                r.append(quoted.as_str());
                r.append(" contains whitespace or a stray '#'");
                r
            },
        }
    }
}

/// What `{:?}` prints for a string: the text quoted, with quotes,
/// backslashes and unprintable characters escaped.
pub uninterp spec fn debug_text(s: Seq<char>) -> Seq<char>;

/// `format!("{:?}", s)`: the string's `Debug` form, which depends on the
/// text alone; it is named, not stated.
#[verifier::external_body]
fn debug_quoted(s: &str) -> (r: String)
    ensures
        r@ == debug_text(s@),
{
    format!("{:?}", s)
}

// ---------------------------------------------------------------------
// StoryRequest / StoryResult
// ---------------------------------------------------------------------

/// Input to the Story Engine.
#[derive(Debug, Clone)]
pub struct StoryRequest {
    pub story_type: StoryType,
    pub duration: StoryDuration,
    pub tone: Tone,
}

impl StoryRequest {
    pub fn new(story_type: StoryType, duration: StoryDuration, tone: Tone) -> (r: Self)
        ensures
            r.story_type == story_type,
            r.duration == duration,
            r.tone == tone,
    {
        Self { story_type, duration, tone }
    }
}

/// Output of the Story Engine: what the model returns for a request.
#[derive(Debug, Clone)]
pub struct StoryResult {
    pub title: String,
    pub story: String,
    pub description: String,
    pub hashtags: Vec<Hashtag>,
}

} // verus!
