//! Plan types: the caller's description of the music to generate.
//!
//! A request carries exactly one of two plan shapes: a free-text prompt
//! (optionally with a target duration) or a structured composition plan made
//! of ordered sections. All of them are plain value objects; the only
//! client-side validation is the clamping of the prompt plan's requested
//! duration into the provider's documented range.

use vstd::prelude::*;

verus! {

/// Lower bound, in milliseconds, of the requested song length.
pub const MIN_MUSIC_LENGTH_MS: u32 = 10000;

/// Upper bound, in milliseconds, of the requested song length.
pub const MAX_MUSIC_LENGTH_MS: u32 = 300000;

/// The duration actually stored for a requested duration: values outside
/// `[MIN_MUSIC_LENGTH_MS, MAX_MUSIC_LENGTH_MS]` are clamped to the nearest
/// bound rather than rejected.
pub open spec fn clamped_length(length: u32) -> u32 {
    if length < MIN_MUSIC_LENGTH_MS {
        MIN_MUSIC_LENGTH_MS
    } else if length > MAX_MUSIC_LENGTH_MS {
        MAX_MUSIC_LENGTH_MS
    } else {
        length
    }
}

/// The clamp is idempotent: a value below the range becomes the lower bound,
/// a value above it the upper bound, an in-range value passes through
/// unchanged, and clamping an already clamped value changes nothing.
pub proof fn lemma_clamp_idempotent(length: u32)
    ensures
        clamped_length(clamped_length(length)) == clamped_length(length),
        MIN_MUSIC_LENGTH_MS <= clamped_length(length) <= MAX_MUSIC_LENGTH_MS,
        MIN_MUSIC_LENGTH_MS <= length <= MAX_MUSIC_LENGTH_MS ==> clamped_length(length) == length,
{
}

/// The caller's plan for a piece of music: either a free-text prompt or a
/// structured composition. Exactly one variant is active per request.
#[derive(Debug, Clone)]
pub enum MusicPlan {
    Prompt(TTMPromptPlan),
    Composition(TTMCompositionPlan),
}

/// The wire body of a request. The two variants serialize to structurally
/// different JSON shapes with no discriminator field: a prompt plan's fields
/// stand at the top level, while a composition plan is wrapped under a
/// `composition_plan` key.
#[derive(Debug)]
pub enum TTMRequestBody {
    Prompt(TTMPromptPlan),
    Composition(TTMRequestBodyComposition),
}

/// Wrapper that puts a composition plan under the `composition_plan` key of
/// the wire body.
#[derive(Debug, Clone)]
pub struct TTMRequestBodyComposition {
    pub composition_plan: TTMCompositionPlan,
}

/// A fully configured request: the chosen plan together with the output
/// format and model identifier. The output format travels as a URL query
/// parameter and the model identifier is not part of the wire body.
#[derive(Debug, Clone)]
pub struct TTMRequest {
    /// Output format of the generated audio, as a codec_samplerate_bitrate
    /// string; sent as a URL query parameter, never in the JSON body.
    pub output_format: Option<String>,
    /// The model to use for the generation.
    pub model_id: Option<String>,
    /// The plan guiding the generation.
    pub plan: MusicPlan,
}

/// Free-text plan: a prompt, and optionally a target duration.
#[derive(Debug, Clone)]
pub struct TTMPromptPlan {
    /// A simple text prompt to generate a song from.
    pub prompt: String,
    /// The length of the song to generate in milliseconds, clamped into
    /// `[MIN_MUSIC_LENGTH_MS, MAX_MUSIC_LENGTH_MS]` when set. When unset the
    /// provider chooses a length based on the prompt.
    pub music_length_ms: Option<u32>,
}

impl TTMPromptPlan {
    /// A prompt plan with the given prompt and no target duration.
    pub fn new(prompt: String) -> (r: Self)
        ensures
            r.prompt == prompt,
            r.music_length_ms is None,
    {
        TTMPromptPlan { prompt, music_length_ms: None }
    }

    /// Set the target duration in milliseconds. Values outside
    /// `[MIN_MUSIC_LENGTH_MS, MAX_MUSIC_LENGTH_MS]` are clamped to the
    /// nearest bound, not rejected.
    pub fn music_length_ms(self, length: u32) -> (r: Self)
        ensures
            r.prompt == self.prompt,
            r.music_length_ms == Some(clamped_length(length)),
    {
        let clamped: u32 = if length < MIN_MUSIC_LENGTH_MS {
            MIN_MUSIC_LENGTH_MS
        } else if length > MAX_MUSIC_LENGTH_MS {
            MAX_MUSIC_LENGTH_MS
        } else {
            length
        };
        TTMPromptPlan { prompt: self.prompt, music_length_ms: Some(clamped) }
    }
}

/// Structured plan: global style tags plus an ordered sequence of sections.
/// The order of sections defines the song structure and is preserved through
/// serialization.
#[derive(Debug, Clone)]
pub struct TTMCompositionPlan {
    /// The styles that should be present in the entire song.
    pub positive_global_styles: Vec<String>,
    /// The styles that should not be present in the entire song.
    pub negative_global_styles: Vec<String>,
    /// The sections of the song, in order.
    pub sections: Vec<TTMCompositionPlanSection>,
}

impl TTMCompositionPlan {
    /// A composition plan with the given style tags and sections.
    pub fn new(
        positive_global_styles: Vec<String>,
        negative_global_styles: Vec<String>,
        sections: Vec<TTMCompositionPlanSection>,
    ) -> (r: Self)
        ensures
            r.positive_global_styles == positive_global_styles,
            r.negative_global_styles == negative_global_styles,
            r.sections == sections,
    {
        TTMCompositionPlan { positive_global_styles, negative_global_styles, sections }
    }
}

/// One structural segment of a composition plan, with its own style tags,
/// duration and lyric lines.
///
/// The provider documents a section name of 1 to 100 characters and a
/// duration between 3000 ms and 120000 ms; neither bound is enforced here —
/// out-of-range values are passed through to the server unchanged.
#[derive(Debug, Clone)]
pub struct TTMCompositionPlanSection {
    /// The name of the section.
    pub section_name: String,
    /// The styles that should be present in this section.
    pub positive_local_styles: Vec<String>,
    /// The styles that should not be present in this section.
    pub negative_local_styles: Vec<String>,
    /// The duration of the section in milliseconds.
    pub duration_ms: u32,
    /// The lyrics of the section, line by line.
    pub lines: Vec<String>,
}

impl TTMCompositionPlanSection {
    /// A section with the given name, style tags, duration and lyric lines.
    pub fn new(
        section_name: String,
        positive_local_styles: Vec<String>,
        negative_local_styles: Vec<String>,
        duration_ms: u32,
        lines: Vec<String>,
    ) -> (r: Self)
        ensures
            r.section_name == section_name,
            r.positive_local_styles == positive_local_styles,
            r.negative_local_styles == negative_local_styles,
            r.duration_ms == duration_ms,
            r.lines == lines,
    {
        TTMCompositionPlanSection {
            section_name,
            positive_local_styles,
            negative_local_styles,
            duration_ms,
            lines,
        }
    }
}

} // verus!
