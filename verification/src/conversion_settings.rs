//! Format policy: which encoder arguments a target format and a quality tier
//! stand for.

use vstd::prelude::*;
use crate::error::{ConversionError, ConversionErrorView};
use crate::text::str_eq;
use crate::types::opt_str_view;

verus! {

/// The named quality presets. Any name other than `high` and `low` counts as
/// `Medium`.
#[derive(Clone, Copy, Debug, PartialEq, Eq, Structural)]
pub enum QualityTier {
    High,
    Medium,
    Low,
}

/// Encoder settings for one output format.
#[derive(Debug, Clone, Copy)]
pub struct FormatConfig {
    pub video_codec: &'static str,
    pub audio_codec: Option<&'static str>,
    pub preset: Option<&'static str>,
    pub crf: Option<&'static str>,
    pub bitrate: Option<&'static str>,
}

/// What a [`FormatConfig`] holds, as plain text.
pub struct FormatConfigView {
    pub video_codec: Seq<char>,
    pub audio_codec: Option<Seq<char>>,
    pub preset: Option<Seq<char>>,
    pub crf: Option<Seq<char>>,
    pub bitrate: Option<Seq<char>>,
}

impl View for FormatConfig {
    type V = FormatConfigView;

    open spec fn view(&self) -> FormatConfigView {
        FormatConfigView {
            video_codec: self.video_codec@,
            audio_codec: opt_str_view(self.audio_codec),
            preset: opt_str_view(self.preset),
            crf: opt_str_view(self.crf),
            bitrate: opt_str_view(self.bitrate),
        }
    }
}

/// The tier a quality name stands for.
pub open spec fn quality_tier(quality: Seq<char>) -> QualityTier {
    if quality == "high"@ {
        QualityTier::High
    } else if quality == "low"@ {
        QualityTier::Low
    } else {
        QualityTier::Medium
    }
}

/// H.264 with AAC; the tier picks the preset and the constant rate factor.
pub open spec fn mp4_config(tier: QualityTier) -> FormatConfigView {
    FormatConfigView {
        video_codec: "libx264"@,
        audio_codec: Some("aac"@),
        preset: Some(
            match tier {
                QualityTier::High => "slow"@,
                QualityTier::Medium => "medium"@,
                QualityTier::Low => "fast"@,
            },
        ),
        crf: Some(
            match tier {
                QualityTier::High => "18"@,
                QualityTier::Medium => "23"@,
                QualityTier::Low => "28"@,
            },
        ),
        bitrate: None,
    }
}

/// VP9 with Opus; the tier picks the video bitrate.
pub open spec fn webm_config(tier: QualityTier) -> FormatConfigView {
    FormatConfigView {
        video_codec: "libvpx-vp9"@,
        audio_codec: Some("libopus"@),
        preset: None,
        crf: None,
        bitrate: Some(
            match tier {
                QualityTier::High => "2M"@,
                QualityTier::Medium => "1M"@,
                QualityTier::Low => "500k"@,
            },
        ),
    }
}

/// H.264 with AAC and nothing else: the settings of `avi` and `mov`.
pub open spec fn plain_h264_config() -> FormatConfigView {
    FormatConfigView {
        video_codec: "libx264"@,
        audio_codec: Some("aac"@),
        preset: None,
        crf: None,
        bitrate: None,
    }
}

/// The settings of a format at a quality, or `None` for a format outside
/// `mp4`, `webm`, `avi`, `mov`.
pub open spec fn format_config(format: Seq<char>, quality: Seq<char>) -> Option<FormatConfigView> {
    if format == "mp4"@ {
        Some(mp4_config(quality_tier(quality)))
    } else if format == "webm"@ {
        Some(webm_config(quality_tier(quality)))
    } else if format == "avi"@ || format == "mov"@ {
        Some(plain_h264_config())
    } else {
        None
    }
}

/// An option with its value, or nothing where the value is absent.
pub open spec fn optional_flag(name: Seq<char>, value: Option<Seq<char>>) -> Seq<Seq<char>> {
    match value {
        Some(v) => seq![name, v],
        None => seq![],
    }
}

/// The encoder arguments that a configuration stands for, in the order in
/// which they are given.
pub open spec fn config_arguments(config: FormatConfigView) -> Seq<Seq<char>> {
    seq!["-c:v"@, config.video_codec] + optional_flag("-c:a"@, config.audio_codec) + optional_flag(
        "-preset"@,
        config.preset,
    ) + optional_flag("-crf"@, config.crf) + optional_flag("-b:v"@, config.bitrate)
}

/// Appends an option and its value to an argument list.
pub fn push_flag(cmd: &mut Vec<String>, name: &str, value: &str)
    ensures
        final(cmd).deep_view() == old(cmd).deep_view() + seq![name@, value@],
{
    cmd.push(String::from_str(name));
    cmd.push(String::from_str(value));
    assert(cmd.deep_view() =~= old(cmd).deep_view() + seq![name@, value@]);
}

/// Appends an option and its value where there is a value.
pub fn push_optional_flag(cmd: &mut Vec<String>, name: &str, value: Option<&'static str>)
    ensures
        final(cmd).deep_view() == old(cmd).deep_view() + optional_flag(name@, opt_str_view(value)),
{
    match value {
        Some(v) => push_flag(cmd, name, v),
        None => {
            assert(cmd.deep_view() =~= old(cmd).deep_view() + Seq::<Seq<char>>::empty());
        },
    }
}

impl FormatConfig {
    /// Appends this configuration's arguments to an encoder's argument list.
    pub fn apply_to_command(&self, cmd: &mut Vec<String>)
        ensures
            final(cmd).deep_view() == old(cmd).deep_view() + config_arguments(self@),
    {
        push_flag(cmd, "-c:v", self.video_codec);
        push_optional_flag(cmd, "-c:a", self.audio_codec);
        push_optional_flag(cmd, "-preset", self.preset);
        push_optional_flag(cmd, "-crf", self.crf);
        push_optional_flag(cmd, "-b:v", self.bitrate);
        assert(cmd.deep_view() =~= old(cmd).deep_view() + config_arguments(self@));
    }
}

/// The settings of a format at a quality. A format outside `mp4`, `webm`,
/// `avi` and `mov` is refused; an unknown quality counts as `medium`.
pub fn get_format_config(format: &str, quality: &str) -> (result: Result<
    FormatConfig,
    ConversionError,
>)
    ensures
        match result {
            Ok(config) => format_config(format@, quality@) == Some(config@),
            Err(error) => format_config(format@, quality@) is None && error@
                == ConversionErrorView::UnsupportedFormat(format@),
        },
{
    if str_eq(format, "mp4") {
        Ok(get_mp4_config(quality))
    } else if str_eq(format, "webm") {
        Ok(get_webm_config(quality))
    } else if str_eq(format, "avi") {
        Ok(get_avi_config())
    } else if str_eq(format, "mov") {
        Ok(get_mov_config())
    } else {
        Err(ConversionError::UnsupportedFormat(String::from_str(format)))
    }
}

/// A quality that is neither `high` nor `low` gives what `medium` gives, for
/// every format.
pub proof fn lemma_unknown_quality_counts_as_medium(format: Seq<char>, quality: Seq<char>)
    requires
        quality != "high"@,
        quality != "low"@,
    ensures
        format_config(format, quality) == format_config(format, "medium"@),
{
    reveal_strlit("medium");
    reveal_strlit("high");
    reveal_strlit("low");
    assert("medium"@.len() == 6 && "high"@.len() == 4 && "low"@.len() == 3);
    assert(quality_tier(quality) == QualityTier::Medium);
    assert(quality_tier("medium"@) == QualityTier::Medium);
}

/// Reads a quality name; unknown names fall back to `Medium`.
pub fn parse_quality(quality: &str) -> (tier: QualityTier)
    ensures
        tier == quality_tier(quality@),
{
    if str_eq(quality, "high") {
        QualityTier::High
    } else if str_eq(quality, "low") {
        QualityTier::Low
    } else {
        QualityTier::Medium
    }
}

/// MP4 settings for a quality name.
pub fn get_mp4_config(quality: &str) -> (config: FormatConfig)
    ensures
        config@ == mp4_config(quality_tier(quality@)),
{
    match parse_quality(quality) {
        QualityTier::High => FormatConfig {
            video_codec: "libx264",
            audio_codec: Some("aac"),
            preset: Some("slow"),
            crf: Some("18"),
            bitrate: None,
        },
        QualityTier::Medium => FormatConfig {
            video_codec: "libx264",
            audio_codec: Some("aac"),
            preset: Some("medium"),
            crf: Some("23"),
            bitrate: None,
        },
        QualityTier::Low => FormatConfig {
            video_codec: "libx264",
            audio_codec: Some("aac"),
            preset: Some("fast"),
            crf: Some("28"),
            bitrate: None,
        },
    }
}

/// WebM settings for a quality name.
pub fn get_webm_config(quality: &str) -> (config: FormatConfig)
    ensures
        config@ == webm_config(quality_tier(quality@)),
{
    match parse_quality(quality) {
        QualityTier::High => FormatConfig {
            video_codec: "libvpx-vp9",
            audio_codec: Some("libopus"),
            preset: None,
            crf: None,
            bitrate: Some("2M"),
        },
        QualityTier::Medium => FormatConfig {
            video_codec: "libvpx-vp9",
            audio_codec: Some("libopus"),
            preset: None,
            crf: None,
            bitrate: Some("1M"),
        },
        QualityTier::Low => FormatConfig {
            video_codec: "libvpx-vp9",
            audio_codec: Some("libopus"),
            preset: None,
            crf: None,
            bitrate: Some("500k"),
        },
    }
}

/// AVI settings.
pub fn get_avi_config() -> (config: FormatConfig)
    ensures
        config@ == plain_h264_config(),
{
    FormatConfig {
        video_codec: "libx264",
        audio_codec: Some("aac"),
        preset: None,
        crf: None,
        bitrate: None,
    }
}

/// MOV settings.
pub fn get_mov_config() -> (config: FormatConfig)
    ensures
        config@ == plain_h264_config(),
{
    FormatConfig {
        video_codec: "libx264",
        audio_codec: Some("aac"),
        preset: None,
        crf: None,
        bitrate: None,
    }
}

} // verus!
