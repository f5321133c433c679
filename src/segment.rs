use vstd::prelude::*;
use crate::error::{SponsorBlockError, ValueKind};
use crate::text::str_equals;
use crate::time::Seconds;

verus! {

/// The kinds of segment that the service knows.
#[derive(Clone, Copy, Debug, PartialEq, Eq, Structural, Hash)]
pub enum ActionableSegmentKind {
    Sponsor,
    UnpaidSelfPromotion,
    InteractionReminder,
    Highlight,
    IntermissionIntroAnimation,
    EndcardsCredits,
    PreviewRecap,
    NonMusic,
}

/// What a player is meant to do with a segment.
#[derive(Clone, Copy, Debug, PartialEq, Eq, Structural, Hash)]
pub enum ActionType {
    Skip,
    Mute,
    Full,
    Poi,
}

/// A range of a video.
#[derive(Clone, Copy, Debug, PartialEq, Eq, Structural)]
pub struct TimeSection {
    pub start: Seconds,
    pub end: Seconds,
}

/// A single instant of a video.
#[derive(Clone, Copy, Debug, PartialEq, Eq, Structural)]
pub struct TimePoint {
    pub point: Seconds,
}

/// A segment's kind together with the shape of time it covers.
#[derive(Clone, Copy, Debug, PartialEq, Eq, Structural)]
pub enum ActionableSegment {
    Sponsor(TimeSection),
    UnpaidSelfPromotion(TimeSection),
    InteractionReminder(TimeSection),
    Highlight(TimePoint),
    IntermissionIntroAnimation(TimeSection),
    EndcardsCredits(TimeSection),
    PreviewRecap(TimeSection),
    NonMusic(TimeSection),
}

/// A validated segment as handed to the caller.
#[derive(Clone, Debug, PartialEq, Eq)]
pub struct Segment {
    pub segment: ActionableSegment,
    pub action_type: ActionType,
    pub uuid: String,
    pub locked: bool,
    pub votes: i32,
    pub video_duration_upon_submission: Seconds,
}

/// The service's name for each segment kind.
pub open spec fn category_name(kind: ActionableSegmentKind) -> Seq<char> {
    match kind {
        ActionableSegmentKind::Sponsor => "sponsor"@,
        ActionableSegmentKind::UnpaidSelfPromotion => "selfpromo"@,
        ActionableSegmentKind::InteractionReminder => "interaction"@,
        ActionableSegmentKind::Highlight => "poi_highlight"@,
        ActionableSegmentKind::IntermissionIntroAnimation => "intro"@,
        ActionableSegmentKind::EndcardsCredits => "outro"@,
        ActionableSegmentKind::PreviewRecap => "preview"@,
        ActionableSegmentKind::NonMusic => "music_offtopic"@,
    }
}

/// The segment kind that a category string names, if any.
pub open spec fn category_kind(s: Seq<char>) -> Option<ActionableSegmentKind> {
    if s == "sponsor"@ {
        Some(ActionableSegmentKind::Sponsor)
    } else if s == "selfpromo"@ {
        Some(ActionableSegmentKind::UnpaidSelfPromotion)
    } else if s == "interaction"@ {
        Some(ActionableSegmentKind::InteractionReminder)
    } else if s == "poi_highlight"@ {
        Some(ActionableSegmentKind::Highlight)
    } else if s == "intro"@ {
        Some(ActionableSegmentKind::IntermissionIntroAnimation)
    } else if s == "outro"@ {
        Some(ActionableSegmentKind::EndcardsCredits)
    } else if s == "preview"@ {
        Some(ActionableSegmentKind::PreviewRecap)
    } else if s == "music_offtopic"@ {
        Some(ActionableSegmentKind::NonMusic)
    } else {
        None
    }
}

/// The action type that an action string names, if any.
pub open spec fn action_kind(s: Seq<char>) -> Option<ActionType> {
    if s == "skip"@ {
        Some(ActionType::Skip)
    } else if s == "mute"@ {
        Some(ActionType::Mute)
    } else if s == "full"@ {
        Some(ActionType::Full)
    } else if s == "poi"@ {
        Some(ActionType::Poi)
    } else {
        None
    }
}

/// The outcome of looking a category up: its kind, or the error that
/// carries the unknown string.
pub open spec fn category_result(s: String) -> Result<ActionableSegmentKind, SponsorBlockError> {
    match category_kind(s@) {
        Some(k) => Ok(k),
        None => Err(SponsorBlockError::UnknownValue { kind: ValueKind::Category, value: s }),
    }
}

/// The outcome of looking an action type up.
pub open spec fn action_result(s: String) -> Result<ActionType, SponsorBlockError> {
    match action_kind(s@) {
        Some(a) => Ok(a),
        None => Err(SponsorBlockError::UnknownValue { kind: ValueKind::ActionType, value: s }),
    }
}

/// The service's name for a segment kind.
pub fn category_name_of(kind: ActionableSegmentKind) -> (r: &'static str)
    ensures
        r@ == category_name(kind),
{
    match kind {
        ActionableSegmentKind::Sponsor => "sponsor",
        ActionableSegmentKind::UnpaidSelfPromotion => "selfpromo",
        ActionableSegmentKind::InteractionReminder => "interaction",
        ActionableSegmentKind::Highlight => "poi_highlight",
        ActionableSegmentKind::IntermissionIntroAnimation => "intro",
        ActionableSegmentKind::EndcardsCredits => "outro",
        ActionableSegmentKind::PreviewRecap => "preview",
        ActionableSegmentKind::NonMusic => "music_offtopic",
    }
}

/// Looks a category string up among the known segment kinds.
pub fn convert_segment_kind(s: &String) -> (r: Result<ActionableSegmentKind, SponsorBlockError>)
    ensures
        r == category_result(*s),
{
    let s_ref: &String = s;
    let s: &str = s.as_str();
    if str_equals(s, "sponsor") {
        Ok(ActionableSegmentKind::Sponsor)
    } else if str_equals(s, "selfpromo") {
        Ok(ActionableSegmentKind::UnpaidSelfPromotion)
    } else if str_equals(s, "interaction") {
        Ok(ActionableSegmentKind::InteractionReminder)
    } else if str_equals(s, "poi_highlight") {
        Ok(ActionableSegmentKind::Highlight)
    } else if str_equals(s, "intro") {
        Ok(ActionableSegmentKind::IntermissionIntroAnimation)
    } else if str_equals(s, "outro") {
        Ok(ActionableSegmentKind::EndcardsCredits)
    } else if str_equals(s, "preview") {
        Ok(ActionableSegmentKind::PreviewRecap)
    } else if str_equals(s, "music_offtopic") {
        Ok(ActionableSegmentKind::NonMusic)
    } else {
        Err(SponsorBlockError::UnknownValue { kind: ValueKind::Category, value: s_ref.clone() })
    }
}

/// Looks an action string up among the known action types.
pub fn convert_action_type(s: &String) -> (r: Result<ActionType, SponsorBlockError>)
    ensures
        r == action_result(*s),
{
    let s_ref: &String = s;
    let s: &str = s.as_str();
    if str_equals(s, "skip") {
        Ok(ActionType::Skip)
    } else if str_equals(s, "mute") {
        Ok(ActionType::Mute)
    } else if str_equals(s, "full") {
        Ok(ActionType::Full)
    } else if str_equals(s, "poi") {
        Ok(ActionType::Poi)
    } else {
        Err(SponsorBlockError::UnknownValue { kind: ValueKind::ActionType, value: s_ref.clone() })
    }
}

} // verus!
