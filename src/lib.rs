//! Client-side logic for a crowd-sourced video-segment annotation service:
//! building segment lookups (plain or k-anonymous), picking the right hash
//! bucket out of a response, and turning wire records into typed segments.

pub mod decode;
pub mod error;
pub mod laws;
pub mod privacy;
pub mod request;
pub mod segment;
pub mod text;
pub mod time;

pub use decode::{
    decode_segments, normalize, normalize_all, select_bucket, RawHashMatch, RawSegment,
    SegmentResponse,
};
pub use error::{check_status, BadRange, SponsorBlockError, ValueKind};
pub use privacy::{bytes_to_hex_string, video_hash_prefix};
pub use request::{AcceptedCategories, Client, LookupMode, SegmentRequest};
pub use segment::{
    convert_action_type, convert_segment_kind, ActionType, ActionableSegment,
    ActionableSegmentKind, Segment, TimePoint, TimeSection,
};
pub use text::{str_equals, to_url_array};
pub use time::Seconds;
