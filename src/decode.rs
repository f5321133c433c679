use vstd::prelude::*;
use crate::error::{BadRange, SponsorBlockError};
use crate::segment::{
    action_result, category_result, convert_action_type, convert_segment_kind, ActionableSegment,
    ActionableSegmentKind, Segment, TimePoint, TimeSection,
};
use crate::text::str_equals;
use crate::time::Seconds;

verus! {

/// A segment record as it arrives over the wire, before validation.
#[derive(Clone, Debug, PartialEq, Eq)]
pub struct RawSegment {
    pub category: String,
    pub action_type: String,
    pub start: Seconds,
    pub end: Seconds,
    pub uuid: String,
    /// 0 for unlocked; any other value for locked.
    pub locked: u8,
    pub votes: i32,
    pub video_duration_upon_submission: Seconds,
}

/// One hash bucket of a k-anonymous lookup: a video that shares the hash
/// prefix, and its segments.
#[derive(Clone, Debug, PartialEq, Eq)]
pub struct RawHashMatch {
    pub video_id: String,
    pub hash: String,
    pub segments: Vec<RawSegment>,
}

/// A decoded response body, in the shape of the lookup that asked for it.
#[derive(Clone, Debug, PartialEq, Eq)]
pub enum SegmentResponse {
    /// The segments of the requested video.
    Plain(Vec<RawSegment>),
    /// The buckets of every video that shares the requested hash prefix.
    Private(Vec<RawHashMatch>),
}

/// The first failed check on a time range, in the order: start after end,
/// start below zero, end below zero.
pub open spec fn range_check(start: Seconds, end: Seconds) -> Option<BadRange> {
    if end.spec_less_than(start) {
        Some(BadRange::StartAfterEnd { start, end })
    } else if start.spec_is_negative() {
        Some(BadRange::NegativeStart { start })
    } else if end.spec_is_negative() {
        Some(BadRange::NegativeEnd { end })
    } else {
        None
    }
}

/// The payload for a kind: a point at `start` for highlights, the whole
/// range for every other kind.
pub open spec fn shaped(kind: ActionableSegmentKind, start: Seconds, end: Seconds) -> ActionableSegment {
    let section = TimeSection { start, end };
    match kind {
        ActionableSegmentKind::Sponsor => ActionableSegment::Sponsor(section),
        ActionableSegmentKind::UnpaidSelfPromotion => ActionableSegment::UnpaidSelfPromotion(section),
        ActionableSegmentKind::InteractionReminder => ActionableSegment::InteractionReminder(section),
        ActionableSegmentKind::Highlight => ActionableSegment::Highlight(TimePoint { point: start }),
        ActionableSegmentKind::IntermissionIntroAnimation => ActionableSegment::IntermissionIntroAnimation(section),
        ActionableSegmentKind::EndcardsCredits => ActionableSegment::EndcardsCredits(section),
        ActionableSegmentKind::PreviewRecap => ActionableSegment::PreviewRecap(section),
        ActionableSegmentKind::NonMusic => ActionableSegment::NonMusic(section),
    }
}

/// What one wire record becomes: the range is checked first, then the
/// category and the action type are looked up; the other fields pass
/// through, with `locked` read as "non-zero".
pub open spec fn normalized(raw: RawSegment) -> Result<Segment, SponsorBlockError> {
    match range_check(raw.start, raw.end) {
        Some(bad) => Err(SponsorBlockError::BadData(bad)),
        None => match category_result(raw.category) {
            Err(e) => Err(e),
            Ok(kind) => match action_result(raw.action_type) {
                Err(e) => Err(e),
                Ok(action) => Ok(Segment {
                    segment: shaped(kind, raw.start, raw.end),
                    action_type: action,
                    uuid: raw.uuid,
                    locked: raw.locked != 0,
                    votes: raw.votes,
                    video_duration_upon_submission: raw.video_duration_upon_submission,
                }),
            },
        },
    }
}

/// What a batch of wire records becomes: every record normalized, in order,
/// or the error of the first record that fails.
pub open spec fn normalized_batch(raws: Seq<RawSegment>) -> Result<Seq<Segment>, SponsorBlockError>
    decreases raws.len(),
{
    if raws.len() == 0 {
        Ok(Seq::empty())
    } else {
        match normalized_batch(raws.drop_last()) {
            Err(e) => Err(e),
            Ok(done) => match normalized(raws.last()) {
                Err(e) => Err(e),
                Ok(s) => Ok(done.push(s)),
            },
        }
    }
}

/// Validates one wire record and turns it into a segment.
pub fn normalize(raw: &RawSegment) -> (r: Result<Segment, SponsorBlockError>)
    ensures
        r == normalized(*raw),
{
    let start = raw.start;
    let end = raw.end;
    if end.less_than(&start) {
        return Err(SponsorBlockError::BadData(BadRange::StartAfterEnd { start, end }));
    }
    if start.is_negative() {
        return Err(SponsorBlockError::BadData(BadRange::NegativeStart { start }));
    }
    if end.is_negative() {
        return Err(SponsorBlockError::BadData(BadRange::NegativeEnd { end }));
    }
    let kind = match convert_segment_kind(&raw.category) {
        Ok(k) => k,
        Err(e) => return Err(e),
    };
    let action = match convert_action_type(&raw.action_type) {
        Ok(a) => a,
        Err(e) => return Err(e),
    };
    let section = TimeSection { start, end };
    let segment = match kind {
        ActionableSegmentKind::Sponsor => ActionableSegment::Sponsor(section),
        ActionableSegmentKind::UnpaidSelfPromotion => ActionableSegment::UnpaidSelfPromotion(section),
        ActionableSegmentKind::InteractionReminder => ActionableSegment::InteractionReminder(section),
        ActionableSegmentKind::Highlight => ActionableSegment::Highlight(TimePoint { point: start }),
        ActionableSegmentKind::IntermissionIntroAnimation => ActionableSegment::IntermissionIntroAnimation(section),
        ActionableSegmentKind::EndcardsCredits => ActionableSegment::EndcardsCredits(section),
        ActionableSegmentKind::PreviewRecap => ActionableSegment::PreviewRecap(section),
        ActionableSegmentKind::NonMusic => ActionableSegment::NonMusic(section),
    };
    Ok(Segment {
        segment,
        action_type: action,
        uuid: raw.uuid.clone(),
        locked: raw.locked != 0,
        votes: raw.votes,
        video_duration_upon_submission: raw.video_duration_upon_submission,
    })
}

/// A batch that has failed stays failed, with the same error, however it is
/// extended.
proof fn lemma_batch_error_persists(raws: Seq<RawSegment>, i: int)
    requires
        0 <= i <= raws.len(),
        normalized_batch(raws.subrange(0, i)) is Err,
    ensures
        normalized_batch(raws) == normalized_batch(raws.subrange(0, i)),
    decreases raws.len() - i,
{
    if i < raws.len() {
        let next = raws.subrange(0, i + 1);
        assert(next.drop_last() == raws.subrange(0, i));
        lemma_batch_error_persists(raws, i + 1);
    } else {
        assert(raws.subrange(0, i) == raws);
    }
}

/// Validates every record of a batch, in order, stopping at the first
/// failure.
pub fn normalize_all(raws: &Vec<RawSegment>) -> (r: Result<Vec<Segment>, SponsorBlockError>)
    ensures
        r matches Ok(v) ==> normalized_batch(raws@) == Ok::<Seq<Segment>, SponsorBlockError>(v@),
        r matches Err(e) ==> normalized_batch(raws@) == Err::<Seq<Segment>, SponsorBlockError>(e),
{
    let mut out: Vec<Segment> = Vec::new();
    let mut i: usize = 0;
    assert(raws@.subrange(0, 0) == Seq::<RawSegment>::empty());
    while i < raws.len()
        invariant
            i <= raws@.len(),
            normalized_batch(raws@.subrange(0, i as int)) == Ok::<Seq<Segment>, SponsorBlockError>(out@),
        decreases raws@.len() - i,
    {
        proof {
            let next = raws@.subrange(0, i + 1);
            assert(next.drop_last() == raws@.subrange(0, i as int));
            assert(next.last() == raws@[i as int]);
        }
        match normalize(&raws[i]) {
            Ok(s) => {
                out.push(s);
            },
            Err(e) => {
                proof {
                    lemma_batch_error_persists(raws@, i + 1);
                }
                return Err(e);
            },
        }
        i = i + 1;
    }
    assert(raws@.subrange(0, i as int) == raws@);
    Ok(out)
}

/// Bucket `i` belongs to the video `id`, and no earlier bucket does.
pub open spec fn is_first_match(buckets: Seq<RawHashMatch>, id: Seq<char>, i: int) -> bool {
    &&& 0 <= i < buckets.len()
    &&& buckets[i].video_id@ == id
    &&& forall|j: int| 0 <= j < i ==> buckets[j].video_id@ != id
}

/// Some bucket belongs to the video `id`.
pub open spec fn has_match(buckets: Seq<RawHashMatch>, id: Seq<char>) -> bool {
    exists|i: int| 0 <= i < buckets.len() && buckets[i].video_id@ == id
}

/// The position of the first bucket that belongs to `id` (meaningful when
/// there is one).
pub open spec fn first_match_index(buckets: Seq<RawHashMatch>, id: Seq<char>) -> int {
    choose|i: int| is_first_match(buckets, id, i)
}

/// There is at most one first match.
pub proof fn lemma_first_match_unique(buckets: Seq<RawHashMatch>, id: Seq<char>, i: int, k: int)
    requires
        is_first_match(buckets, id, i),
        is_first_match(buckets, id, k),
    ensures
        i == k,
{
    if i < k {
        assert(buckets[i].video_id@ != id);
    } else if k < i {
        assert(buckets[k].video_id@ != id);
    }
}

/// A bucket at `m` that belongs to `id` means some bucket at or before `m`
/// is the first match.
proof fn lemma_first_match_at_or_before(buckets: Seq<RawHashMatch>, id: Seq<char>, m: int)
    requires
        0 <= m < buckets.len(),
        buckets[m].video_id@ == id,
    ensures
        exists|i: int| is_first_match(buckets, id, i),
    decreases m,
{
    if exists|j: int| 0 <= j < m && buckets[j].video_id@ == id {
        let j = choose|j: int| 0 <= j < m && buckets[j].video_id@ == id;
        lemma_first_match_at_or_before(buckets, id, j);
    } else {
        assert(is_first_match(buckets, id, m));
    }
}

/// When some bucket matches, `first_match_index` is the first match.
pub proof fn lemma_first_match_exists(buckets: Seq<RawHashMatch>, id: Seq<char>)
    requires
        has_match(buckets, id),
    ensures
        is_first_match(buckets, id, first_match_index(buckets, id)),
{
    let m = choose|m: int| 0 <= m < buckets.len() && buckets[m].video_id@ == id;
    lemma_first_match_at_or_before(buckets, id, m);
}

/// Picks, out of a k-anonymous response, the segments of the first bucket
/// whose video identifier equals `video_id` exactly. A matching bucket with
/// no segments is a success; no matching bucket is an error.
pub fn select_bucket(buckets: Vec<RawHashMatch>, video_id: &str) -> (r: Result<
    Vec<RawSegment>,
    SponsorBlockError,
>)
    ensures
        r is Ok <==> has_match(buckets@, video_id@),
        r matches Ok(s) ==> s@ == buckets@[first_match_index(buckets@, video_id@)].segments@,
        r matches Err(e) ==> e == SponsorBlockError::NoMatchingVideoHash,
{
    let mut i: usize = 0;
    while i < buckets.len()
        invariant
            i <= buckets@.len(),
            forall|j: int| 0 <= j < i ==> buckets@[j].video_id@ != video_id@,
        decreases buckets@.len() - i,
    {
        if str_equals(buckets[i].video_id.as_str(), video_id) {
            proof {
                assert(is_first_match(buckets@, video_id@, i as int));
                lemma_first_match_exists(buckets@, video_id@);
                lemma_first_match_unique(
                    buckets@,
                    video_id@,
                    i as int,
                    first_match_index(buckets@, video_id@),
                );
            }
            let ghost all = buckets@;
            let mut owned = buckets;
            let bucket = owned.remove(i);
            assert(bucket == all[i as int]);
            return Ok(bucket.segments);
        }
        i = i + 1;
    }
    Err(SponsorBlockError::NoMatchingVideoHash)
}

/// What a decoded response yields for the video `id`: the normalized
/// records of a plain response; for a k-anonymous one, the normalized
/// records of the first bucket that belongs to `id`, or
/// `NoMatchingVideoHash` when none does.
pub open spec fn decoded(response: SegmentResponse, id: Seq<char>) -> Result<Seq<Segment>, SponsorBlockError> {
    match response {
        SegmentResponse::Plain(raws) => normalized_batch(raws@),
        SegmentResponse::Private(buckets) => if has_match(buckets@, id) {
            normalized_batch(buckets@[first_match_index(buckets@, id)].segments@)
        } else {
            Err(SponsorBlockError::NoMatchingVideoHash)
        },
    }
}

/// `r` is what `decoded` gives, with the segments held in a `Vec`.
pub open spec fn is_decode_result(
    response: SegmentResponse,
    id: Seq<char>,
    r: Result<Vec<Segment>, SponsorBlockError>,
) -> bool {
    match r {
        Ok(v) => decoded(response, id) == Ok::<Seq<Segment>, SponsorBlockError>(v@),
        Err(e) => decoded(response, id) == Err::<Seq<Segment>, SponsorBlockError>(e),
    }
}

/// Turns a decoded response into the segments of the video `video_id`.
pub fn decode_segments(video_id: &str, response: SegmentResponse) -> (r: Result<
    Vec<Segment>,
    SponsorBlockError,
>)
    ensures
        is_decode_result(response, video_id@, r),
{
    let raws = match response {
        SegmentResponse::Plain(raws) => raws,
        SegmentResponse::Private(buckets) => match select_bucket(buckets, video_id) {
            Ok(raws) => raws,
            Err(e) => return Err(e),
        },
    };
    normalize_all(&raws)
}

} // verus!
