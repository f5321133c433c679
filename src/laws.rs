use vstd::prelude::*;
use crate::decode::{
    decoded, has_match, is_first_match, lemma_first_match_exists, lemma_first_match_unique,
    first_match_index, normalized, normalized_batch, range_check, RawHashMatch, RawSegment,
    SegmentResponse,
};
use crate::error::{BadRange, SponsorBlockError};
use crate::request::Client;
use crate::segment::{
    category_kind, category_name, ActionableSegment, ActionableSegmentKind, TimePoint, TimeSection,
};

verus! {

/// A batch that succeeds yields exactly one segment per wire record, in the
/// order of the records.
pub proof fn lemma_batch_one_per_record(raws: Seq<RawSegment>)
    ensures
        normalized_batch(raws) matches Ok(segs) ==> {
            &&& segs.len() == raws.len()
            &&& forall|i: int| 0 <= i < raws.len() ==> normalized(raws[i]) == Ok::<_, SponsorBlockError>(segs[i])
        },
    decreases raws.len(),
{
    if raws.len() > 0 {
        lemma_batch_one_per_record(raws.drop_last());
        if let Ok(segs) = normalized_batch(raws) {
            assert forall|i: int| 0 <= i < raws.len() implies normalized(raws[i]) == Ok::<_, SponsorBlockError>(segs[i]) by {
                if i < raws.len() - 1 {
                    assert(raws.drop_last()[i] == raws[i]);
                }
            }
        }
    }
}

/// A plain response that decodes yields exactly one segment per wire
/// record, in the order of the records.
pub proof fn lemma_plain_one_per_record(raws: Vec<RawSegment>, id: Seq<char>)
    ensures
        decoded(SegmentResponse::Plain(raws), id) matches Ok(segs) ==> {
            &&& segs.len() == raws@.len()
            &&& forall|i: int| 0 <= i < raws@.len() ==> normalized(raws@[i]) == Ok::<_, SponsorBlockError>(segs[i])
        },
{
    lemma_batch_one_per_record(raws@);
}

/// A batch with one record that fails fails as a whole.
pub proof fn lemma_one_failure_fails_batch(raws: Seq<RawSegment>, i: int)
    requires
        0 <= i < raws.len(),
        normalized(raws[i]) is Err,
    ensures
        normalized_batch(raws) is Err,
    decreases raws.len(),
{
    if i < raws.len() - 1 {
        assert(raws.drop_last()[i] == raws[i]);
        lemma_one_failure_fails_batch(raws.drop_last(), i);
    }
}

/// A record of the category `sponsor` becomes a sponsor segment over its
/// range, unchanged.
pub proof fn lemma_sponsor_keeps_section(raw: RawSegment)
    requires
        raw.category@ == "sponsor"@,
    ensures
        normalized(raw) matches Ok(seg) ==> seg.segment == ActionableSegment::Sponsor(
            TimeSection { start: raw.start, end: raw.end },
        ),
{
}

/// A record of the category `poi_highlight` becomes a highlight at its start;
/// its end is dropped.
pub proof fn lemma_highlight_keeps_start(raw: RawSegment)
    requires
        raw.category@ == "poi_highlight"@,
    ensures
        normalized(raw) matches Ok(seg) ==> seg.segment == ActionableSegment::Highlight(
            TimePoint { point: raw.start },
        ),
{
    reveal_strlit("sponsor");
    reveal_strlit("selfpromo");
    reveal_strlit("interaction");
    reveal_strlit("poi_highlight");
    assert(raw.category@.len() != "sponsor"@.len());
    assert(raw.category@.len() != "selfpromo"@.len());
    assert(raw.category@.len() != "interaction"@.len());
}

/// A record whose start lies after its end is rejected as bad data, and so
/// is every batch that holds it.
pub proof fn lemma_inverted_range_fails(raws: Seq<RawSegment>, i: int)
    requires
        0 <= i < raws.len(),
        raws[i].end.spec_less_than(raws[i].start),
    ensures
        normalized(raws[i]) == Err::<crate::segment::Segment, _>(
            SponsorBlockError::BadData(BadRange::StartAfterEnd { start: raws[i].start, end: raws[i].end }),
        ),
        normalized_batch(raws) is Err,
{
    lemma_one_failure_fails_batch(raws, i);
}

/// A record with a start or an end below zero is rejected as bad data.
pub proof fn lemma_negative_time_fails(raw: RawSegment)
    requires
        raw.start.spec_is_negative() || raw.end.spec_is_negative(),
    ensures
        normalized(raw) matches Err(SponsorBlockError::BadData(_)),
{
    assert(range_check(raw.start, raw.end) is Some);
}

/// A record's `locked` flag is true exactly when its wire value is not zero.
pub proof fn lemma_locked_is_nonzero(raw: RawSegment)
    ensures
        normalized(raw) matches Ok(seg) ==> seg.locked == (raw.locked != 0),
{
}

/// In a k-anonymous response where exactly one bucket belongs to the video,
/// the result is that bucket's records normalized; the other buckets play
/// no part.
pub proof fn lemma_unique_bucket_decides(buckets: Vec<RawHashMatch>, id: Seq<char>, m: int)
    requires
        0 <= m < buckets@.len(),
        buckets@[m].video_id@ == id,
        forall|j: int| 0 <= j < buckets@.len() && j != m ==> buckets@[j].video_id@ != id,
    ensures
        decoded(SegmentResponse::Private(buckets), id) == normalized_batch(buckets@[m].segments@),
{
    let b = buckets@;
    assert(has_match(b, id));
    lemma_first_match_exists(b, id);
    assert(is_first_match(b, id, m));
    lemma_first_match_unique(b, id, m, first_match_index(b, id));
}

/// In a k-anonymous response where no bucket belongs to the video, the
/// result is `NoMatchingVideoHash`, whatever the other buckets hold.
pub proof fn lemma_no_bucket_no_match(buckets: Vec<RawHashMatch>, id: Seq<char>)
    requires
        forall|j: int| 0 <= j < buckets@.len() ==> buckets@[j].video_id@ != id,
    ensures
        decoded(SegmentResponse::Private(buckets), id) == Err::<Seq<crate::segment::Segment>, _>(
            SponsorBlockError::NoMatchingVideoHash,
        ),
{
}

/// Decoding the same response for the same video twice yields the same
/// outcome: two results that both meet the decoder's contract are equal.
pub proof fn lemma_decoding_is_deterministic(
    response: SegmentResponse,
    id: Seq<char>,
    r1: Result<Vec<crate::segment::Segment>, SponsorBlockError>,
    r2: Result<Vec<crate::segment::Segment>, SponsorBlockError>,
)
    requires
        crate::decode::is_decode_result(response, id, r1),
        crate::decode::is_decode_result(response, id, r2),
    ensures
        r1 is Ok <==> r2 is Ok,
        r1 matches Ok(v1) ==> (r2 matches Ok(v2) && v1@ == v2@),
        r1 matches Err(e1) ==> (r2 matches Err(e2) && e1 == e2),
{
}

/// The `requiredSegments` parameter is in a lookup's query exactly when some
/// segment is required.
pub proof fn lemma_required_param_iff_nonempty(
    client: Client,
    video_id: &str,
    categories: Seq<ActionableSegmentKind>,
    required: Seq<Seq<char>>,
)
    ensures
        (exists|i: int|
            0 <= i < client.request_query(video_id, categories, required).len()
                && (#[trigger] client.request_query(video_id, categories, required)[i]).0
                == "requiredSegments"@) <==> required.len() > 0,
{
    reveal_strlit("requiredSegments");
    reveal_strlit("videoID");
    reveal_strlit("categories");
    reveal_strlit("service");
    let q = client.request_query(video_id, categories, required);
    if required.len() > 0 {
        assert(q[q.len() - 1].0 == "requiredSegments"@);
    } else {
        assert forall|i: int| 0 <= i < q.len() implies q[i].0 != "requiredSegments"@ by {
            assert(q[i].0.len() != "requiredSegments"@.len());
        }
    }
}

/// The name written for a kind in a lookup's `categories` parameter reads
/// back as that kind.
pub proof fn lemma_category_name_round_trip(kind: ActionableSegmentKind)
    ensures
        category_kind(category_name(kind)) == Some(kind),
{
    reveal_strlit("sponsor");
    reveal_strlit("selfpromo");
    reveal_strlit("interaction");
    reveal_strlit("poi_highlight");
    reveal_strlit("intro");
    reveal_strlit("outro");
    reveal_strlit("preview");
    reveal_strlit("music_offtopic");
    assert("sponsor"@.len() == 7 && "selfpromo"@.len() == 9 && "interaction"@.len() == 11);
    assert("poi_highlight"@.len() == 13 && "intro"@.len() == 5 && "outro"@.len() == 5);
    assert("preview"@.len() == 7 && "music_offtopic"@.len() == 14);
    assert("intro"@[0] != "outro"@[0]);
    assert("sponsor"@[0] != "preview"@[0]);
}

} // verus!
