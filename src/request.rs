use vstd::prelude::*;
use crate::privacy::{hash_prefix_of, video_hash_prefix};
use crate::segment::{category_name, category_name_of, ActionableSegmentKind};
use crate::text::{append_char, append_str, string_views, to_url_array, url_array};

verus! {

/// The path of the segment lookup, below the server's base URL.
pub const SKIP_SEGMENTS_PATH: &'static str = "/skipSegments";

/// How a lookup names the video to the server.
#[derive(Clone, Copy, Debug, PartialEq, Eq, Structural)]
pub enum LookupMode {
    /// The identifier itself goes in a query parameter.
    Plain,
    /// Only the first `hash_prefix_length` hexadecimal digits of the
    /// identifier's SHA-256 digest go in the path; the server answers with
    /// every video that shares them.
    Private { hash_prefix_length: usize },
}

/// The segment categories a caller wants back.
#[derive(Clone, Debug)]
pub struct AcceptedCategories {
    pub kinds: Vec<ActionableSegmentKind>,
}

/// The service's names of a sequence of kinds.
pub open spec fn category_names(kinds: Seq<ActionableSegmentKind>) -> Seq<Seq<char>> {
    kinds.map_values(|k: ActionableSegmentKind| category_name(k))
}

impl AcceptedCategories {
    pub fn new(kinds: Vec<ActionableSegmentKind>) -> (r: AcceptedCategories)
        ensures
            r.kinds@ == kinds@,
    {
        AcceptedCategories { kinds }
    }

    /// Every kind the service knows.
    pub fn all() -> (r: AcceptedCategories)
        ensures
            r.kinds@ == seq![
                ActionableSegmentKind::Sponsor,
                ActionableSegmentKind::UnpaidSelfPromotion,
                ActionableSegmentKind::InteractionReminder,
                ActionableSegmentKind::Highlight,
                ActionableSegmentKind::IntermissionIntroAnimation,
                ActionableSegmentKind::EndcardsCredits,
                ActionableSegmentKind::PreviewRecap,
                ActionableSegmentKind::NonMusic,
            ],
    {
        let kinds = vec![
            ActionableSegmentKind::Sponsor,
            ActionableSegmentKind::UnpaidSelfPromotion,
            ActionableSegmentKind::InteractionReminder,
            ActionableSegmentKind::Highlight,
            ActionableSegmentKind::IntermissionIntroAnimation,
            ActionableSegmentKind::EndcardsCredits,
            ActionableSegmentKind::PreviewRecap,
            ActionableSegmentKind::NonMusic,
        ];
        AcceptedCategories { kinds }
    }

    /// The categories as the value of the `categories` query parameter.
    pub fn gen_url_value(&self) -> (r: String)
        ensures
            r@ == url_array(category_names(self.kinds@)),
    {
        let mut names: Vec<String> = Vec::new();
        let mut i: usize = 0;
        while i < self.kinds.len()
            invariant
                i <= self.kinds@.len(),
                string_views(names@) == category_names(self.kinds@.subrange(0, i as int)),
            decreases self.kinds@.len() - i,
        {
            let ghost before = names@;
            let name = category_name_of(self.kinds[i]).to_owned();
            names.push(name);
            proof {
                let prev = category_names(self.kinds@.subrange(0, i as int));
                let next = category_names(self.kinds@.subrange(0, i + 1));
                assert(string_views(before).len() == prev.len());
                assert forall|j: int| 0 <= j < next.len() implies #[trigger] string_views(names@)[j] == next[j] by {
                    if j < i {
                        assert(string_views(before)[j] == prev[j]);
                        assert(names@[j] == before[j]);
                    }
                }
                assert(string_views(names@) =~= next);
            }
            i = i + 1;
        }
        assert(self.kinds@.subrange(0, i as int) == self.kinds@);
        to_url_array(names.as_slice())
    }
}

/// A lookup ready to be sent: the full URL without its query, and the query
/// parameters in order.
#[derive(Clone, Debug)]
pub struct SegmentRequest {
    pub url: String,
    pub query: Vec<(String, String)>,
}

/// The names and values of a list of query parameters.
pub open spec fn query_view(query: Seq<(String, String)>) -> Seq<(Seq<char>, Seq<char>)> {
    query.map_values(|p: (String, String)| (p.0@, p.1@))
}

/// Where segments are fetched from, and how the video is named to it.
#[derive(Clone, Debug)]
pub struct Client {
    pub base_url: String,
    pub service: String,
    pub mode: LookupMode,
}

impl Client {
    /// A private lookup asks for at most the 64 digits that a digest has.
    pub open spec fn wf(&self) -> bool {
        self.mode matches LookupMode::Private { hash_prefix_length } ==> hash_prefix_length <= 64
    }

    /// A client that sends video identifiers as they are.
    pub fn new(base_url: String, service: String) -> (r: Client)
        ensures
            r.wf(),
            r.base_url == base_url,
            r.service == service,
            r.mode == LookupMode::Plain,
    {
        Client { base_url, service, mode: LookupMode::Plain }
    }

    /// A client that sends only a hash prefix of `hash_prefix_length`
    /// digits; there is none for a length over 64.
    pub fn new_private(base_url: String, service: String, hash_prefix_length: usize) -> (r: Option<Client>)
        ensures
            r is Some <==> hash_prefix_length <= 64,
            r matches Some(c) ==> c.wf() && c.base_url == base_url && c.service == service
                && c.mode == (LookupMode::Private { hash_prefix_length }),
    {
        if hash_prefix_length <= 64 {
            Some(Client { base_url, service, mode: LookupMode::Private { hash_prefix_length } })
        } else {
            None
        }
    }

    /// The URL of a lookup for `video_id`: the lookup path, followed in a
    /// private lookup by `/` and the hash prefix.
    pub open spec fn request_url(&self, video_id: &str) -> Seq<char> {
        match self.mode {
            LookupMode::Plain => self.base_url@ + SKIP_SEGMENTS_PATH@,
            LookupMode::Private { hash_prefix_length } => self.base_url@ + SKIP_SEGMENTS_PATH@
                + seq!['/'] + hash_prefix_of(video_id, hash_prefix_length as nat),
        }
    }

    /// The query of a lookup: `videoID` in a plain lookup only, then
    /// `categories` and `service`, then `requiredSegments` exactly when some
    /// segment is required.
    pub open spec fn request_query(
        &self,
        video_id: &str,
        categories: Seq<ActionableSegmentKind>,
        required: Seq<Seq<char>>,
    ) -> Seq<(Seq<char>, Seq<char>)> {
        let head = match self.mode {
            LookupMode::Plain => seq![("videoID"@, video_id@)],
            LookupMode::Private { .. } => Seq::empty(),
        };
        let common = head + seq![
            ("categories"@, url_array(category_names(categories))),
            ("service"@, self.service@),
        ];
        if required.len() > 0 {
            common.push(("requiredSegments"@, url_array(required)))
        } else {
            common
        }
    }

    /// Builds the lookup of the segments of `video_id`.
    pub fn segments_request(
        &self,
        video_id: &str,
        accepted_categories: &AcceptedCategories,
        required_segments: &[String],
    ) -> (r: SegmentRequest)
        requires
            self.wf(),
        ensures
            r.url@ == self.request_url(video_id),
            query_view(r.query@) == self.request_query(
                video_id,
                accepted_categories.kinds@,
                string_views(required_segments@),
            ),
    {
        let mut url = self.base_url.clone();
        append_str(&mut url, SKIP_SEGMENTS_PATH);
        let mut query: Vec<(String, String)> = Vec::new();
        match self.mode {
            LookupMode::Plain => {
                query.push(("videoID".to_owned(), video_id.to_owned()));
            },
            LookupMode::Private { hash_prefix_length } => {
                append_char(&mut url, '/');
                let prefix = video_hash_prefix(video_id, hash_prefix_length);
                append_str(&mut url, prefix.as_str());
            },
        }
        query.push(("categories".to_owned(), accepted_categories.gen_url_value()));
        query.push(("service".to_owned(), self.service.clone()));
        if required_segments.len() > 0 {
            query.push(("requiredSegments".to_owned(), to_url_array(required_segments)));
        }
        assert(query_view(query@) =~= self.request_query(
            video_id,
            accepted_categories.kinds@,
            string_views(required_segments@),
        ));
        SegmentRequest { url, query }
    }
}

} // verus!
