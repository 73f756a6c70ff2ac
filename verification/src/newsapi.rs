//! The article-fetch client: endpoint configuration, the fetched article
//! record, URL preparation, and the assembly of a fetch outcome from what
//! the transport hands back. The network round-trip itself is the caller's:
//! it feeds its result to [`outcome_from_fetch`], which is verified for
//! every value the transport can produce.

use vstd::prelude::*;

use crate::coordinator::FetchOutcome;
use crate::headlines::NewsCardData;

verus! {

/// Why a single fetch cycle failed. Each failure is terminal for that cycle
/// only: the worker reports it and waits for the next command.
#[derive(Clone, Copy, Debug, PartialEq, Eq, Structural)]
pub enum FetchError {
    /// The network call could not complete.
    Transport,
    /// A response arrived but could not be parsed into article records.
    Protocol,
    /// The endpoint URL itself is malformed; detected before any network call.
    Configuration,
}

/// One article as fetched from the remote endpoint.
#[derive(Debug)]
pub struct Article {
    pub title: String,
    pub content: String,
    pub source: String,
}

impl Article {
    /// The article's title.
    pub fn title(&self) -> (r: &str)
        ensures
            r@ == self.title@,
    {
        self.title.as_str()
    }

    /// The article's body text.
    pub fn content(&self) -> (r: &str)
        ensures
            r@ == self.content@,
    {
        self.content.as_str()
    }

    /// Where the article came from.
    pub fn source(&self) -> (r: &str)
        ensures
            r@ == self.source@,
    {
        self.source.as_str()
    }
}

/// Which resource to fetch.
#[derive(Clone, Copy, Debug, PartialEq, Eq, Structural)]
pub enum Endpoint {
    TopHeadlines,
}

impl Endpoint {
    /// The URL path segment this endpoint lives under.
    pub open spec fn spec_segment(self) -> Seq<char> {
        match self {
            Endpoint::TopHeadlines => "articles"@,
        }
    }

    /// The URL path segment this endpoint lives under.
    pub fn segment(&self) -> (r: String)
        ensures
            r@ == self.spec_segment(),
    {
        match self {
            Endpoint::TopHeadlines => "articles".to_owned(),
        }
    }
}

/// Which region's headlines to fetch.
#[derive(Clone, Copy, Debug, PartialEq, Eq, Structural)]
pub enum Country {
    Us,
}

impl Country {
    /// The region code.
    pub open spec fn spec_code(self) -> Seq<char> {
        match self {
            Country::Us => "us"@,
        }
    }

    /// The region code.
    pub fn code(&self) -> (r: String)
        ensures
            r@ == self.spec_code(),
    {
        match self {
            Country::Us => "us".to_owned(),
        }
    }
}

/// The base URL the client is configured against.
pub const BASE_URL: &'static str = "http://localhost:8080";

/// The base URL, as the contracts speak of it.
pub open spec fn spec_base_url() -> Seq<char> {
    "http://localhost:8080"@
}

/// Whether a base string parses as an absolute URL that can carry path
/// segments; decided by the `url` crate.
pub uninterp spec fn url_wellformed(base: Seq<char>) -> bool;

/// The serialization the `url` crate gives a parsed base with one path
/// segment appended.
pub uninterp spec fn url_joined(base: Seq<char>, segment: Seq<char>) -> Seq<char>;

/// Relies on url::Url::parse, Url::path_segments_mut with
/// PathSegmentsMut::push, and Url::as_str: parses the base, appends one
/// percent-encoded path segment, and renders the result. Returns None
/// exactly when the base does not parse as an absolute URL that can carry
/// path segments; the result is a function of the two arguments alone.
#[verifier::external_body]
fn join_base_and_segment(base: &str, segment: &str) -> (r: Option<String>)
    ensures
        r is Some <==> url_wellformed(base@),
        r matches Some(joined) ==> joined@ == url_joined(base@, segment@),
{
    let mut url = match url::Url::parse(base) {
        Ok(url) => url,
        Err(_) => return None,
    };
    match url.path_segments_mut() {
        Ok(mut segments) => {
            segments.push(segment);
        },
        Err(()) => return None,
    }
    Some(url.as_str().to_owned())
}

/// The fixed configuration of the fetch client: which endpoint and region
/// one call targets.
#[derive(Clone, Copy, Debug, PartialEq, Eq, Structural)]
pub struct NewsAPI {
    pub endpoint: Endpoint,
    pub country: Country,
}

impl NewsAPI {
    /// The default client: top headlines for the US region.
    pub fn new() -> (api: NewsAPI)
        ensures
            api.endpoint == Endpoint::TopHeadlines,
            api.country == Country::Us,
    {
        NewsAPI { endpoint: Endpoint::TopHeadlines, country: Country::Us }
    }

    /// Choose the endpoint; chainable.
    pub fn endpoint(&mut self, endpoint: Endpoint) -> (r: &mut NewsAPI)
        ensures
            *r == (NewsAPI { endpoint, country: old(self).country }),
            *final(self) == *final(r),
    {
        self.endpoint = endpoint;
        self
    }

    /// Choose the region; chainable.
    pub fn country(&mut self, country: Country) -> (r: &mut NewsAPI)
        ensures
            *r == (NewsAPI { endpoint: old(self).endpoint, country }),
            *final(self) == *final(r),
    {
        self.country = country;
        self
    }

    /// The URL one fetch will target: the configured base with the
    /// endpoint's path segment appended. Fails — with the configuration
    /// error, before any network call would be made — exactly when the base
    /// does not parse as an absolute URL.
    pub fn prepare_url(&self) -> (r: Result<String, FetchError>)
        ensures
            r is Ok <==> url_wellformed(spec_base_url()),
            r matches Ok(joined) ==> joined@ == url_joined(
                spec_base_url(),
                self.endpoint.spec_segment(),
            ),
            r matches Err(e) ==> e == FetchError::Configuration,
    {
        let segment = self.endpoint.segment();
        match join_base_and_segment(BASE_URL, segment.as_str()) {
            Some(joined) => Ok(joined),
            None => Err(FetchError::Configuration),
        }
    }
}

/// How one display card relates to the article it was built from: the title
/// and source carry over, and both the description and the link are the
/// article's content — the link is synthesized from the content field, a
/// known quirk of this system, not a protocol requirement.
pub open spec fn card_matches(card: NewsCardData, article: Article) -> bool {
    &&& card.title@ == article.title@
    &&& card.desc@ == article.content@
    &&& card.url@ == article.content@
    &&& card.source@ == article.source@
}

/// Wrap what one executed fetch produced as the outcome delivered through
/// the result channel: the parsed articles become display cards in response
/// order, and an error passes through unchanged. Verified for every value
/// the transport can hand back.
pub fn outcome_from_fetch(result: Result<Vec<Article>, FetchError>) -> (outcome: FetchOutcome)
    ensures
        result matches Ok(articles) ==> outcome matches FetchOutcome::Success(cards) && cards@.len()
            == articles@.len() && (forall|i: int|
            0 <= i < articles@.len() ==> card_matches(#[trigger] cards@[i], articles@[i])),
        result matches Err(e) ==> outcome == FetchOutcome::Failure(e),
{
    match result {
        Ok(articles) => {
            let mut cards: Vec<NewsCardData> = Vec::new();
            let mut i: usize = 0;
            while i < articles.len()
                invariant
                    i <= articles.len(),
                    cards@.len() == i as int,
                    forall|j: int| 0 <= j < i ==> card_matches(#[trigger] cards@[j], articles@[j]),
                decreases articles.len() - i,
            {
                let article = &articles[i];
                cards.push(
                    NewsCardData {
                        title: article.title.clone(),
                        desc: article.content.clone(),
                        url: article.content.clone(),
                        source: article.source.clone(),
                    },
                );
                i = i + 1;
            }
            FetchOutcome::Success(cards)
        },
        Err(e) => FetchOutcome::Failure(e),
    }
}

} // verus!
