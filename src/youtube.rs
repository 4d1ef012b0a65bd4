use vstd::prelude::*;
use vstd::string::{StrSliceExecFns, StringExecFns};

verus! {

/// The id of one video in a search answer.
#[derive(Debug, Clone, PartialEq, Eq)]
pub struct VideoId {
    pub video_id: String,
}

/// One hit of a video search.
#[derive(Debug, Clone, PartialEq, Eq)]
pub struct Video {
    pub id: VideoId,
}

/// A video search answer: its hits, best first.
#[derive(Debug, Clone, PartialEq, Eq)]
pub struct YoutubeResponse {
    pub items: Vec<Video>,
}

/// Why no playable URL came out of a play command's text.
#[derive(Debug, Clone, Copy, PartialEq, Eq, Structural)]
pub enum QueryError {
    /// The command carries no query at all.
    MissingQuery,
    /// The search service could not be asked, or did not answer.
    SearchFailed,
    /// The search found no video.
    NoResults,
}

/// What a play command asks for: a URL to play as it is, or words to
/// search for.
#[derive(Debug, Clone, PartialEq, Eq)]
pub enum TrackRequest {
    Url(String),
    Search(String),
}

/// A query that names a URL rather than search words.
pub open spec fn is_link(q: Seq<char>) -> bool {
    q.len() >= 4 && q.subrange(0, 4) == seq!['h', 't', 't', 'p']
}

/// Where a video with the given id is watched.
pub open spec fn watch_url(id: Seq<char>) -> Seq<char> {
    "https://www.youtube.com/watch?v="@ + id
}

/// The search service's request for the first videos matching `query`.
pub open spec fn search_url(query: Seq<char>, key: Seq<char>) -> Seq<char> {
    "https://youtube.googleapis.com/youtube/v3/search?q="@ + query + "&type=video&key="@ + key
}

/// Reads the request out of a command's text, whose first `skip`
/// characters are the command itself. Text no longer than `skip` holds
/// no query. A query starting with `http` is a URL; any other is searched
/// for.
pub fn parse_request(content: &str, skip: usize) -> (r: Result<TrackRequest, QueryError>)
    ensures
        content@.len() < skip ==> r == Err::<TrackRequest, QueryError>(QueryError::MissingQuery),
        content@.len() >= skip ==> {
            let q = content@.subrange(skip as int, content@.len() as int);
            if is_link(q) {
                (r matches Ok(TrackRequest::Url(u)) && u@ == q)
            } else {
                (r matches Ok(TrackRequest::Search(s)) && s@ == q)
            }
        },
{
    let n = content.unicode_len();
    if n < skip {
        return Err(QueryError::MissingQuery);
    }
    let q = content.substring_char(skip, n);
    let link = n - skip >= 4 && q.get_char(0) == 'h' && q.get_char(1) == 't' && q.get_char(2) == 't'
        && q.get_char(3) == 'p';
    assert(link == is_link(q@)) by {
        if n - skip >= 4 {
            assert(q@.subrange(0, 4) =~= seq![q@[0], q@[1], q@[2], q@[3]]);
        }
    }
    let owned = String::from_str(q);
    if link {
        Ok(TrackRequest::Url(owned))
    } else {
        Ok(TrackRequest::Search(owned))
    }
}

/// The watch URL of the best hit of a search answer; an answer without
/// hits fails with `NoResults`.
pub fn video_url(resp: &YoutubeResponse) -> (r: Result<String, QueryError>)
    ensures
        resp.items@.len() == 0 ==> r == Err::<String, QueryError>(QueryError::NoResults),
        resp.items@.len() > 0 ==> (r matches Ok(u) && u@ == watch_url(
            resp.items@[0].id.video_id@,
        )),
{
    if resp.items.len() == 0 {
        return Err(QueryError::NoResults);
    }
    let mut url = String::from_str("https://www.youtube.com/watch?v=");
    url.append(resp.items[0].id.video_id.as_str());
    Ok(url)
}

/// The request URL that searches videos for `query` with the API key `key`.
pub fn search_request_url(query: &str, key: &str) -> (r: String)
    ensures
        r@ == search_url(query@, key@),
{
    let mut url = String::from_str("https://youtube.googleapis.com/youtube/v3/search?q=");
    url.append(query);
    url.append("&type=video&key=");
    url.append(key);
    url
}

} // verus!
