use musicbot::youtube::{
    parse_request, search_request_url, video_url, QueryError, TrackRequest, Video, VideoId,
    YoutubeResponse,
};

#[test]
fn short_command_has_no_query() {
    assert_eq!(parse_request("$play", 6), Err(QueryError::MissingQuery));
}

#[test]
fn link_is_played_as_is() {
    assert_eq!(
        parse_request("$play https://youtu.be/abc", 6),
        Ok(TrackRequest::Url("https://youtu.be/abc".to_string()))
    );
}

#[test]
fn words_are_searched() {
    assert_eq!(
        parse_request("$play never gonna", 6),
        Ok(TrackRequest::Search("never gonna".to_string()))
    );
    assert_eq!(
        parse_request("$playtop htt", 9),
        Ok(TrackRequest::Search("htt".to_string()))
    );
    assert_eq!(parse_request("$play ", 6), Ok(TrackRequest::Search(String::new())));
}

#[test]
fn best_hit_becomes_watch_url() {
    let resp = YoutubeResponse {
        items: vec![
            Video { id: VideoId { video_id: "dQw4w9WgXcQ".to_string() } },
            Video { id: VideoId { video_id: "other".to_string() } },
        ],
    };
    assert_eq!(
        video_url(&resp),
        Ok("https://www.youtube.com/watch?v=dQw4w9WgXcQ".to_string())
    );
}

#[test]
fn empty_answer_has_no_results() {
    assert_eq!(video_url(&YoutubeResponse { items: vec![] }), Err(QueryError::NoResults));
}

#[test]
fn search_url_is_built_from_query_and_key() {
    assert_eq!(
        search_request_url("lofi", "k123"),
        "https://youtube.googleapis.com/youtube/v3/search?q=lofi&type=video&key=k123"
    );
}
