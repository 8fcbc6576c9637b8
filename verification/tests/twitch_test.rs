use chat_handler::error::Error;
use chat_handler::twitch::{
    access_token, has_transcoding, playlist_query, playlist_request, token_of, token_request,
    StreamPlaybackAccessToken, CLIENT_ID, PLAYER_HIGH, PLAYER_LOW,
};

fn token(value: &str, signature: &str) -> StreamPlaybackAccessToken {
    StreamPlaybackAccessToken { value: value.to_string(), signature: signature.to_string() }
}

#[test]
fn tokens_are_requested_for_a_channel() {
    let request = token_request("my_channel");
    let template = r#"{"query": "{streamPlaybackAccessToken(channelName: \"%USER%\",params: {platform: \"web\",playerBackend: \"mediaplayer\",playerType: \"site\"}){value signature}}"}"#;
    assert_eq!(request.body, template.replace("%USER%", "my_channel"));
    assert_eq!(request.url, "https://gql.twitch.tv/gql");
    assert_eq!(request.client_id, "kimne78kx3ncx6brgo4mv6wki5h1ko");
}

#[test]
fn tokens_are_read() {
    let body = br#"{"data":{"streamPlaybackAccessToken":{"value":"{\"a\":1}","signature":"beef","more":[1]}},"extensions":{}}"#;
    assert_eq!(access_token(body), Ok(token("{\"a\":1}", "beef")));
}

#[test]
fn tokens_are_read_from_arrays() {
    let body = br#"{"data":{"streamPlaybackAccessToken":["v","s"]}}"#;
    assert_eq!(access_token(body), Ok(token("v", "s")));
    for body in [
        r#"{"data":{"streamPlaybackAccessToken":["v"]}}"#,
        r#"{"data":{"streamPlaybackAccessToken":["v","s","x"]}}"#,
        r#"{"data":{"streamPlaybackAccessToken":["v",1]}}"#,
    ] {
        assert_eq!(access_token(body.as_bytes()), Err(Error::NoAccessToken));
    }
}

#[test]
fn answers_without_a_token_are_refused() {
    for body in [
        r#"{}"#,
        r#"null"#,
        r#"[]"#,
        r#""text""#,
        r#"{"data":null}"#,
        r#"{"data":{"streamPlaybackAccessToken":null}}"#,
        r#"{"data":{"streamPlaybackAccessToken":{"value":"v"}}}"#,
        r#"{"data":{"streamPlaybackAccessToken":{"value":"v","signature":7}}}"#,
        r#"{"data":{"streamPlaybackAccessToken":{"value":null,"signature":"s"}}}"#,
        r#"{"streamPlaybackAccessToken":{"value":"v","signature":"s"}}"#,
    ] {
        assert_eq!(access_token(body.as_bytes()), Err(Error::NoAccessToken), "{}", body);
    }
}

#[test]
fn answers_that_are_no_documents_are_refused() {
    for body in ["", "{", "not json", "{\"data\":}", "{} trailing"] {
        assert_eq!(access_token(body.as_bytes()), Err(Error::InvalidJson), "{}", body);
    }
    assert_eq!(access_token(&[0xff, 0xfe]), Err(Error::InvalidJson));
}

#[test]
fn tokens_need_both_parts() {
    let part = |s: &str| Some(s.to_string());
    assert_eq!(token_of(part("v"), part("s")), Ok(token("v", "s")));
    assert_eq!(token_of(None, part("s")), Err(Error::NoAccessToken));
    assert_eq!(token_of(part("v"), None), Err(Error::NoAccessToken));
}

#[test]
fn playlists_are_requested_with_the_token() {
    let query = playlist_query(token("the value", "the signature"), 1234567);
    assert_eq!(query.allow_source, "true");
    assert_eq!(query.allow_audio_only, "true");
    assert_eq!(query.allow_spectre, "true");
    assert_eq!(query.p, 1234567);
    assert_eq!(query.player, "twitchweb");
    assert_eq!(query.playlist_include_framerate, "true");
    assert_eq!(query.segment_preference, "4");
    assert_eq!(query.sig, "the signature");
    assert_eq!(query.token, "the value");
}

#[test]
fn playlist_requests_carry_a_random_number() {
    let mut numbers: Vec<u32> = Vec::new();
    for _ in 0..50 {
        let request = playlist_request("chan", token("v", "s"));
        assert_eq!(request.url, "https://usher.ttvnw.net/api/channel/hls/chan.m3u8");
        assert_eq!(request.client_id, CLIENT_ID);
        assert!(1000000 <= request.query.p && request.query.p < 10000000);
        numbers.push(request.query.p);
    }
    assert_eq!((PLAYER_LOW, PLAYER_HIGH), (1000000, 10000000));
    numbers.dedup();
    assert!(numbers.len() > 1);
}

#[test]
fn playlists_tell_of_transcoding() {
    assert!(has_transcoding("#EXTM3U\nTRANSCODESTACK=\"2017TranscodeX264_V2\""));
    assert!(has_transcoding(""));
    assert!(!has_transcoding("x,TRANSCODESTACK=\"transmux\",y"));
    assert!(!has_transcoding("[{\"error\":\"Can not find channel\"}]"));
    assert!(!has_transcoding("[{\"error_code\":\"transcode_does_not_exist\"}]"));
}
