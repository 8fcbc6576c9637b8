//! Whether a channel on Twitch has transcoding: what to request, and how to read the
//! answers.
use rand::Rng;
use vstd::prelude::*;

use crate::error::{Error, ErrorView};
use crate::text::{concat3, contains, maybe_text, occurs};

verus! {

/// The client that the requests are made for.
pub const CLIENT_ID: &'static str = "kimne78kx3ncx6brgo4mv6wki5h1ko";

/// Where playlists are.
pub const USHER_BASE: &'static str = "https://usher.ttvnw.net";

/// Where access tokens are.
pub const GQL_BASE: &'static str = "https://gql.twitch.tv/gql";

// JSON.
/// Declares `serde_json::Value`, a JSON value that is carried through.
#[verifier::external_type_specification]
#[verifier::external_body]
pub struct ExValue(serde_json::Value);

/// A JSON value, as far as it is read here.
pub enum Json {
    Text(Seq<char>),
    Array(Seq<Json>),
    Object(Map<Seq<char>, Json>),
    /// Null, a truth value or a number.
    Other,
}

/// What a `serde_json::Value` holds.
pub uninterp spec fn json_of(value: serde_json::Value) -> Json;

/// The JSON value that some bytes write down, if they are a document.
pub uninterp spec fn document(body: Seq<u8>) -> Option<Json>;

/// What stands under a key; no text and no array where nothing does.
pub open spec fn under(json: Json, key: Seq<char>) -> Json {
    match json {
        Json::Object(members) if members.dom().contains(key) => members[key],
        _ => Json::Other,
    }
}

/// The text that a JSON value is, if it is one.
pub open spec fn text_in(json: Json) -> Option<Seq<char>> {
    match json {
        Json::Text(s) => Some(s),
        _ => None,
    }
}

/// Calls `serde_json::from_slice` for a `serde_json::Value`. Claimed of it: whether the
/// bytes are a document, and what it holds, depend on the bytes alone.
#[verifier::external_body]
fn read_json(body: &[u8]) -> (r: Option<serde_json::Value>)
    ensures
        match r {
            Some(value) => document(body@) == Some(json_of(value)),
            None => document(body@) is None,
        },
{
    serde_json::from_slice(body).ok()
}

/// Indexes a `serde_json::Value` by a key. Claimed of it: it gives what stands under the
/// key in an object, and null where there is nothing or where the value is no object.
#[verifier::external_body]
fn member<'a>(value: &'a serde_json::Value, key: &str) -> (r: &'a serde_json::Value)
    ensures
        json_of(*r) == under(json_of(*value), key@),
{
    &value[key]
}

/// Calls `serde_json::Value::as_str`. Claimed of it: it gives the text where the value is
/// one, and nothing where it is not.
#[verifier::external_body]
fn text_of(value: &serde_json::Value) -> (r: Option<&str>)
    ensures
        match r {
            Some(s) => json_of(*value) == Json::Text(s@),
            None => !(json_of(*value) is Text),
        },
{
    value.as_str()
}

/// Calls `serde_json::Value::as_array`. Claimed of it: it gives the items where the value
/// is an array, and nothing where it is not.
#[verifier::external_body]
fn items_of(value: &serde_json::Value) -> (r: Option<&Vec<serde_json::Value>>)
    ensures
        match r {
            Some(items) => json_of(*value) == Json::Array(
                items@.map_values(|item: serde_json::Value| json_of(item)),
            ),
            None => !(json_of(*value) is Array),
        },
{
    value.as_array()
}

// Access tokens.
/// What gives access to the playlist of a channel.
#[derive(Debug, PartialEq, Eq)]
pub struct StreamPlaybackAccessToken {
    pub value: String,
    pub signature: String,
}

/// The parts of the access token that a JSON value writes down, its value and its
/// signature: under their names, or as the two items of an array.
pub open spec fn token_parts(json: Json) -> (Option<Seq<char>>, Option<Seq<char>>) {
    match json {
        Json::Array(items) => if items.len() == 2 {
            (text_in(items[0]), text_in(items[1]))
        } else {
            (None, None)
        },
        _ => (text_in(under(json, "value"@)), text_in(under(json, "signature"@))),
    }
}

/// Whether `r` is the token that has these parts; both have to be there.
pub open spec fn is_token(
    r: Result<StreamPlaybackAccessToken, Error>,
    value: Option<Seq<char>>,
    signature: Option<Seq<char>>,
) -> bool {
    match (value, signature) {
        (Some(value), Some(signature)) => r is Ok && r->Ok_0.value@ == value
            && r->Ok_0.signature@ == signature,
        _ => r is Err && r->Err_0@ == ErrorView::NoAccessToken,
    }
}

/// Makes a token of its parts.
pub fn token_of(value: Option<String>, signature: Option<String>) -> (r: Result<
    StreamPlaybackAccessToken,
    Error,
>)
    ensures
        is_token(r, maybe_text(value), maybe_text(signature)),
{
    match (value, signature) {
        (Some(value), Some(signature)) => Ok(StreamPlaybackAccessToken { value, signature }),
        _ => Err(Error::NoAccessToken),
    }
}

/// Copies the text that a JSON value is, if it is one.
fn copy_text(value: &serde_json::Value) -> (r: Option<String>)
    ensures
        maybe_text(r) == text_in(json_of(*value)),
{
    match text_of(value) {
        Some(s) => Some(s.to_owned()),
        None => None,
    }
}

/// Reads the access token out of the answer to its request.
pub fn access_token(body: &[u8]) -> (r: Result<StreamPlaybackAccessToken, Error>)
    ensures
        match document(body@) {
            Some(json) => {
                let token = token_parts(under(under(json, "data"@), "streamPlaybackAccessToken"@));
                is_token(r, token.0, token.1)
            },
            None => r is Err && r->Err_0@ == ErrorView::InvalidJson,
        },
{
    let answer = match read_json(body) {
        Some(answer) => answer,
        None => return Err(Error::InvalidJson),
    };
    let token = member(member(&answer, "data"), "streamPlaybackAccessToken");
    match items_of(token) {
        Some(items) => if items.len() == 2 {
            token_of(copy_text(&items[0]), copy_text(&items[1]))
        } else {
            token_of(None, None)
        },
        None => token_of(
            copy_text(member(token, "value")),
            copy_text(member(token, "signature")),
        ),
    }
}

/// A request for an access token.
#[derive(Debug, PartialEq, Eq)]
pub struct TokenRequest {
    pub url: String,
    pub client_id: String,
    pub body: String,
}

/// Makes the request for an access token to a channel.
pub fn token_request(channel: &str) -> (r: TokenRequest)
    ensures
        r.url@ == GQL_BASE@,
        r.client_id@ == CLIENT_ID@,
        r.body@ == TOKEN_QUERY_HEAD@ + channel@ + TOKEN_QUERY_TAIL@,
{
    TokenRequest {
        url: GQL_BASE.to_owned(),
        client_id: CLIENT_ID.to_owned(),
        body: concat3(TOKEN_QUERY_HEAD, channel, TOKEN_QUERY_TAIL),
    }
}

/// The query for an access token, up to the channel.
pub const TOKEN_QUERY_HEAD: &'static str =
    "{\"query\": \"{streamPlaybackAccessToken(channelName: \\\"";

/// The query for an access token, from behind the channel on.
pub const TOKEN_QUERY_TAIL: &'static str =
    "\\\",params: {platform: \\\"web\\\",playerBackend: \\\"mediaplayer\\\",playerType: \\\"site\\\"}){value signature}}\"}";

// Playlists.
/// The parameters of a request for a playlist.
#[derive(Debug, PartialEq, Eq)]
pub struct M3u8Query {
    pub allow_source: String,
    pub allow_audio_only: String,
    pub allow_spectre: String,
    pub p: u32,
    pub player: String,
    pub playlist_include_framerate: String,
    pub segment_preference: String,
    pub sig: String,
    pub token: String,
}

/// Whether `query` asks for a playlist with this token and number.
pub open spec fn is_query(query: M3u8Query, token: StreamPlaybackAccessToken, p: u32) -> bool {
    &&& query.allow_source@ == "true"@
    &&& query.allow_audio_only@ == "true"@
    &&& query.allow_spectre@ == "true"@
    &&& query.p == p
    &&& query.player@ == "twitchweb"@
    &&& query.playlist_include_framerate@ == "true"@
    &&& query.segment_preference@ == "4"@
    &&& query.sig@ == token.signature@
    &&& query.token@ == token.value@
}

/// Makes the parameters of a request for a playlist.
pub fn playlist_query(token: StreamPlaybackAccessToken, p: u32) -> (r: M3u8Query)
    ensures
        is_query(r, token, p),
{
    M3u8Query {
        allow_source: "true".to_owned(),
        allow_audio_only: "true".to_owned(),
        allow_spectre: "true".to_owned(),
        p,
        player: "twitchweb".to_owned(),
        playlist_include_framerate: "true".to_owned(),
        segment_preference: "4".to_owned(),
        sig: token.signature,
        token: token.value,
    }
}

/// The least number that a request for a playlist may carry.
pub const PLAYER_LOW: u32 = 1000000;

/// The number below which the number of a request for a playlist is.
pub const PLAYER_HIGH: u32 = 10000000;

/// Calls `gen_range` of the thread's generator of the crate `rand`. Claimed of it: the
/// result lies in the range, which must not be empty; chance decides where.
#[verifier::external_body]
fn random_between(low: u32, high: u32) -> (r: u32)
    requires
        low < high,
    ensures
        low <= r < high,
{
    rand::thread_rng().gen_range(low..high)
}

/// A request for a playlist.
#[derive(Debug, PartialEq, Eq)]
pub struct PlaylistRequest {
    pub url: String,
    pub client_id: String,
    pub query: M3u8Query,
}

/// Makes the request for the playlist of a channel, with a random number in it.
pub fn playlist_request(channel: &str, token: StreamPlaybackAccessToken) -> (r: PlaylistRequest)
    ensures
        r.url@ == USHER_BASE@ + "/api/channel/hls/"@ + channel@ + ".m3u8"@,
        r.client_id@ == CLIENT_ID@,
        PLAYER_LOW <= r.query.p < PLAYER_HIGH,
        is_query(r.query, token, r.query.p),
{
    PlaylistRequest {
        url: concat3(USHER_BASE, "/api/channel/hls/", channel).concat(".m3u8"),
        client_id: CLIENT_ID.to_owned(),
        query: playlist_query(token, random_between(PLAYER_LOW, PLAYER_HIGH)),
    }
}

/// Whether the answer to a request for a playlist tells of transcoding.
pub open spec fn tells_transcoding(text: Seq<char>) -> bool {
    &&& !occurs(text, "TRANSCODESTACK=\"transmux\""@)
    &&& !occurs(text, "Can not find channel"@)
    &&& !occurs(text, "transcode_does_not_exist"@)
}

/// Decides [`tells_transcoding`].
pub fn has_transcoding(text: &str) -> (r: bool)
    ensures
        r == tells_transcoding(text@),
{
    !(contains(text, "TRANSCODESTACK=\"transmux\"") || contains(text, "Can not find channel")
        || contains(text, "transcode_does_not_exist"))
}

} // verus!
