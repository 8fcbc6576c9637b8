//! What holds of texts: how they are read, searched, put together and filled, and what is
//! read out of the answers of Twitch.
use vstd::prelude::*;

use crate::error::{Error, ErrorView};
use crate::phrase::{args_view, fill, filled};
use crate::settings::enabled_to_bool;
use crate::text::{
    contains, decimal, decimal_text, digits_value, is_space, join, joined, law_replaced_absent,
    lowercase, number, occurs, parse_number, replace_all, replaced, split_words, stands_at,
    strip_prefix, stripped, texts, words,
};
use crate::twitch::{
    access_token, document, has_transcoding, playlist_request, token_request, Json,
    PlaylistRequest, StreamPlaybackAccessToken, TokenRequest,
};

verus! {

// Words.
/// Whitespace of ASCII is whitespace, and is all of it in ASCII but the vertical tab.
pub proof fn law_ascii_whitespace(c: char)
    ensures
        is_space(c, true) == (is_space(c, false) && c < '\u{80}' && c != '\u{b}'),
        is_space(c, false) ==> c <= '\u{3000}',
        is_space(' ', true),
{
}

/// Whitespace before a text adds no word, and an empty text has none.
pub proof fn law_leading_whitespace(c: char, s: Seq<char>, ascii: bool)
    requires
        is_space(c, ascii),
    ensures
        words(seq![c] + s, ascii) == words(s, ascii),
        words(Seq::empty(), ascii) == Seq::<Seq<char>>::empty(),
{
    assert((seq![c] + s).drop_first() =~= s);
}

/// Splitting gives the words of the text.
pub proof fn law_splitting_gives_words(s: &str, ascii: bool, r: Vec<String>)
    requires
        call_ensures(split_words, (s, ascii), r),
    ensures
        r@.len() == words(s@, ascii).len(),
        forall|i: int| 0 <= i < r@.len() ==> (#[trigger] r@[i])@ == words(s@, ascii)[i],
{
    assert forall|i: int| 0 <= i < r@.len() implies (#[trigger] r@[i])@ == words(s@, ascii)[i] by {
        assert(texts(r@)[i] == r@[i]@);
    }
}

// Search.
/// A text that stands between two others is found there, and one that is found stands
/// between two others.
pub proof fn law_found_texts_stand_somewhere(
    a: Seq<char>,
    pattern: Seq<char>,
    b: Seq<char>,
    s: Seq<char>,
)
    ensures
        occurs(a + pattern + b, pattern),
        occurs(s, pattern) ==> exists|head: Seq<char>, tail: Seq<char>|
            s == #[trigger] (head + pattern + tail),
{
    let all = a + pattern + b;
    assert(all.subrange(a.len() as int, (a.len() + pattern.len()) as int) =~= pattern);
    assert(stands_at(all, pattern, a.len() as int));
    if occurs(s, pattern) {
        let at = choose|at: int| stands_at(s, pattern, at);
        let head = s.take(at);
        let tail = s.skip(at + pattern.len());
        assert(s =~= head + pattern + tail);
    }
}

/// Searching tells whether the text stands anywhere between two others.
pub proof fn law_searching_finds(s: &str, pattern: &str, r: bool)
    requires
        call_ensures(contains, (s, pattern), r),
    ensures
        r == exists|head: Seq<char>, tail: Seq<char>| s@ == #[trigger] (head + pattern@ + tail),
{
    law_found_texts_stand_somewhere(Seq::empty(), pattern@, Seq::empty(), s@);
    if exists|head: Seq<char>, tail: Seq<char>| s@ == #[trigger] (head + pattern@ + tail) {
        let (head, tail) = choose|head: Seq<char>, tail: Seq<char>|
            s@ == #[trigger] (head + pattern@ + tail);
        law_found_texts_stand_somewhere(head, pattern@, tail, s@);
    }
}

/// A prefix is stripped from exactly those texts that begin with it, and what is left is
/// what follows it.
pub proof fn law_prefixes_are_stripped(s: &str, prefix: &str, r: Option<String>, rest: Seq<char>)
    requires
        call_ensures(strip_prefix, (s, prefix), r),
    ensures
        s@ == prefix@ + rest ==> r is Some && r->0@ == rest,
        r is Some ==> s@ == prefix@ + r->0@,
{
    if s@ == prefix@ + rest {
        assert(s@.subrange(0, prefix@.len() as int) =~= prefix@);
        assert(s@.skip(prefix@.len() as int) =~= rest);
    }
    if r is Some {
        assert(stripped(s@, prefix@) == Some(r->0@));
        assert(s@ =~= s@.subrange(0, prefix@.len() as int) + s@.skip(prefix@.len() as int));
    }
}

// Replacement.
/// The first place of a text is replaced, and then the places behind it.
pub proof fn law_first_place_is_replaced(
    a: Seq<char>,
    from: Seq<char>,
    b: Seq<char>,
    to: Seq<char>,
)
    requires
        from.len() > 0,
        !occurs(a + from.drop_last(), from),
    ensures
        replaced(a + from + b, from, to) == a + to + replaced(b, from, to),
    decreases a.len(),
{
    let all = a + from + b;
    let n = from.len() as int;
    if a.len() == 0 {
        assert(all.subrange(0, n) =~= from);
        assert(all.skip(n) =~= b);
        assert(a + to + replaced(b, from, to) =~= to + replaced(b, from, to));
    } else {
        let before = a + from.drop_last();
        if stands_at(all, from, 0) {
            assert(before.subrange(0, n) =~= all.subrange(0, n));
            assert(stands_at(before, from, 0));
        }
        let rest = a.skip(1);
        assert forall|at: int| !stands_at(rest + from.drop_last(), from, at) by {
            if stands_at(rest + from.drop_last(), from, at) {
                assert((rest + from.drop_last()).subrange(at, at + n) =~= before.subrange(
                    at + 1,
                    at + 1 + n,
                ));
                assert(stands_at(before, from, at + 1));
            }
        }
        law_first_place_is_replaced(rest, from, b, to);
        assert(all.skip(1) =~= rest + from + b);
        assert(seq![a[0]] + (rest + to + replaced(b, from, to)) =~= a + to + replaced(b, from, to));
    }
}

/// Replacing everywhere replaces the first place, and then those behind it; and a text
/// without a place stays.
pub proof fn law_replacing_replaces(
    s: &str,
    from: &str,
    to: &str,
    r: String,
    a: Seq<char>,
    b: Seq<char>,
)
    requires
        call_ensures(replace_all, (s, from, to), r),
        from@.len() > 0,
    ensures
        s@ == a + from@ + b && !occurs(a + from@.drop_last(), from@) ==> r@ == a + to@ + replaced(
            b,
            from@,
            to@,
        ),
        !occurs(s@, from@) ==> r@ == s@,
{
    if s@ == a + from@ + b && !occurs(a + from@.drop_last(), from@) {
        law_first_place_is_replaced(a, from@, b, to@);
    }
    if !occurs(s@, from@) {
        law_replaced_absent(s@, from@, to@);
    }
}

/// A placeholder is the name of an argument in braces behind a percent sign.
pub open spec fn placeholder(name: Seq<char>) -> Seq<char> {
    seq!['%', '{'] + name + seq!['}']
}

/// Filling in one more argument puts its value in the place of its placeholder, and leaves a
/// text without it as it is; without arguments the template stays.
pub proof fn law_placeholders_are_filled(
    template: Seq<char>,
    args: Seq<(Seq<char>, Seq<char>)>,
    name: Seq<char>,
    value: Seq<char>,
    a: Seq<char>,
    b: Seq<char>,
)
    ensures
        filled(template, Seq::empty()) == template,
        !occurs(filled(template, args), placeholder(name)) ==> filled(
            template,
            args.push((name, value)),
        ) == filled(template, args),
        filled(template, args) == a + placeholder(name) + b && !occurs(
            a + placeholder(name).drop_last(),
            placeholder(name),
        ) && !occurs(b, placeholder(name)) ==> filled(template, args.push((name, value))) == a
            + value + b,
{
    reveal_strlit("%{");
    reveal_strlit("}");
    let holder = placeholder(name);
    assert("%{"@ + name + "}"@ =~= holder);
    assert(args.push((name, value)).drop_last() =~= args);
    let before = filled(template, args);
    if !occurs(before, holder) {
        law_replaced_absent(before, holder, value);
    }
    if before == a + holder + b && !occurs(a + holder.drop_last(), holder) && !occurs(b, holder) {
        law_first_place_is_replaced(a, holder, b, value);
        law_replaced_absent(b, holder, value);
    }
}

/// Filling goes by the arguments as they are given, from the first to the last.
pub proof fn law_filling_takes_all_arguments(
    template: &str,
    args: &Vec<(String, String)>,
    r: String,
)
    requires
        call_ensures(fill, (template, args), r),
    ensures
        r@ == filled(
            template@,
            Seq::new(args@.len(), |i: int| (args@[i].0@, args@[i].1@)),
        ),
{
    assert(args_view(args@) =~= Seq::new(args@.len(), |i: int| (args@[i].0@, args@[i].1@)));
}

// Lists.
/// Joining two lists joins each and puts the separator between them; a single part is
/// itself, and none is nothing.
pub proof fn law_joining_puts_a_separator_between(
    left: Seq<Seq<char>>,
    right: Seq<Seq<char>>,
    separator: Seq<char>,
    part: Seq<char>,
)
    ensures
        joined(Seq::empty(), separator) == Seq::<char>::empty(),
        joined(seq![part], separator) == part,
        left.len() > 0 && right.len() > 0 ==> joined(left + right, separator) == joined(
            left,
            separator,
        ) + separator + joined(right, separator),
    decreases right.len(),
{
    if left.len() > 0 && right.len() > 0 {
        let all = left + right;
        assert(all.last() == right.last());
        if right.len() == 1 {
            assert(all.drop_last() =~= left);
        } else {
            let before = right.drop_last();
            law_joining_puts_a_separator_between(left, before, separator, part);
            assert(all.drop_last() =~= left + before);
            assert(joined(left, separator) + separator + joined(before, separator) + separator
                + right.last() =~= joined(left, separator) + separator + (joined(before, separator)
                + separator + right.last()));
        }
    }
}

/// Joining takes the parts as they are given.
pub proof fn law_joining_takes_all_parts(parts: &Vec<String>, separator: &str, r: String)
    requires
        call_ensures(join, (parts, separator), r),
    ensures
        r@ == joined(Seq::new(parts@.len(), |i: int| parts@[i]@), separator@),
{
    assert(texts(parts@) =~= Seq::new(parts@.len(), |i: int| parts@[i]@));
}

// Numbers.
/// A number below ten is written with one numeral, and another numeral behind a number
/// stands for ten times that number and the numeral.
pub proof fn law_numbers_are_written_by_tens(n: nat, d: nat)
    requires
        d < 10,
    ensures
        decimal(d) == seq![('0' as nat + d) as char],
        n > 0 ==> decimal(10 * n + d) == decimal(n) + decimal(d),
{
    if n > 0 {
        assert((10 * n + d) / 10 == n && (10 * n + d) % 10 == d);
        assert(decimal(10 * n + d) =~= decimal(n) + decimal(d));
    }
}

/// Whether a text is one or more numerals.
pub open spec fn numerals(s: Seq<char>) -> bool {
    s.len() > 0 && forall|i: int| 0 <= i < s.len() ==> '0' <= #[trigger] s[i] <= '9'
}

proof fn lemma_numerals(s: Seq<char>)
    ensures
        digits_value(s) is Some <==> numerals(s),
    decreases s.len(),
{
    if s.len() > 0 {
        let before = s.drop_last();
        lemma_numerals(before);
        if numerals(s) {
            assert('0' <= s[s.len() - 1] <= '9');
            if s.len() > 1 {
                assert forall|i: int| 0 <= i < before.len() implies '0' <= #[trigger] before[i]
                    <= '9' by {
                    assert(before[i] == s[i]);
                }
            }
        }
        if digits_value(s) is Some {
            assert forall|i: int| 0 <= i < s.len() implies '0' <= #[trigger] s[i] <= '9' by {
                if i < s.len() - 1 {
                    assert(s[i] == before[i]);
                }
            }
        }
    }
}

/// Exactly numerals write a number, with a plus sign before them or without; each numeral
/// stands for itself, and one more behind a number makes it ten times as great.
pub proof fn law_numerals_write_numbers(s: Seq<char>, c: char)
    ensures
        number(s) is Some <==> numerals(s) || (s.len() > 0 && s[0] == '+' && numerals(s.skip(1))),
        numerals(s) ==> number(seq!['+'] + s) == number(s),
        '0' <= c <= '9' ==> number(seq![c]) == Some((c as nat - '0' as nat) as nat),
        numerals(s) && '0' <= c <= '9' ==> number(s.push(c)) == Some(
            (10 * number(s)->0 + (c as nat - '0' as nat)) as nat,
        ),
{
    lemma_numerals(s);
    if s.len() > 0 {
        lemma_numerals(s.skip(1));
    }
    assert((seq!['+'] + s).skip(1) =~= s);
    if numerals(s) {
        assert('0' <= s[0] <= '9');
        assert(s.push(c).drop_last() =~= s);
        assert(s.push(c)[0] == s[0]);
    }
}

/// A number is read from exactly those texts that write one of at most the given size.
pub proof fn law_reading_keeps_to_its_limit(s: &str, max: u64, r: Option<u64>)
    requires
        call_ensures(parse_number, (s, max), r),
    ensures
        r is Some <==> number(s@) is Some && number(s@)->0 <= max,
        r is Some ==> number(s@) == Some(r->0 as nat),
{
}

/// Writing a number writes it by tens.
pub proof fn law_writing_writes(n: u64, r: String)
    requires
        call_ensures(decimal_text, (n,), r),
    ensures
        r@ == decimal(n as nat),
        number(r@) == Some(n as nat),
{
    crate::text::law_decimal_reads_back(n as nat);
}

/// A word in lower case is read as on or off exactly where it is one of these two.
pub proof fn law_on_and_off_are_read(word: &str, r: Result<bool, Error>)
    requires
        call_ensures(enabled_to_bool, (word,), r),
    ensures
        r == Ok::<bool, Error>(true) <==> lowercase(word@) == "on"@,
        r == Ok::<bool, Error>(false) <==> lowercase(word@) == "off"@,
        r is Err ==> r->Err_0@ == ErrorView::EnabledToBoolConversionError,
{
    reveal_strlit("on");
    reveal_strlit("off");
    assert("on"@.len() != "off"@.len());
}

// The answers of Twitch.
/// The three texts by which Twitch tells that there is no transcoding.
pub open spec fn is_marker(marker: Seq<char>) -> bool {
    ||| marker == "TRANSCODESTACK=\"transmux\""@
    ||| marker == "Can not find channel"@
    ||| marker == "transcode_does_not_exist"@
}

/// An answer in which one of the markers stands, anywhere, tells that there is no
/// transcoding.
pub proof fn law_markers_deny_transcoding(
    answer: &str,
    r: bool,
    a: Seq<char>,
    marker: Seq<char>,
    b: Seq<char>,
)
    requires
        call_ensures(has_transcoding, (answer,), r),
        is_marker(marker),
        answer@ == a + marker + b,
    ensures
        !r,
{
    law_found_texts_stand_somewhere(a, marker, b, answer@);
}

/// An answer in which none of the markers stands tells that there is transcoding.
pub proof fn law_other_answers_tell_transcoding(answer: &str, r: bool)
    requires
        call_ensures(has_transcoding, (answer,), r),
        forall|a: Seq<char>, marker: Seq<char>, b: Seq<char>|
            is_marker(marker) ==> answer@ != #[trigger] (a + marker + b),
    ensures
        r,
{
    let none = Seq::<char>::empty();
    law_found_texts_stand_somewhere(none, "TRANSCODESTACK=\"transmux\""@, none, answer@);
    law_found_texts_stand_somewhere(none, "Can not find channel"@, none, answer@);
    law_found_texts_stand_somewhere(none, "transcode_does_not_exist"@, none, answer@);
}

/// A member of an object.
pub open spec fn has_member(json: Json, key: Seq<char>, value: Json) -> bool {
    json is Object && json->Object_0.dom().contains(key) && json->Object_0[key] == value
}

/// Whether a JSON value writes down a token of these parts: under their names, or as two
/// items.
pub open spec fn writes_token(json: Json, value: Seq<char>, signature: Seq<char>) -> bool {
    ||| has_member(json, "value"@, Json::Text(value)) && has_member(
        json,
        "signature"@,
        Json::Text(signature),
    )
    ||| json == Json::Array(seq![Json::Text(value), Json::Text(signature)])
}

/// Whether a document holds a token of these parts in its place.
pub open spec fn holds_token(
    json: Json,
    data: Json,
    token: Json,
    value: Seq<char>,
    signature: Seq<char>,
) -> bool {
    &&& has_member(json, "data"@, data)
    &&& has_member(data, "streamPlaybackAccessToken"@, token)
    &&& writes_token(token, value, signature)
}

/// The token that a document holds is read; and what is read as one, the document holds.
pub proof fn law_tokens_are_read(
    body: &[u8],
    r: Result<StreamPlaybackAccessToken, Error>,
    data: Json,
    token: Json,
    value: Seq<char>,
    signature: Seq<char>,
)
    requires
        call_ensures(access_token, (body,), r),
    ensures
        document(body@) is None ==> r is Err && r->Err_0@ == ErrorView::InvalidJson,
        document(body@) is Some && holds_token(
            document(body@)->0,
            data,
            token,
            value,
            signature,
        ) ==> r is Ok && r->Ok_0.value@ == value && r->Ok_0.signature@ == signature,
        r is Ok ==> document(body@) is Some && exists|data: Json, token: Json| #[trigger]
            holds_token(
                document(body@)->0,
                data,
                token,
                r->Ok_0.value@,
                r->Ok_0.signature@,
            ),
        document(body@) is Some && r is Err ==> r->Err_0@ == ErrorView::NoAccessToken,
{
    if document(body@) is Some {
        let json = document(body@)->0;
        if r is Ok {
            let inner = json->Object_0["data"@];
            let found = inner->Object_0["streamPlaybackAccessToken"@];
            if found is Array {
                assert(found->Array_0 =~= seq![
                    Json::Text(r->Ok_0.value@),
                    Json::Text(r->Ok_0.signature@),
                ]);
            }
            assert(holds_token(json, inner, found, r->Ok_0.value@, r->Ok_0.signature@));
        }
    }
}

/// A token is requested for the channel, and for nothing else that varies.
pub proof fn law_tokens_are_requested(channel: &str, r: TokenRequest)
    requires
        call_ensures(token_request, (channel,), r),
    ensures
        r.url@ == "https://gql.twitch.tv/gql"@,
        r.client_id@ == "kimne78kx3ncx6brgo4mv6wki5h1ko"@,
        r.body@ == "{\"query\": \"{streamPlaybackAccessToken(channelName: \\\""@ + channel@
            + "\\\",params: {platform: \\\"web\\\",playerBackend: \\\"mediaplayer\\\",playerType: \\\"site\\\"}){value signature}}\"}"@,
{
}

/// A playlist is requested for the channel, with the parts of the token in their places and
/// a number of seven digits.
pub proof fn law_playlists_are_requested(
    channel: &str,
    token: StreamPlaybackAccessToken,
    r: PlaylistRequest,
)
    requires
        call_ensures(playlist_request, (channel, token), r),
    ensures
        r.url@ == "https://usher.ttvnw.net"@ + "/api/channel/hls/"@ + channel@ + ".m3u8"@,
        r.client_id@ == "kimne78kx3ncx6brgo4mv6wki5h1ko"@,
        r.query.sig@ == token.signature@,
        r.query.token@ == token.value@,
        1000000 <= r.query.p < 10000000,
        r.query.allow_source@ == "true"@,
        r.query.allow_audio_only@ == "true"@,
        r.query.allow_spectre@ == "true"@,
        r.query.player@ == "twitchweb"@,
        r.query.playlist_include_framerate@ == "true"@,
        r.query.segment_preference@ == "4"@,
{
}

} // verus!
