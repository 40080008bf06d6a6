//! The outbound half of the frame codec: every frame this side sends is
//! JSON text built here, character by character, against a specification
//! of the exact rendering.
//!
//! Embedded strings are escaped as JSON asks: quote and backslash behind
//! a backslash, control characters as four-digit escapes, and every other
//! character as itself.

use vstd::prelude::*;

use crate::event::{IdentifyPayload, UpdateVoiceStatePayload};
use crate::ids::{ChannelId, ServerId};
use crate::live::{status_keyword, Game, GameType, OnlineStatus};
use crate::text::{dec_string, u64_to_dec};

verus! {

/// Whether a character may stand in a JSON string without escaping.
pub open spec fn plain_char(c: char) -> bool {
    c != '"' && c != '\\' && c as int >= 32
}

/// The character for one hexadecimal digit value, lower case.
pub open spec fn hex_char(d: int) -> char {
    if d < 10 {
        crate::text::digit_char(d)
    } else if d == 10 {
        'a'
    } else if d == 11 {
        'b'
    } else if d == 12 {
        'c'
    } else if d == 13 {
        'd'
    } else if d == 14 {
        'e'
    } else {
        'f'
    }
}

/// How one character stands in a JSON string: quote and backslash behind
/// a backslash, control characters as four-digit escapes, anything else
/// as itself.
pub open spec fn escape_char(c: char) -> Seq<char> {
    if c == '"' {
        seq!['\\', '"']
    } else if c == '\\' {
        seq!['\\', '\\']
    } else if (c as int) < 32 {
        seq!['\\', 'u', '0', '0', hex_char((c as int) / 16), hex_char((c as int) % 16)]
    } else {
        seq![c]
    }
}

/// A string's characters, each as it stands in a JSON string.
pub open spec fn escaped(s: Seq<char>) -> Seq<char>
    decreases s.len(),
{
    if s.len() == 0 {
        Seq::empty()
    } else {
        escaped(s.drop_last()) + escape_char(s.last())
    }
}

/// A string embedded in JSON quotes, escaped.
pub open spec fn quoted(s: Seq<char>) -> Seq<char> {
    "\""@ + escaped(s) + "\""@
}

/// One more character extends the escaped rendering by its escape.
proof fn lemma_escaped_take_step(s: Seq<char>, i: int)
    requires
        0 <= i < s.len(),
    ensures
        escaped(s.take(i + 1)) == escaped(s.take(i)) + escape_char(s[i]),
{
    assert(s.take(i + 1).drop_last() =~= s.take(i));
    assert(s.take(i + 1).last() == s[i]);
}

/// A run of plain characters escapes to itself.
proof fn lemma_escaped_plain_run(s: Seq<char>, i: int, j: int)
    requires
        0 <= i <= j <= s.len(),
        forall|k: int| i <= k < j ==> plain_char(#[trigger] s[k]),
    ensures
        escaped(s.take(j)) == escaped(s.take(i)) + s.subrange(i, j),
    decreases j - i,
{
    if j == i {
        assert(escaped(s.take(j)) =~= escaped(s.take(i)) + s.subrange(i, j));
    } else {
        lemma_escaped_plain_run(s, i, j - 1);
        lemma_escaped_take_step(s, j - 1);
        assert(escape_char(s[j - 1]) == seq![s[j - 1]]);
        assert(escaped(s.take(i)) + s.subrange(i, j - 1) + seq![s[j - 1]] =~= escaped(s.take(i))
            + s.subrange(i, j));
    }
}

/// A one-character string slice for a hexadecimal digit value.
fn hex_str(d: u32) -> (r: &'static str)
    requires
        d < 16,
    ensures
        r@ == seq![hex_char(d as int)],
{
    proof {
        reveal_strlit("0");
        reveal_strlit("1");
        reveal_strlit("2");
        reveal_strlit("3");
        reveal_strlit("4");
        reveal_strlit("5");
        reveal_strlit("6");
        reveal_strlit("7");
        reveal_strlit("8");
        reveal_strlit("9");
        reveal_strlit("a");
        reveal_strlit("b");
        reveal_strlit("c");
        reveal_strlit("d");
        reveal_strlit("e");
        reveal_strlit("f");
    }
    match d {
        0 => "0",
        1 => "1",
        2 => "2",
        3 => "3",
        4 => "4",
        5 => "5",
        6 => "6",
        7 => "7",
        8 => "8",
        9 => "9",
        10 => "a",
        11 => "b",
        12 => "c",
        13 => "d",
        14 => "e",
        _ => "f",
    }
}

/// Append a string with every character escaped as JSON asks.
fn append_escaped(out: &mut String, s: &str)
    ensures
        final(out)@ == old(out)@ + escaped(s@),
{
    proof {
        assert(s@.take(0) =~= Seq::<char>::empty());
    }
    let n = s.unicode_len();
    let mut i: usize = 0;
    while i < n
        invariant
            n == s@.len(),
            0 <= i <= n,
            out@ == old(out)@ + escaped(s@.take(i as int)),
        decreases n - i,
    {
        let c = s.get_char(i);
        proof {
            lemma_escaped_take_step(s@, i as int);
        }
        if c == '"' {
            proof {
                reveal_strlit("\\\"");
                assert(escape_char(c) =~= "\\\""@);
            }
            out.append("\\\"");
            i = i + 1;
        } else if c == '\\' {
            proof {
                reveal_strlit("\\\\");
                assert(escape_char(c) =~= "\\\\"@);
            }
            out.append("\\\\");
            i = i + 1;
        } else if (c as u32) < 32 {
            let v = c as u32;
            proof {
                reveal_strlit("\\u00");
                assert(escape_char(c) =~= "\\u00"@ + seq![hex_char((v / 16) as int)] + seq![
                    hex_char((v % 16) as int),
                ]);
            }
            out.append("\\u00");
            out.append(hex_str(v / 16));
            out.append(hex_str(v % 16));
            proof {
                assert(out@ =~= old(out)@ + escaped(s@.take(i as int)) + escape_char(c));
            }
            i = i + 1;
        } else {
            let mut j = i + 1;
            while j < n && plain(s.get_char(j))
                invariant
                    n == s@.len(),
                    i < j <= n,
                    plain_char(s@[i as int]),
                    forall|k: int| i < k < j ==> plain_char(#[trigger] s@[k]),
                decreases n - j,
            {
                j = j + 1;
            }
            let run = s.substring_char(i, j);
            proof {
                lemma_escaped_plain_run(s@, i as int, j as int);
            }
            out.append(run);
            i = j;
        }
    }
    proof {
        assert(s@.take(n as int) =~= s@);
    }
}

/// Whether a character may stand in a JSON string as itself.
fn plain(c: char) -> (r: bool)
    ensures
        r == plain_char(c),
{
    c != '"' && c != '\\' && (c as u32) >= 32
}

/// Append a string in JSON quotes, escaped.
fn append_quoted(out: &mut String, s: &str)
    ensures
        final(out)@ == old(out)@ + quoted(s@),
{
    proof {
        reveal_strlit("\"");
    }
    out.append("\"");
    append_escaped(out, s);
    out.append("\"");
}

/// The keyword a JSON boolean renders as.
pub open spec fn bool_string(b: bool) -> Seq<char> {
    if b {
        "true"@
    } else {
        "false"@
    }
}

/// Append the JSON rendering of a boolean.
fn append_bool(out: &mut String, b: bool)
    ensures
        final(out)@ == old(out)@ + bool_string(b),
{
    proof {
        reveal_strlit("true");
        reveal_strlit("false");
    }
    if b {
        out.append("true");
    } else {
        out.append("false");
    }
}

/// Append the decimal rendering of a number.
fn append_u64(out: &mut String, n: u64)
    ensures
        final(out)@ == old(out)@ + dec_string(n as int),
{
    let digits = u64_to_dec(n);
    out.append(digits.as_str());
}

// Heartbeat

/// The heartbeat frame: the last observed sequence number, or `null` before
/// the first dispatch arrived.
pub open spec fn heartbeat_json(sequence: Option<u64>) -> Seq<char> {
    "{\"op\":1,\"d\":"@ + (match sequence {
        Some(n) => dec_string(n as int),
        None => "null"@,
    }) + "}"@
}

/// Build the heartbeat frame.
pub fn heartbeat_frame(sequence: Option<u64>) -> (r: String)
    ensures
        r@ == heartbeat_json(sequence),
{
    proof {
        reveal_strlit("{\"op\":1,\"d\":");
        reveal_strlit("null");
        reveal_strlit("}");
    }
    let mut out = String::from_str("{\"op\":1,\"d\":");
    match sequence {
        Some(n) => append_u64(&mut out, n),
        None => out.append("null"),
    }
    out.append("}");
    out
}

// Resume

/// The resume frame: the last observed sequence number, the bearer token
/// and the session to reattach to.
pub open spec fn resume_json(token: Seq<char>, session_id: Seq<char>, sequence: u64) -> Seq<
    char,
> {
    "{\"op\":6,\"d\":{\"seq\":"@ + dec_string(sequence as int) + ",\"token\":"@ + quoted(token)
        + ",\"session_id\":"@ + quoted(session_id) + "}}"@
}

/// Build the resume frame.
pub fn resume_frame(token: &str, session_id: &str, sequence: u64) -> (r: String)
    ensures
        r@ == resume_json(token@, session_id@, sequence),
{
    proof {
        reveal_strlit("{\"op\":6,\"d\":{\"seq\":");
        reveal_strlit(",\"token\":");
        reveal_strlit(",\"session_id\":");
        reveal_strlit("}}");
    }
    let mut out = String::from_str("{\"op\":6,\"d\":{\"seq\":");
    append_u64(&mut out, sequence);
    out.append(",\"token\":");
    append_quoted(&mut out, token);
    out.append(",\"session_id\":");
    append_quoted(&mut out, session_id);
    out.append("}}");
    out
}

// Identify

/// The member-list threshold the identify frame asks for: the payload's
/// own when set, a default of 250 otherwise.
pub open spec fn identify_threshold(p: IdentifyPayload) -> u64 {
    match p.large_threshold {
        Some(n) => n,
        None => 250,
    }
}

/// Whether the identify frame announces compression support; on by default.
pub open spec fn identify_compress(p: IdentifyPayload) -> bool {
    match p.compress {
        Some(b) => b,
        None => true,
    }
}

/// The shard clause of the identify frame: absent without sharding.
pub open spec fn shard_json(shard: Option<(u8, u8)>) -> Seq<char> {
    match shard {
        Some(s) => ",\"shard\":["@ + dec_string(s.0 as int) + ","@ + dec_string(s.1 as int)
            + "]"@,
        None => Seq::empty(),
    }
}

/// The intents clause of the identify frame: absent when no intents were
/// chosen.
pub open spec fn intents_json(intents: Option<u64>) -> Seq<char> {
    match intents {
        Some(n) => ",\"intents\":"@ + dec_string(n as int),
        None => Seq::empty(),
    }
}

/// The identify frame: the token, the client fingerprint, the fixed
/// handshake options, and the optional shard and intent choices.
pub open spec fn identify_json(p: IdentifyPayload) -> Seq<char> {
    "{\"op\":2,\"d\":{\"token\":"@ + quoted(p.token@) + ",\"properties\":{\"$os\":"@ + quoted(
        p.fingerprint.os@,
    ) + ",\"$browser\":"@ + quoted(p.fingerprint.browser@) + ",\"$device\":"@ + quoted(
        p.fingerprint.device@,
    ) + ",\"$referring_domain\":\"\",\"$referrer\":\"\"},\"large_threshold\":"@ + dec_string(
        identify_threshold(p) as int,
    ) + ",\"compress\":"@ + bool_string(identify_compress(p)) + ",\"v\":6"@ + shard_json(p.shard)
        + intents_json(p.intents) + "}}"@
}

/// Build the identify frame.
pub fn identify_frame(p: &IdentifyPayload) -> (r: String)
    ensures
        r@ == identify_json(*p),
{
    proof {
        reveal_strlit("{\"op\":2,\"d\":{\"token\":");
        reveal_strlit(",\"properties\":{\"$os\":");
        reveal_strlit(",\"$browser\":");
        reveal_strlit(",\"$device\":");
        reveal_strlit(",\"$referring_domain\":\"\",\"$referrer\":\"\"},\"large_threshold\":");
        reveal_strlit(",\"compress\":");
        reveal_strlit(",\"v\":6");
        reveal_strlit(",\"shard\":[");
        reveal_strlit(",");
        reveal_strlit("]");
        reveal_strlit(",\"intents\":");
        reveal_strlit("}}");
    }
    let mut out = String::from_str("{\"op\":2,\"d\":{\"token\":");
    append_quoted(&mut out, text_of(&p.token));
    out.append(",\"properties\":{\"$os\":");
    append_quoted(&mut out, text_of(&p.fingerprint.os));
    out.append(",\"$browser\":");
    append_quoted(&mut out, text_of(&p.fingerprint.browser));
    out.append(",\"$device\":");
    append_quoted(&mut out, text_of(&p.fingerprint.device));
    out.append(",\"$referring_domain\":\"\",\"$referrer\":\"\"},\"large_threshold\":");
    let threshold = match p.large_threshold {
        Some(n) => n,
        None => 250,
    };
    append_u64(&mut out, threshold);
    out.append(",\"compress\":");
    let compress = match p.compress {
        Some(b) => b,
        None => true,
    };
    append_bool(&mut out, compress);
    out.append(",\"v\":6");
    if let Some(shard) = p.shard {
        out.append(",\"shard\":[");
        append_u64(&mut out, shard.0 as u64);
        out.append(",");
        append_u64(&mut out, shard.1 as u64);
        out.append("]");
    }
    if let Some(intents) = p.intents {
        out.append(",\"intents\":");
        append_u64(&mut out, intents);
    }
    out.append("}}");
    out
}

/// Borrow a string's text.
fn text_of(s: &String) -> (r: &str)
    ensures
        r@ == s@,
{
    s.as_str()
}

// Presence

/// The status a presence update reports: `offline` cannot be requested and
/// is coerced to `invisible`.
pub open spec fn effective_status(status: OnlineStatus) -> OnlineStatus {
    if status == OnlineStatus::Offline {
        OnlineStatus::Invisible
    } else {
        status
    }
}

/// The game clause of a presence update: a streamed game carries its URL,
/// any other game only its name, and no game renders as `null`.
pub open spec fn game_json(game: Option<Game>) -> Seq<char> {
    match game {
        Some(g) => if g.kind == GameType::Streaming && g.url is Some {
            "{\"type\":1,\"url\":"@ + quoted(g.url->0@) + ",\"name\":"@ + quoted(g.name@) + "}"@
        } else {
            "{\"name\":"@ + quoted(g.name@) + ",\"type\":0}"@
        },
        None => "null"@,
    }
}

/// The presence update frame.
pub open spec fn presence_json(game: Option<Game>, status: OnlineStatus, afk: bool) -> Seq<
    char,
> {
    "{\"op\":3,\"d\":{\"afk\":"@ + bool_string(afk) + ",\"since\":0,\"status\":"@ + quoted(
        status_keyword(effective_status(status)),
    ) + ",\"game\":"@ + game_json(game) + "}}"@
}

/// Build the presence update frame.
pub fn presence_frame(game: &Option<Game>, status: OnlineStatus, afk: bool) -> (r: String)
    ensures
        r@ == presence_json(*game, status, afk),
{
    proof {
        reveal_strlit("{\"op\":3,\"d\":{\"afk\":");
        reveal_strlit(",\"since\":0,\"status\":");
        reveal_strlit(",\"game\":");
        reveal_strlit("null");
        reveal_strlit("{\"type\":1,\"url\":");
        reveal_strlit(",\"name\":");
        reveal_strlit("}");
        reveal_strlit("{\"name\":");
        reveal_strlit(",\"type\":0}");
        reveal_strlit("}}");
    }
    let mut out = String::from_str("{\"op\":3,\"d\":{\"afk\":");
    append_bool(&mut out, afk);
    out.append(",\"since\":0,\"status\":");
    let status = match status {
        OnlineStatus::Offline => OnlineStatus::Invisible,
        other => other,
    };
    append_quoted(&mut out, status.keyword());
    out.append(",\"game\":");
    match game {
        None => out.append("null"),
        Some(g) => {
            let streaming = match (&g.kind, &g.url) {
                (GameType::Streaming, Some(_)) => true,
                _ => false,
            };
            if streaming {
                out.append("{\"type\":1,\"url\":");
                let url = match &g.url {
                    Some(u) => text_of(u),
                    None => "",
                };
                append_quoted(&mut out, url);
                out.append(",\"name\":");
                append_quoted(&mut out, text_of(&g.name));
                out.append("}");
            } else {
                out.append("{\"name\":");
                append_quoted(&mut out, text_of(&g.name));
                out.append(",\"type\":0}");
            }
        },
    }
    out.append("}}");
    out
}

// Voice state

/// The voice-state update frame.
pub open spec fn voice_state_json(p: UpdateVoiceStatePayload) -> Seq<char> {
    "{\"op\":4,\"d\":{\"guild_id\":"@ + dec_string(p.guild_id.0 as int) + ",\"channel_id\":"@ + (
    match p.channel_id {
        Some(c) => dec_string(c.0 as int),
        None => "null"@,
    }) + ",\"self_mute\":"@ + bool_string(p.self_mute) + ",\"self_deaf\":"@ + bool_string(
        p.self_deaf,
    ) + "}}"@
}

/// Build the voice-state update frame.
pub fn voice_state_frame(p: &UpdateVoiceStatePayload) -> (r: String)
    ensures
        r@ == voice_state_json(*p),
{
    proof {
        reveal_strlit("{\"op\":4,\"d\":{\"guild_id\":");
        reveal_strlit(",\"channel_id\":");
        reveal_strlit("null");
        reveal_strlit(",\"self_mute\":");
        reveal_strlit(",\"self_deaf\":");
        reveal_strlit("}}");
    }
    let mut out = String::from_str("{\"op\":4,\"d\":{\"guild_id\":");
    append_u64(&mut out, p.guild_id.0);
    out.append(",\"channel_id\":");
    match p.channel_id {
        Some(c) => append_u64(&mut out, c.0),
        None => out.append("null"),
    }
    out.append(",\"self_mute\":");
    append_bool(&mut out, p.self_mute);
    out.append(",\"self_deaf\":");
    append_bool(&mut out, p.self_deaf);
    out.append("}}");
    out
}

// Caller-driven syncs

/// A comma-separated list of server identifiers.
pub open spec fn server_id_list(ids: Seq<ServerId>) -> Seq<char>
    decreases ids.len(),
{
    if ids.len() == 0 {
        Seq::empty()
    } else if ids.len() == 1 {
        dec_string(ids[0].0 as int)
    } else {
        server_id_list(ids.drop_last()) + ","@ + dec_string(ids.last().0 as int)
    }
}

/// Append a comma-separated list of server identifiers.
fn append_server_ids(out: &mut String, ids: &Vec<ServerId>)
    ensures
        final(out)@ == old(out)@ + server_id_list(ids@),
{
    proof {
        reveal_strlit(",");
    }
    let mut j: usize = 0;
    while j < ids.len()
        invariant
            0 <= j <= ids@.len(),
            out@ == old(out)@ + server_id_list(ids@.take(j as int)),
        decreases ids@.len() - j,
    {
        proof {
            assert(ids@.take(j as int + 1).drop_last() =~= ids@.take(j as int));
            assert(ids@.take(j as int + 1).last() == ids@[j as int]);
        }
        if j > 0 {
            out.append(",");
        } else {
            proof {
                assert(ids@.take(1).len() == 1);
            }
        }
        append_u64(out, ids[j].0);
        j = j + 1;
    }
    proof {
        assert(ids@.take(ids@.len() as int) =~= ids@);
    }
}

/// The server sync frame: a request to download the member lists of the
/// given servers.
pub open spec fn sync_servers_json(ids: Seq<ServerId>) -> Seq<char> {
    "{\"op\":12,\"d\":["@ + server_id_list(ids) + "]}"@
}

/// Build the server sync frame.
pub fn sync_servers_frame(ids: &Vec<ServerId>) -> (r: String)
    ensures
        r@ == sync_servers_json(ids@),
{
    proof {
        reveal_strlit("{\"op\":12,\"d\":[");
        reveal_strlit("]}");
    }
    let mut out = String::from_str("{\"op\":12,\"d\":[");
    append_server_ids(&mut out, ids);
    out.append("]}");
    out
}

/// The call sync frame for one channel.
pub open spec fn sync_calls_json(channel: ChannelId) -> Seq<char> {
    "{\"op\":13,\"d\":{\"channel_id\":"@ + dec_string(channel.0 as int) + "}}"@
}

/// Build the call sync frame for one channel.
pub fn sync_calls_frame(channel: ChannelId) -> (r: String)
    ensures
        r@ == sync_calls_json(channel),
{
    proof {
        reveal_strlit("{\"op\":13,\"d\":{\"channel_id\":");
        reveal_strlit("}}");
    }
    let mut out = String::from_str("{\"op\":13,\"d\":{\"channel_id\":");
    append_u64(&mut out, channel.0);
    out.append("}}");
    out
}

/// The member download frame: asks for every member of the given servers.
pub open spec fn download_members_json(ids: Seq<ServerId>) -> Seq<char> {
    "{\"op\":8,\"d\":{\"guild_id\":["@ + server_id_list(ids)
        + "],\"query\":\"\",\"limit\":0}}"@
}

/// Build the member download frame.
pub fn download_members_frame(ids: &Vec<ServerId>) -> (r: String)
    ensures
        r@ == download_members_json(ids@),
{
    proof {
        reveal_strlit("{\"op\":8,\"d\":{\"guild_id\":[");
        reveal_strlit("],\"query\":\"\",\"limit\":0}}");
    }
    let mut out = String::from_str("{\"op\":8,\"d\":{\"guild_id\":[");
    append_server_ids(&mut out, ids);
    out.append("],\"query\":\"\",\"limit\":0}}");
    out
}

} // verus!
