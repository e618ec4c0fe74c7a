//! The media player: what `playerctl` reports, and how durations and long
//! titles are shown.

use vstd::prelude::*;
use vstd::string::StringSliceAdditionalSpecFns;
use vstd::utf8::{decode_utf8, encode_utf8, is_char_boundary};
use crate::system::{Command, CommandView, invoke};
use crate::text::{
    chars_of, concat_text, decimal, is_text, lines, lines_of, owned, parse_i64, push_decimal,
    push_signed_decimal, read_i64, rows, signed_decimal, split_str, split_str_chars, string_of,
    trim, trim_chars,
};

verus! {

/// What the player is doing.
#[derive(Debug, Clone, Copy, PartialEq, Eq, Structural)]
pub enum PlaybackStatus {
    Playing,
    Paused,
    Stopped,
    Unknown,
}

/// What the player reports.
#[derive(Debug, Clone)]
pub struct MediaInfo {
    pub available: bool,
    pub status: PlaybackStatus,
    pub title: String,
    pub artist: String,
    pub album: String,
    pub player: String,
    /// The position in the track, in microseconds.
    pub position: i64,
    /// The length of the track, in microseconds.
    pub length: i64,
}

/// What a media report holds.
pub struct MediaInfoView {
    pub available: bool,
    pub status: PlaybackStatus,
    pub title: Seq<char>,
    pub artist: Seq<char>,
    pub album: Seq<char>,
    pub player: Seq<char>,
    pub position: i64,
    pub length: i64,
}

impl View for MediaInfo {
    type V = MediaInfoView;

    open spec fn view(&self) -> MediaInfoView {
        MediaInfoView {
            available: self.available,
            status: self.status,
            title: self.title@,
            artist: self.artist@,
            album: self.album@,
            player: self.player@,
            position: self.position,
            length: self.length,
        }
    }
}

/// What `playerctl` printed. Each text is missing where the tool could not
/// be run; the position is missing also where its output is no number.
#[derive(Debug, Clone)]
pub struct MediaReading {
    /// The output of `playerctl -l`.
    pub players: Option<String>,
    /// The output of `playerctl status`.
    pub status: Option<String>,
    /// The output of `playerctl metadata --format
    /// {{title}}|||{{artist}}|||{{album}}`.
    pub metadata: Option<String>,
    /// The position that `playerctl position` printed, in microseconds.
    pub position: Option<i64>,
    /// The output of `playerctl metadata mpris:length`.
    pub length: Option<String>,
}

/// The report when there is no player.
pub open spec fn no_media() -> MediaInfoView {
    MediaInfoView {
        available: false,
        status: PlaybackStatus::Unknown,
        title: Seq::empty(),
        artist: Seq::empty(),
        album: Seq::empty(),
        player: Seq::empty(),
        position: 0,
        length: 0,
    }
}

/// The first player that `playerctl -l` lists: the first line of its
/// output, once the white space around the output is gone.
pub open spec fn first_player(players: Option<String>) -> Option<Seq<char>> {
    match players {
        Some(text) => if lines(trim(text@)).len() > 0 {
            Some(lines(trim(text@))[0])
        } else {
            None
        },
        None => None,
    }
}

/// The status that a word of `playerctl status` names.
pub open spec fn status_of(word: Seq<char>) -> PlaybackStatus {
    if word == "Playing"@ {
        PlaybackStatus::Playing
    } else if word == "Paused"@ {
        PlaybackStatus::Paused
    } else if word == "Stopped"@ {
        PlaybackStatus::Stopped
    } else {
        PlaybackStatus::Unknown
    }
}

/// What separates title, artist and album in the metadata.
pub open spec fn field_separator() -> Seq<char> {
    "|||"@
}

/// The field number `index` of the metadata, or nothing where the metadata
/// has fewer fields.
pub open spec fn metadata_field(metadata: Option<String>, index: int) -> Seq<char> {
    match metadata {
        Some(text) => {
            let fields = split_str(trim(text@), field_separator());
            if 0 <= index < fields.len() {
                fields[index]
            } else {
                Seq::empty()
            }
        },
        None => Seq::empty(),
    }
}

/// The report that a reading gives. Without a player nothing else is looked
/// at. What cannot be read keeps its empty value.
pub open spec fn media_info(reading: MediaReading) -> MediaInfoView {
    match first_player(reading.players) {
        None => no_media(),
        Some(player) => MediaInfoView {
            available: true,
            status: match reading.status {
                Some(text) => status_of(trim(text@)),
                None => PlaybackStatus::Unknown,
            },
            title: metadata_field(reading.metadata, 0),
            artist: metadata_field(reading.metadata, 1),
            album: metadata_field(reading.metadata, 2),
            player,
            position: match reading.position {
                Some(position) => position,
                None => 0,
            },
            length: match reading.length {
                Some(text) => match parse_i64(trim(text@)) {
                    Some(length) => length as i64,
                    None => 0,
                },
                None => 0,
            },
        },
    }
}

fn read_first_player(players: &Option<String>) -> (player: Option<String>)
    ensures
        match player {
            Some(p) => first_player(*players) == Some(p@),
            None => first_player(*players) is None,
        },
{
    match players {
        Some(text) => {
            let all = lines_of(&trim_chars(&chars_of(text.as_str())));
            if all.len() > 0 {
                assert(rows(all@)[0] == all@[0]@);
                Some(string_of(&all[0]))
            } else {
                None
            }
        },
        None => None,
    }
}

fn read_status(word: &Vec<char>) -> (status: PlaybackStatus)
    ensures
        status == status_of(word@),
{
    if is_text(word, "Playing") {
        PlaybackStatus::Playing
    } else if is_text(word, "Paused") {
        PlaybackStatus::Paused
    } else if is_text(word, "Stopped") {
        PlaybackStatus::Stopped
    } else {
        PlaybackStatus::Unknown
    }
}

fn read_metadata(metadata: &Option<String>) -> (fields: (String, String, String))
    ensures
        fields.0@ == metadata_field(*metadata, 0),
        fields.1@ == metadata_field(*metadata, 1),
        fields.2@ == metadata_field(*metadata, 2),
{
    match metadata {
        Some(text) => {
            let separator = chars_of("|||");
            proof {
                reveal_strlit("|||");
            }
            let parts = split_str_chars(&trim_chars(&chars_of(text.as_str())), &separator);
            let title = if parts.len() >= 1 {
                assert(rows(parts@)[0] == parts@[0]@);
                string_of(&parts[0])
            } else {
                String::new()
            };
            let artist = if parts.len() >= 2 {
                assert(rows(parts@)[1] == parts@[1]@);
                string_of(&parts[1])
            } else {
                String::new()
            };
            let album = if parts.len() >= 3 {
                assert(rows(parts@)[2] == parts@[2]@);
                string_of(&parts[2])
            } else {
                String::new()
            };
            (title, artist, album)
        },
        None => (String::new(), String::new(), String::new()),
    }
}

/// The player's report, from what `playerctl` printed.
pub fn get_media_info(reading: &MediaReading) -> (info: MediaInfo)
    ensures
        info@ == media_info(*reading),
{
    match read_first_player(&reading.players) {
        None => MediaInfo {
            available: false,
            status: PlaybackStatus::Unknown,
            title: String::new(),
            artist: String::new(),
            album: String::new(),
            player: String::new(),
            position: 0,
            length: 0,
        },
        Some(player) => {
            let status = match &reading.status {
                Some(text) => read_status(&trim_chars(&chars_of(text.as_str()))),
                None => PlaybackStatus::Unknown,
            };
            let (title, artist, album) = read_metadata(&reading.metadata);
            let position = match reading.position {
                Some(position) => position,
                None => 0,
            };
            let length = match &reading.length {
                Some(text) => match read_i64(&trim_chars(&chars_of(text.as_str()))) {
                    Some(length) => length,
                    None => 0,
                },
                None => 0,
            };
            MediaInfo { available: true, status, title, artist, album, player, position, length }
        },
    }
}

/// The command that asks the player to do `action`: `play-pause`, `next`
/// or `previous`.
pub fn player_command(action: &str) -> (command: Command)
    ensures
        command@ == invoke("playerctl"@, seq![action@]),
{
    let command = Command::new("playerctl").arg(action);
    assert(command@.args =~= seq![action@]);
    command
}

/// The command that toggles between playing and pausing.
pub fn play_pause() -> (command: Command)
    ensures
        command@ == invoke("playerctl"@, seq!["play-pause"@]),
{
    player_command("play-pause")
}

/// The command that skips to the next track.
pub fn next() -> (command: Command)
    ensures
        command@ == invoke("playerctl"@, seq!["next"@]),
{
    player_command("next")
}

/// The command that goes back to the previous track.
pub fn previous() -> (command: Command)
    ensures
        command@ == invoke("playerctl"@, seq!["previous"@]),
{
    player_command("previous")
}

// ---------------------------------------------------------------------------
// Durations
// ---------------------------------------------------------------------------

/// The quotient of `a` by the positive `b`, rounded towards zero.
pub open spec fn trunc_div(a: int, b: int) -> int {
    if a >= 0 {
        a / b
    } else {
        -((-a) / b)
    }
}

/// What is left of `a` after the division by the positive `b` that rounds
/// towards zero; it has the sign of `a`.
pub open spec fn trunc_rem(a: int, b: int) -> int {
    a - trunc_div(a, b) * b
}

/// A number of seconds in at least two characters: a single digit gets a
/// zero before it.
pub open spec fn two_digits(n: int) -> Seq<char> {
    if 0 <= n < 10 {
        seq!['0'] + decimal(n as nat)
    } else {
        signed_decimal(n)
    }
}

/// A duration of `microseconds` as minutes and seconds.
pub open spec fn duration_text(microseconds: int) -> Seq<char> {
    let seconds = trunc_div(microseconds, 1_000_000);
    signed_decimal(trunc_div(seconds, 60)) + seq![':'] + two_digits(trunc_rem(seconds, 60))
}

fn div_toward_zero(a: i64, b: i64) -> (q: i64)
    requires
        b > 1,
    ensures
        q == trunc_div(a as int, b as int),
{
    if a >= 0 {
        a / b
    } else {
        let m: i128 = -(a as i128);
        let n: i128 = m / (b as i128);
        assert(0 <= n <= m) by (nonlinear_arith)
            requires
                n == m / (b as i128),
                m >= 0,
                b > 1,
        ;
        (-n) as i64
    }
}

/// Shows a duration in microseconds as minutes and seconds, `m:ss`.
pub fn format_duration(microseconds: i64) -> (text: String)
    ensures
        text@ == duration_text(microseconds as int),
{
    let seconds = div_toward_zero(microseconds, 1_000_000);
    let minutes = div_toward_zero(seconds, 60);
    let ghost rest = trunc_rem(seconds as int, 60);
    assert(-60 < rest < 60) by (nonlinear_arith)
        requires
            rest == seconds - trunc_div(seconds as int, 60) * 60,
            trunc_div(seconds as int, 60) == if seconds >= 0 {
                seconds as int / 60
            } else {
                -((-seconds) as int / 60)
            },
    ;
    let secs: i64 = seconds - minutes * 60;
    let mut out: Vec<char> = Vec::new();
    push_signed_decimal(&mut out, minutes);
    out.push(':');
    if 0 <= secs && secs < 10 {
        out.push('0');
        push_decimal(&mut out, secs as u64);
    } else {
        push_signed_decimal(&mut out, secs);
    }
    assert(out@ =~= duration_text(microseconds as int));
    string_of(&out)
}

// ---------------------------------------------------------------------------
// Long texts
// ---------------------------------------------------------------------------

/// The text whose encoding is the first `n` bytes of the encoding of `s`.
pub open spec fn byte_prefix(s: Seq<char>, n: int) -> Seq<char> {
    decode_utf8(encode_utf8(s).take(n))
}

/// Where `truncate_string` cuts a text that is longer than `max_len` bytes.
pub open spec fn cut_point(max_len: int) -> int {
    if max_len <= 3 {
        max_len
    } else {
        max_len - 3
    }
}

/// `s` held to `max_len` bytes: a text that fits stays; a longer one is cut
/// and, where there is room for them, ends in three dots.
pub open spec fn truncated(s: Seq<char>, max_len: int) -> Seq<char> {
    if encode_utf8(s).len() <= max_len {
        s
    } else if max_len <= 3 {
        byte_prefix(s, max_len)
    } else {
        byte_prefix(s, max_len - 3) + "..."@
    }
}

/// Holds a text to `max_len` bytes. The cut must not fall inside a
/// character.
pub fn truncate_string(s: &str, max_len: usize) -> (text: String)
    requires
        encode_utf8(s@).len() <= usize::MAX,
        encode_utf8(s@).len() > max_len ==> is_char_boundary(
            encode_utf8(s@),
            cut_point(max_len as int),
        ),
    ensures
        text@ == truncated(s@, max_len as int),
{
    broadcast use vstd::utf8::encode_utf8_decode_utf8;

    assert(s.spec_bytes() == encode_utf8(s@));
    if s.len() <= max_len {
        owned(s)
    } else if max_len <= 3 {
        let (head, _) = s.split_at(max_len);
        assert(head@ == byte_prefix(s@, max_len as int)) by {
            assert(head.spec_bytes() == encode_utf8(head@));
            assert(encode_utf8(head@) == encode_utf8(s@).take(max_len as int));
        }
        owned(head)
    } else {
        let (head, _) = s.split_at(max_len - 3);
        assert(head@ == byte_prefix(s@, max_len - 3)) by {
            assert(head.spec_bytes() == encode_utf8(head@));
            assert(encode_utf8(head@) == encode_utf8(s@).take(max_len - 3));
        }
        concat_text(head, "...")
    }
}

} // verus!
