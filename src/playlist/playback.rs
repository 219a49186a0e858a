//! Requests that control the playlist playback.
use vstd::prelude::*;

use crate::address::ServerAddress;
use crate::playlist::{repeat_token, Repeat};
use crate::request::{bool_text, flag_body, json_member, member_body, sends, Request};
use crate::{KenkuCommand, KenkuPostCommand, KenkuPutCommand};

verus! {

/// Resumes the playback.
pub fn playback_play_request(address: ServerAddress) -> (r: Request)
    ensures
        sends(r, KenkuCommand::KenkuPut(KenkuPutCommand::PlaylistPlaybackPlay), address, None),
{
    Request::new(&KenkuCommand::KenkuPut(KenkuPutCommand::PlaylistPlaybackPlay), address, None)
}

/// Pauses the playback.
pub fn playback_pause_request(address: ServerAddress) -> (r: Request)
    ensures
        sends(r, KenkuCommand::KenkuPut(KenkuPutCommand::PlaylistPlaybackPause), address, None),
{
    Request::new(&KenkuCommand::KenkuPut(KenkuPutCommand::PlaylistPlaybackPause), address, None)
}

/// Skips to the next track.
pub fn playback_next_request(address: ServerAddress) -> (r: Request)
    ensures
        sends(r, KenkuCommand::KenkuPost(KenkuPostCommand::PlaylistPlaybackNext), address, None),
{
    Request::new(&KenkuCommand::KenkuPost(KenkuPostCommand::PlaylistPlaybackNext), address, None)
}

/// Goes back to the previous track.
pub fn playback_previous_request(address: ServerAddress) -> (r: Request)
    ensures
        sends(
            r,
            KenkuCommand::KenkuPost(KenkuPostCommand::PlaylistPlaybackPrevious),
            address,
            None,
        ),
{
    Request::new(
        &KenkuCommand::KenkuPost(KenkuPostCommand::PlaylistPlaybackPrevious),
        address,
        None,
    )
}

/// Mutes the playback, or unmutes it: `{"mute":<mute>}`.
pub fn playback_mute_request(address: ServerAddress, mute: bool) -> (r: Request)
    ensures
        sends(
            r,
            KenkuCommand::KenkuPut(KenkuPutCommand::PlaylistPlaybackMute),
            address,
            Some(json_member("mute"@, bool_text(mute))),
        ),
{
    let body = flag_body("mute", mute);
    Request::new(&KenkuCommand::KenkuPut(KenkuPutCommand::PlaylistPlaybackMute), address, Some(body))
}

/// Turns shuffle on or off: `{"shuffle":<shuffle>}`.
pub fn playback_shuffle_request(address: ServerAddress, shuffle: bool) -> (r: Request)
    ensures
        sends(
            r,
            KenkuCommand::KenkuPut(KenkuPutCommand::PlaylistPlaybackShuffle),
            address,
            Some(json_member("shuffle"@, bool_text(shuffle))),
        ),
{
    let body = flag_body("shuffle", shuffle);
    Request::new(
        &KenkuCommand::KenkuPut(KenkuPutCommand::PlaylistPlaybackShuffle),
        address,
        Some(body),
    )
}

/// The body `{"repeat":"<word>"}` that sets a repeat mode.
pub open spec fn repeat_body_text(repeat: Repeat) -> Seq<char> {
    json_member("repeat"@, "\""@ + repeat_token(repeat) + "\""@)
}

/// Sets the repeat mode: the body holds the mode's word, in lower case.
pub fn playback_repeat_request(address: ServerAddress, repeat: Repeat) -> (r: Request)
    ensures
        sends(
            r,
            KenkuCommand::KenkuPut(KenkuPutCommand::PlaylistPlaybackRepeat),
            address,
            Some(repeat_body_text(repeat)),
        ),
{
    let word = String::from_str("\"").concat(repeat.as_str()).concat("\"");
    let body = member_body("repeat", word.as_str());
    Request::new(
        &KenkuCommand::KenkuPut(KenkuPutCommand::PlaylistPlaybackRepeat),
        address,
        Some(body),
    )
}

} // verus!
