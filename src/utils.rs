//! The URL of each command.
use vstd::prelude::*;

use crate::address::{decimal, ipv4_text, push_decimal, ServerAddress};
use crate::{KenkuCommand, KenkuGetCommand, KenkuPostCommand, KenkuPutCommand, KenkuState};

verus! {

/// The root of the API at `ip` and `port`: `http://<ip>:<port>/v1`.
pub open spec fn base_url_text(ip: Seq<char>, port: u16) -> Seq<char> {
    "http://"@ + ip + ":"@ + decimal(port as nat) + "/v1"@
}

pub open spec fn get_path(command: KenkuGetCommand) -> Seq<char> {
    match command {
        KenkuGetCommand::Soundboard => "/soundboard"@,
        KenkuGetCommand::SoundboardPlayback => "/soundboard/playback"@,
        KenkuGetCommand::Playlist => "/playlist"@,
        KenkuGetCommand::PlaylistPlayback => "/playlist/playback"@,
    }
}

pub open spec fn put_path(command: KenkuPutCommand) -> Seq<char> {
    match command {
        KenkuPutCommand::SoundboardPlay => "/soundboard/play"@,
        KenkuPutCommand::SoundboardStop => "/soundboard/stop"@,
        KenkuPutCommand::PlaylistPlay => "/playlist/play"@,
        KenkuPutCommand::PlaylistPlaybackPlay => "/playlist/playback/play"@,
        KenkuPutCommand::PlaylistPlaybackPause => "/playlist/playback/pause"@,
        KenkuPutCommand::PlaylistPlaybackMute => "/playlist/playback/mute"@,
        KenkuPutCommand::PlaylistPlaybackVolume => "/playlist/playback/volume"@,
        KenkuPutCommand::PlaylistPlaybackShuffle => "/playlist/playback/shuffle"@,
        KenkuPutCommand::PlaylistPlaybackRepeat => "/playlist/playback/repeat"@,
    }
}

pub open spec fn post_path(command: KenkuPostCommand) -> Seq<char> {
    match command {
        KenkuPostCommand::PlaylistPlaybackNext => "/playlist/playback/next"@,
        KenkuPostCommand::PlaylistPlaybackPrevious => "/playlist/playback/previous"@,
    }
}

/// The path of a command below the root of the API.
pub open spec fn command_path(command: KenkuCommand) -> Seq<char> {
    match command {
        KenkuCommand::KenkuGet(c) => get_path(c),
        KenkuCommand::KenkuPut(c) => put_path(c),
        KenkuCommand::KenkuPost(c) => post_path(c),
    }
}

/// The full URL of a command sent to the server at `address`.
pub open spec fn command_url(command: KenkuCommand, address: ServerAddress) -> Seq<char> {
    base_url_text(ipv4_text(address.ip), address.port) + command_path(command)
}

/// Each command has a URL of its own: on one server, two commands have the
/// same URL exactly when they are the same command.
pub proof fn lemma_command_urls_distinct(
    first: KenkuCommand,
    second: KenkuCommand,
    address: ServerAddress,
)
    ensures
        command_url(first, address) == command_url(second, address) <==> first == second,
{
    reveal_strlit("/soundboard");
    reveal_strlit("/soundboard/playback");
    reveal_strlit("/playlist");
    reveal_strlit("/playlist/playback");
    reveal_strlit("/soundboard/play");
    reveal_strlit("/soundboard/stop");
    reveal_strlit("/playlist/play");
    reveal_strlit("/playlist/playback/play");
    reveal_strlit("/playlist/playback/pause");
    reveal_strlit("/playlist/playback/mute");
    reveal_strlit("/playlist/playback/volume");
    reveal_strlit("/playlist/playback/shuffle");
    reveal_strlit("/playlist/playback/repeat");
    reveal_strlit("/playlist/playback/next");
    reveal_strlit("/playlist/playback/previous");
    let base = base_url_text(ipv4_text(address.ip), address.port);
    let p = command_path(first);
    let q = command_path(second);
    if command_url(first, address) == command_url(second, address) {
        assert(p =~= (base + p).subrange(base.len() as int, (base + p).len() as int));
        assert(q =~= (base + q).subrange(base.len() as int, (base + q).len() as int));
        assert(p.len() == q.len());
        if p.len() > 12 {
            assert(p[12] == q[12]);
        }
        if p.len() > 19 {
            assert(p[19] == q[19]);
        }
    }
}

/// The root of the API of the server at `ip` and `port`.
pub fn format_base_url(ip: String, port: u16) -> (r: String)
    ensures
        r@ == base_url_text(ip@, port),
{
    let mut out = String::from_str("http://");
    out.append(ip.as_str());
    out.append(":");
    push_decimal(&mut out, port as u64);
    out.append("/v1");
    out
}

/// The URL of a read command, below `base_url`.
pub fn process_get_command(command: &KenkuGetCommand, base_url: &str) -> (r: String)
    ensures
        r@ == base_url@ + get_path(*command),
{
    let path = match command {
        KenkuGetCommand::Soundboard => "/soundboard",
        KenkuGetCommand::SoundboardPlayback => "/soundboard/playback",
        KenkuGetCommand::Playlist => "/playlist",
        KenkuGetCommand::PlaylistPlayback => "/playlist/playback",
    };
    String::from_str(base_url).concat(path)
}

/// The URL of a `PUT` command, below `base_url`.
pub fn process_put_command(command: &KenkuPutCommand, base_url: &str) -> (r: String)
    ensures
        r@ == base_url@ + put_path(*command),
{
    let path = match command {
        KenkuPutCommand::PlaylistPlay => "/playlist/play",
        KenkuPutCommand::PlaylistPlaybackMute => "/playlist/playback/mute",
        KenkuPutCommand::PlaylistPlaybackPause => "/playlist/playback/pause",
        KenkuPutCommand::PlaylistPlaybackPlay => "/playlist/playback/play",
        KenkuPutCommand::PlaylistPlaybackRepeat => "/playlist/playback/repeat",
        KenkuPutCommand::PlaylistPlaybackShuffle => "/playlist/playback/shuffle",
        KenkuPutCommand::PlaylistPlaybackVolume => "/playlist/playback/volume",
        KenkuPutCommand::SoundboardPlay => "/soundboard/play",
        KenkuPutCommand::SoundboardStop => "/soundboard/stop",
    };
    String::from_str(base_url).concat(path)
}

/// The URL of a `POST` command, below `base_url`.
pub fn process_post_command(command: &KenkuPostCommand, base_url: &str) -> (r: String)
    ensures
        r@ == base_url@ + post_path(*command),
{
    let path = match command {
        KenkuPostCommand::PlaylistPlaybackNext => "/playlist/playback/next",
        KenkuPostCommand::PlaylistPlaybackPrevious => "/playlist/playback/previous",
    };
    String::from_str(base_url).concat(path)
}

/// The URL of `command` on the server at `address`. Every command has
/// exactly one URL, and the result depends on the two arguments alone.
pub fn process_url(command: &KenkuCommand, address: ServerAddress) -> (r: String)
    ensures
        r@ == command_url(*command, address),
{
    let base_url = format_base_url(address.ip_text(), address.port);
    match command {
        KenkuCommand::KenkuGet(get_command) => process_get_command(get_command, base_url.as_str()),
        KenkuCommand::KenkuPut(put_command) => process_put_command(put_command, base_url.as_str()),
        KenkuCommand::KenkuPost(post_command) => {
            process_post_command(post_command, base_url.as_str())
        },
    }
}


/// The state that a liveness probe reports: `Online` where a connection to
/// the server could be opened, `Offline` otherwise.
pub fn server_state(connected: bool) -> (r: KenkuState)
    ensures
        r == (if connected {
            KenkuState::Online
        } else {
            KenkuState::Offline
        }),
{
    if connected {
        KenkuState::Online
    } else {
        KenkuState::Offline
    }
}

} // verus!
