//! Typed client for the remote control API of a Kenku FM server.
//!
//! The library states what each request to the server is (its method, its
//! URL and its JSON body) and proves it; sending the request and reading the
//! response are left to the caller's HTTP stack.
use vstd::prelude::*;

use address::{ipv4_text, is_ipv4_text};

pub mod address;
pub mod playlist;
pub mod request;
pub mod soundboard;
pub mod utils;

pub use address::ServerAddress;
pub use request::{HttpMethod, Request};
pub use utils::{
    format_base_url, process_get_command, process_post_command, process_put_command, process_url,
    server_state,
};

verus! {

/// The total timeout of a request, in milliseconds, where none is given.
pub const DEFAULT_TIMEOUT_MILLIS: u64 = 100;

#[verifier::external_type_specification]
#[verifier::external_body]
pub struct ExClient(reqwest::Client);

#[verifier::external_type_specification]
#[verifier::external_body]
pub struct ExError(reqwest::Error);

/// Relies on reqwest's `ClientBuilder::build` for a client whose requests
/// time out after `millis` milliseconds; it fails where a TLS backend or the
/// resolver cannot be set up.
#[verifier::external_body]
fn build_client(millis: u64) -> (r: Result<reqwest::Client, reqwest::Error>) {
    reqwest::Client::builder().timeout(std::time::Duration::from_millis(millis)).build()
}

/// Why a controller could not be made.
#[derive(Clone, Copy, Debug, PartialEq, Eq)]
pub enum ControllerError {
    /// The IP address is not the dotted-decimal text of an IPv4 address.
    InvalidIp,
    /// The HTTP client could not be set up.
    HttpClient,
}

/// A handle on one Kenku server: an HTTP client and the server's address.
#[derive(Debug)]
pub struct Controller {
    pub client: reqwest::Client,
    pub address: ServerAddress,
    pub kenku_remote_state: KenkuState,
}

impl Controller {
    /// A controller for the server at the IPv4 address with text `ip` and at
    /// `port`, whose requests time out after the default timeout.
    pub fn new(ip: String, port: u16) -> (r: Result<Controller, ControllerError>)
        ensures
            r matches Ok(c) ==> ipv4_text(c.address.ip) == ip@ && c.address.port == port
                && c.kenku_remote_state == KenkuState::Offline,
            r == Err::<Controller, ControllerError>(ControllerError::InvalidIp) <==> !is_ipv4_text(
                ip@,
            ),
    {
        match ServerAddress::parse(ip.as_str(), port) {
            Some(address) => Controller::from_ipv4(address),
            None => Err(ControllerError::InvalidIp),
        }
    }

    /// A controller for the server at `address`, whose requests time out
    /// after the default timeout.
    pub fn from_ipv4(address: ServerAddress) -> (r: Result<Controller, ControllerError>)
        ensures
            r matches Ok(c) ==> c.address == address && c.kenku_remote_state == KenkuState::Offline,
            r matches Err(e) ==> e == ControllerError::HttpClient,
    {
        Controller::with_timeout(address, DEFAULT_TIMEOUT_MILLIS)
    }

    /// A controller for the server at `address`, whose requests time out
    /// after `millis` milliseconds.
    pub fn with_timeout(address: ServerAddress, millis: u64) -> (r: Result<
        Controller,
        ControllerError,
    >)
        ensures
            r matches Ok(c) ==> c.address == address && c.kenku_remote_state == KenkuState::Offline,
            r matches Err(e) ==> e == ControllerError::HttpClient,
    {
        match build_client(millis) {
            Ok(client) => Ok(Controller { client, address, kenku_remote_state: KenkuState::Offline }),
            Err(_) => Err(ControllerError::HttpClient),
        }
    }
}

/// Whether the Kenku server answered a liveness probe.
#[derive(Clone, Copy, Debug, PartialEq, Eq)]
pub enum KenkuState {
    /// The server is reachable.
    Online,
    /// The server is not reachable.
    Offline,
}

/// A command sent to the server, grouped by the HTTP method it is sent with.
#[derive(Clone, Copy, Debug, PartialEq, Eq)]
pub enum KenkuCommand {
    /// Sent with `GET`.
    KenkuGet(KenkuGetCommand),
    /// Sent with `PUT`.
    KenkuPut(KenkuPutCommand),
    /// Sent with `POST`.
    KenkuPost(KenkuPostCommand),
}

/// The commands that read the state of the soundboard or of the playlist.
#[derive(Clone, Copy, Debug, PartialEq, Eq)]
pub enum KenkuGetCommand {
    /// The soundboards and their sounds.
    Soundboard,
    /// The sounds that are playing.
    SoundboardPlayback,
    /// The playlists and their tracks.
    Playlist,
    /// The playlist playback state.
    PlaylistPlayback,
}

/// The commands that change the soundboard or the playlist playback.
#[derive(Clone, Copy, Debug, PartialEq, Eq)]
pub enum KenkuPutCommand {
    /// Plays a sound of a soundboard.
    SoundboardPlay,
    /// Stops a sound of a soundboard.
    SoundboardStop,
    /// Plays a track or a playlist.
    PlaylistPlay,
    /// Resumes the playlist playback.
    PlaylistPlaybackPlay,
    /// Pauses the playlist playback.
    PlaylistPlaybackPause,
    /// Mutes or unmutes the playlist playback.
    PlaylistPlaybackMute,
    /// Sets the volume of the playlist playback.
    PlaylistPlaybackVolume,
    /// Turns shuffle on or off.
    PlaylistPlaybackShuffle,
    /// Sets the repeat mode.
    PlaylistPlaybackRepeat,
}

/// The commands that move through the playlist.
#[derive(Clone, Copy, Debug, PartialEq, Eq)]
pub enum KenkuPostCommand {
    /// Skips to the next track.
    PlaylistPlaybackNext,
    /// Goes back to the previous track.
    PlaylistPlaybackPrevious,
}

} // verus!
