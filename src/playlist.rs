//! Playlists and their tracks.
use vstd::prelude::*;

use crate::address::ServerAddress;
use crate::request::{id_body, json_member, json_string_text, sends, Request};
use crate::{KenkuCommand, KenkuPutCommand};

pub mod playback;

verus! {

/// The repeat mode of the playlist playback.
#[derive(Clone, Copy, Debug, PartialEq, Eq)]
pub enum Repeat {
    /// The current track is repeated.
    Track,
    /// The whole playlist is repeated.
    Playlist,
    /// Nothing is repeated.
    Off,
}

/// The word that the API uses for a repeat mode.
pub open spec fn repeat_token(repeat: Repeat) -> Seq<char> {
    match repeat {
        Repeat::Track => "track"@,
        Repeat::Playlist => "playlist"@,
        Repeat::Off => "off"@,
    }
}

impl Repeat {
    /// The word that the API uses for this mode.
    pub fn as_str(&self) -> (r: &'static str)
        ensures
            r@ == repeat_token(*self),
    {
        match self {
            Repeat::Track => "track",
            Repeat::Playlist => "playlist",
            Repeat::Off => "off",
        }
    }
}

/// The answer to a read of the playlists: every playlist and every track.
#[derive(Clone, Debug, PartialEq, Eq)]
pub struct PlaylistGetResponse {
    pub playlists: Vec<Playlist>,
    pub tracks: Vec<Track>,
}

impl PlaylistGetResponse {
    pub fn get_playlists(&self) -> (r: &Vec<Playlist>)
        ensures
            r@ == self.playlists@,
    {
        &self.playlists
    }
}

/// A playlist: its id, the ids of its tracks, its background and its title.
#[derive(Clone, Debug, PartialEq, Eq)]
pub struct Playlist {
    pub id: String,
    pub tracks: Option<Vec<String>>,
    pub background: Option<String>,
    pub title: String,
}

/// A track. The duration and the progress, in milliseconds, come only with
/// the playback state.
#[derive(Clone, Debug, PartialEq, Eq)]
pub struct Track {
    pub id: String,
    pub url: String,
    pub title: String,
    pub duration: Option<u32>,
    pub progress: Option<u32>,
}

impl Track {
    /// The request that plays this track on the server at `address`.
    pub fn play_request(&self, address: ServerAddress) -> (r: Request)
        ensures
            sends(
                r,
                KenkuCommand::KenkuPut(KenkuPutCommand::PlaylistPlay),
                address,
                Some(json_member("id"@, json_string_text(self.id@))),
            ),
    {
        let body = id_body(self.id.as_str());
        Request::new(&KenkuCommand::KenkuPut(KenkuPutCommand::PlaylistPlay), address, Some(body))
    }
}

} // verus!
