//! Soundboards and the requests that play and stop their sounds.
use vstd::prelude::*;

use crate::address::ServerAddress;
use crate::request::{id_body, json_member, json_string_text, sends, Request};
use crate::{KenkuCommand, KenkuPutCommand};

verus! {

/// A soundboard: its id, the ids of its sounds, its background and its title.
#[derive(Clone, Debug, PartialEq, Eq)]
pub struct Soundboards {
    pub id: String,
    pub sounds: Vec<String>,
    pub background: String,
    pub title: String,
}

/// The request that plays the sound `id` on the server at `address`.
pub fn sound_play_request(address: ServerAddress, id: &str) -> (r: Request)
    ensures
        sends(
            r,
            KenkuCommand::KenkuPut(KenkuPutCommand::SoundboardPlay),
            address,
            Some(json_member("id"@, json_string_text(id@))),
        ),
{
    let body = id_body(id);
    Request::new(&KenkuCommand::KenkuPut(KenkuPutCommand::SoundboardPlay), address, Some(body))
}

/// The request that stops the sound `id` on the server at `address`.
pub fn sound_stop_request(address: ServerAddress, id: &str) -> (r: Request)
    ensures
        sends(
            r,
            KenkuCommand::KenkuPut(KenkuPutCommand::SoundboardStop),
            address,
            Some(json_member("id"@, json_string_text(id@))),
        ),
{
    let body = id_body(id);
    Request::new(&KenkuCommand::KenkuPut(KenkuPutCommand::SoundboardStop), address, Some(body))
}

} // verus!
