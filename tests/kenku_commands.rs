use kenku_control::{
    process_url, KenkuCommand, KenkuGetCommand, KenkuPostCommand, KenkuPutCommand, ServerAddress,
};

fn get_default_address() -> ServerAddress {
    ServerAddress::parse("127.0.0.1", 3333).unwrap()
}

#[test]
fn get_soundboard_link_creation() {
    let command = KenkuCommand::KenkuGet(KenkuGetCommand::Soundboard);
    let default_address = get_default_address();
    let url = process_url(&command, default_address);
    let expected_url = format!(
        "http://{}:{}/v1/soundboard",
        default_address.ip_text(),
        default_address.port()
    );
    assert_eq!(url, expected_url);
}

#[test]
fn get_playlist_link_creation() {
    let command = KenkuCommand::KenkuGet(KenkuGetCommand::Playlist);
    let default_address = get_default_address();
    let url = process_url(&command, default_address);
    let expected_url = format!(
        "http://{}:{}/v1/playlist",
        default_address.ip_text(),
        default_address.port()
    );
    assert_eq!(url, expected_url);
}

#[test]
fn get_soundboard_playback_link_creation() {
    let command = KenkuCommand::KenkuGet(KenkuGetCommand::SoundboardPlayback);
    let default_address = get_default_address();
    let url = process_url(&command, default_address);
    let expected_url = format!(
        "http://{}:{}/v1/soundboard/playback",
        default_address.ip_text(),
        default_address.port()
    );
    assert_eq!(url, expected_url);
}

#[test]
fn get_playlist_playback_link_creation() {
    let command = KenkuCommand::KenkuGet(KenkuGetCommand::PlaylistPlayback);
    let default_address = get_default_address();
    let url = process_url(&command, default_address);
    let expected_url = format!(
        "http://{}:{}/v1/playlist/playback",
        default_address.ip_text(),
        default_address.port()
    );
    assert_eq!(url, expected_url);
}

#[test]
fn put_playlist_play_link_creation() {
    let command = KenkuCommand::KenkuPut(KenkuPutCommand::PlaylistPlay);
    let default_address = get_default_address();
    let url = process_url(&command, default_address);
    let expected_url = format!(
        "http://{}:{}/v1/playlist/play",
        default_address.ip_text(),
        default_address.port()
    );
    assert_eq!(url, expected_url);
}

#[test]
fn put_playlist_playback_mute_link_creation() {
    let command = KenkuCommand::KenkuPut(KenkuPutCommand::PlaylistPlaybackMute);
    let default_address = get_default_address();
    let url = process_url(&command, default_address);
    let expected_url = format!(
        "http://{}:{}/v1/playlist/playback/mute",
        default_address.ip_text(),
        default_address.port()
    );
    assert_eq!(url, expected_url);
}

#[test]
fn put_playlist_playback_pause_link_creation() {
    let command = KenkuCommand::KenkuPut(KenkuPutCommand::PlaylistPlaybackPause);
    let default_address = get_default_address();
    let url = process_url(&command, default_address);
    let expected_url = format!(
        "http://{}:{}/v1/playlist/playback/pause",
        default_address.ip_text(),
        default_address.port()
    );
    assert_eq!(url, expected_url);
}

#[test]
fn put_playlist_playback_play_link_creation() {
    let command = KenkuCommand::KenkuPut(KenkuPutCommand::PlaylistPlaybackPlay);
    let default_address = get_default_address();
    let url = process_url(&command, default_address);
    let expected_url = format!(
        "http://{}:{}/v1/playlist/playback/play",
        default_address.ip_text(),
        default_address.port()
    );
    assert_eq!(url, expected_url);
}

#[test]
fn put_playlist_playback_repeat_link_creation() {
    let command = KenkuCommand::KenkuPut(KenkuPutCommand::PlaylistPlaybackRepeat);
    let default_address = get_default_address();
    let url = process_url(&command, default_address);
    let expected_url = format!(
        "http://{}:{}/v1/playlist/playback/repeat",
        default_address.ip_text(),
        default_address.port()
    );
    assert_eq!(url, expected_url);
}

#[test]
fn put_playlist_playback_shuffle_link_creation() {
    let command = KenkuCommand::KenkuPut(KenkuPutCommand::PlaylistPlaybackShuffle);
    let default_address = get_default_address();
    let url = process_url(&command, default_address);
    let expected_url = format!(
        "http://{}:{}/v1/playlist/playback/shuffle",
        default_address.ip_text(),
        default_address.port()
    );
    assert_eq!(url, expected_url);
}

#[test]
fn put_playlist_playback_volume_link_creation() {
    let command = KenkuCommand::KenkuPut(KenkuPutCommand::PlaylistPlaybackVolume);
    let default_address = get_default_address();
    let url = process_url(&command, default_address);
    let expected_url = format!(
        "http://{}:{}/v1/playlist/playback/volume",
        default_address.ip_text(),
        default_address.port()
    );
    assert_eq!(url, expected_url);
}

#[test]
fn put_soundboard_play_link_creation() {
    let command = KenkuCommand::KenkuPut(KenkuPutCommand::SoundboardPlay);
    let default_address = get_default_address();
    let url = process_url(&command, default_address);
    let expected_url = format!(
        "http://{}:{}/v1/soundboard/play",
        default_address.ip_text(),
        default_address.port()
    );
    assert_eq!(url, expected_url);
}

#[test]
fn put_soundboard_stop_link_creation() {
    let command = KenkuCommand::KenkuPut(KenkuPutCommand::SoundboardStop);
    let default_address = get_default_address();
    let url = process_url(&command, default_address);
    let expected_url = format!(
        "http://{}:{}/v1/soundboard/stop",
        default_address.ip_text(),
        default_address.port()
    );
    assert_eq!(url, expected_url);
}

#[test]
fn post_playlist_playback_next_link_creation() {
    let command = KenkuCommand::KenkuPost(KenkuPostCommand::PlaylistPlaybackNext);
    let default_address = get_default_address();
    let url = process_url(&command, default_address);
    let expected_url = format!(
        "http://{}:{}/v1/playlist/playback/next",
        default_address.ip_text(),
        default_address.port()
    );
    assert_eq!(url, expected_url);
}

#[test]
fn post_playlist_playback_previous_link_creation() {
    let command = KenkuCommand::KenkuPost(KenkuPostCommand::PlaylistPlaybackPrevious);
    let default_address = get_default_address();
    let url = process_url(&command, default_address);
    let expected_url = format!(
        "http://{}:{}/v1/playlist/playback/previous",
        default_address.ip_text(),
        default_address.port()
    );
    assert_eq!(url, expected_url);
}
