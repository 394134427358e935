//! Host-side media state shown on the keyboard: whether a media player is
//! playing and whether the default audio sink is muted. A watcher collects
//! it; the session only turns it into key-color overrides.

use vstd::prelude::*;

verus! {

/// Playback state of the active media player.
#[derive(Copy, Clone, Debug, PartialEq, Eq, Structural)]
pub enum PlayerStatus {
    Playing,
    Paused,
    NoMedia,
}

impl PlayerStatus {
    /// Parses the playback-status strings of the media-player interface.
    /// Returns the unrecognized string itself on failure.
    pub fn try_from(status: String) -> (r: Result<PlayerStatus, String>)
        ensures
            status@ == "Playing"@ ==> r == Ok::<PlayerStatus, String>(PlayerStatus::Playing),
            status@ == "Paused"@ ==> r == Ok::<PlayerStatus, String>(PlayerStatus::Paused),
            status@ == "Stopped"@ ==> r == Ok::<PlayerStatus, String>(PlayerStatus::NoMedia),
            (status@ != "Playing"@ && status@ != "Paused"@ && status@ != "Stopped"@) ==> (
            r matches Err(e) && e@ == status@),
    {
        proof {
            reveal_strlit("Playing");
            reveal_strlit("Paused");
            reveal_strlit("Stopped");
            assert("Playing"@.len() == 7);
            assert("Paused"@.len() == 6);
            assert("Stopped"@.len() == 7);
            assert("Playing"@ != "Stopped"@) by {
                assert("Playing"@[0] == 'P' && "Stopped"@[0] == 'S');
            }
        }
        if status == "Playing".to_owned() {
            Ok(PlayerStatus::Playing)
        } else if status == "Paused".to_owned() {
            Ok(PlayerStatus::Paused)
        } else if status == "Stopped".to_owned() {
            Ok(PlayerStatus::NoMedia)
        } else {
            Err(status)
        }
    }
}

/// The media state a session renders as indicator overrides.
#[derive(Debug, Copy, Clone, PartialEq, Eq, Structural)]
pub struct MediaState {
    pub muted: bool,
    pub player_status: PlayerStatus,
}

impl Default for MediaState {
    /// Before the watcher reports anything: not muted, no media.
    fn default() -> (state: MediaState)
        ensures
            state.muted == false,
            state.player_status == PlayerStatus::NoMedia,
    {
        MediaState { muted: false, player_status: PlayerStatus::NoMedia }
    }
}

/// A request to the media watcher.
pub enum MediaWatcherSignal {
    Shutdown,
}

} // verus!
