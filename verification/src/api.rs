//! What the HTTP facade decides: how a request becomes a command for the
//! playback actor, and how the fate of that command becomes a response.
//!
//! The facade itself, which reads requests and writes responses, is not
//! here. It asks these functions what to do.

use vstd::prelude::*;
use vstd::string::StringExecFns;
use crate::library::{first_with_path, Library};
use crate::playback::{idle_status, AudioCommand, PlaybackStatus};
use crate::track::{lies_below, path_lies_below};

verus! {

/// The body of a request to play a track.
#[derive(Debug)]
pub struct PlayRequest {
    /// The path of the track below the music root.
    pub path: String,
}

impl Clone for PlayRequest {
    fn clone(&self) -> (copy: Self)
        ensures
            copy == *self,
    {
        PlayRequest { path: self.path.clone() }
    }
}

/// The body of a request to seek.
#[derive(Clone, Copy, Debug)]
pub struct SeekRequest {
    pub position_ms: u64,
}

/// The body of a request to set the volume.
#[derive(Clone, Copy, Debug)]
pub struct VolumeRequest {
    /// The binary32 pattern of the number asked for.
    pub volume: u32,
}

/// The status of a response.
#[derive(Clone, Copy, Debug, PartialEq, Eq, Structural)]
pub enum ApiStatus {
    Accepted,
    Forbidden,
    NotFound,
    InternalServerError,
    NotImplemented,
}

/// The HTTP status code of each response status.
pub open spec fn code_of(status: ApiStatus) -> u16 {
    match status {
        ApiStatus::Accepted => 200,
        ApiStatus::Forbidden => 403,
        ApiStatus::NotFound => 404,
        ApiStatus::InternalServerError => 500,
        ApiStatus::NotImplemented => 501,
    }
}

impl ApiStatus {
    /// The HTTP status code.
    pub fn code(&self) -> (code: u16)
        ensures
            code == code_of(*self),
    {
        match self {
            ApiStatus::Accepted => 200,
            ApiStatus::Forbidden => 403,
            ApiStatus::NotFound => 404,
            ApiStatus::InternalServerError => 500,
            ApiStatus::NotImplemented => 501,
        }
    }
}

/// The path `relative` taken from the directory `root`: a path that
/// begins at the root of the file system stands for itself, any other is
/// put behind `root` with a `/` between the two.
pub open spec fn joined(root: Seq<char>, relative: Seq<char>) -> Seq<char> {
    if relative.len() > 0 && relative[0] == '/' {
        relative
    } else if root.len() == 0 || root.last() == '/' {
        root + relative
    } else {
        root + seq!['/'] + relative
    }
}

/// The file that a play request names, before links and `..` in it are
/// resolved.
pub fn requested_file(music_root: &str, request: &PlayRequest) -> (file: String)
    ensures
        file@ == joined(music_root@, request.path@),
{
    let relative = crate::text::chars_of(request.path.as_str());
    if relative.len() > 0 && relative[0] == '/' {
        return request.path.clone();
    }
    let root = crate::text::chars_of(music_root);
    let mut file = String::from_str(music_root);
    if root.len() > 0 && root[root.len() - 1] != '/' {
        file.append("/");
        proof {
            reveal_strlit("/");
            assert("/"@ =~= seq!['/']);
        }
    }
    file.append(request.path.as_str());
    file
}

/// What the facade does with a play request.
#[derive(Debug)]
pub enum PlayDecision {
    /// Answer with this status and send nothing.
    Reject(ApiStatus),
    /// Send this command to the actor.
    Send(AudioCommand),
}

/// Decides a play request. `resolved` is the requested file with links
/// and `..` resolved, or `None` if there is no such file. A file that is
/// not there is not found; one that lies outside the music root is
/// forbidden; any other is sent to the actor to be played, together with
/// what the library knows of the requested path.
pub fn decide_play(
    library: &Library,
    music_root: &str,
    request: &PlayRequest,
    resolved: Option<String>,
) -> (decision: PlayDecision)
    ensures
        match resolved {
            None => decision == PlayDecision::Reject(ApiStatus::NotFound),
            Some(file) => if !lies_below(file@, music_root@) {
                decision == PlayDecision::Reject(ApiStatus::Forbidden)
            } else {
                &&& decision matches PlayDecision::Send(AudioCommand::Play { path, track })
                &&& path@ == file@
                &&& match track {
                    Some(t) => exists|i: int|
                        first_with_path(library@, request.path@, i) && t@
                            == #[trigger] library@[i],
                    None => forall|i: int|
                        0 <= i < library@.len() ==> (#[trigger] library@[i]).path
                            != request.path@,
                }
            },
        },
{
    match resolved {
        None => PlayDecision::Reject(ApiStatus::NotFound),
        Some(file) => {
            if !path_lies_below(file.as_str(), music_root) {
                PlayDecision::Reject(ApiStatus::Forbidden)
            } else {
                let track = library.find(request.path.as_str());
                PlayDecision::Send(AudioCommand::Play { path: file, track })
            }
        },
    }
}

/// The response to a pause, resume, stop, volume or play request whose
/// command was handed to the actor's queue (`delivered`) or could not be.
pub fn command_response(delivered: bool) -> (status: ApiStatus)
    ensures
        status == if delivered {
            ApiStatus::Accepted
        } else {
            ApiStatus::InternalServerError
        },
{
    if delivered {
        ApiStatus::Accepted
    } else {
        ApiStatus::InternalServerError
    }
}

/// The response to a seek request: seeking is not implemented, and the
/// response says so even when the command reached the actor.
pub fn seek_response(delivered: bool) -> (status: ApiStatus)
    ensures
        status == if delivered {
            ApiStatus::NotImplemented
        } else {
            ApiStatus::InternalServerError
        },
{
    if delivered {
        ApiStatus::NotImplemented
    } else {
        ApiStatus::InternalServerError
    }
}

/// The body of the response to a status request: the actor's snapshot as
/// it is, or, where the actor gave none, the snapshot of an idle player.
pub fn status_response(answer: Option<PlaybackStatus>) -> (status: PlaybackStatus)
    ensures
        status@ == match answer {
            Some(snapshot) => snapshot@,
            None => idle_status(),
        },
{
    match answer {
        Some(snapshot) => snapshot,
        None => PlaybackStatus::default(),
    }
}

/// The command that a seek request stands for.
pub fn seek_command(request: &SeekRequest) -> (cmd: AudioCommand)
    ensures
        cmd == AudioCommand::Seek(request.position_ms),
{
    AudioCommand::Seek(request.position_ms)
}

/// The command that a volume request stands for: the number is handed
/// on as it came; the actor clamps it.
pub fn volume_command(request: &VolumeRequest) -> (cmd: AudioCommand)
    ensures
        cmd == AudioCommand::SetVolume(request.volume),
{
    AudioCommand::SetVolume(request.volume)
}

} // verus!
