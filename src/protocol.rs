use vstd::prelude::*;

verus! {

/// A control request sent by a client over the control socket.
#[derive(Debug)]
pub enum IpcMessage {
    StopDaemon,
    PausePlay,
    ResumePlay,
    NextWallpaper,
    PreviousWallpaper,
    MoveWallpaperToIndex { path: String, index: usize },
    GoToWallpaper { path: String },
    AllWallpapers,
    CurrentInterval,
}

/// A successful answer to a control request. Durations are in milliseconds.
#[derive(Debug)]
pub enum IpcResponse {
    Ack,
    AllWallpapers { entries: Vec<String> },
    CurrentInterval { is_paused: bool, interval: u64, elapsed: u64 },
}

/// A domain error carried back to the client.
#[derive(Debug)]
pub enum IpcError {
    PathNotAdded { path: String },
}

} // verus!
