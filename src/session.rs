use vstd::prelude::*;

use crate::playlist::{
    jump_to, move_to_index, rotate_backward, rotate_forward, rotated_backward, rotated_forward,
    contains_path, first_index, moved, rotated_by,
};
use crate::protocol::{IpcError, IpcMessage, IpcResponse};

verus! {

/// How long the timer waits between checks while rotation is paused, in milliseconds.
pub const PAUSED_POLL_MS: u64 = 10;

/// The external program that sets the background image.
#[derive(Clone, Copy, Debug, PartialEq, Eq, Structural)]
pub enum WallpaperDaemon {
    Swww,
    Hyprpaper,
}

/// The daemon's whole mutable state. Timestamps are milliseconds on a monotonic
/// clock; `interval` is in milliseconds too. The current image is `paths[0]`.
pub struct WallpaperManager {
    pub dir: String,
    pub interval: u64,
    pub wallpaper_daemon: WallpaperDaemon,
    pub socket_path: String,
    pub is_paused: bool,
    pub last_update: Option<u64>,
    pub last_pause: Option<u64>,
    pub last_resume: Option<u64>,
    pub paths: Vec<String>,
    pub waiting_after_pause: bool,
    pub skip_after_manual: bool,
}

/// What a control request produced: the reply for the client, the image to hand
/// to the backend right away (if any), and whether the daemon must stop.
pub struct Reply {
    pub response: Result<IpcResponse, IpcError>,
    pub apply: Option<String>,
    pub stop: bool,
}

/// What a timer fire produced: the delay until the next fire, and the image to
/// hand to the backend (if any).
pub struct TimerAction {
    pub rearm_ms: u64,
    pub apply: Option<String>,
}

/// `a - b`, or zero where `b` is later.
pub open spec fn diff(a: u64, b: u64) -> int {
    if a >= b {
        a - b
    } else {
        0
    }
}

/// Time counted toward the running interval at `now`. An unset `last_update`
/// counts as `now`. With a pause episode recorded, the time up to the pause
/// counts, plus, once resumed, the time since the resume; paused time never counts.
pub open spec fn elapsed_ms(
    is_paused: bool,
    last_update: Option<u64>,
    last_pause: Option<u64>,
    last_resume: Option<u64>,
    now: u64,
) -> int {
    let u = match last_update {
        Some(t) => t,
        None => now,
    };
    match last_pause {
        None => diff(now, u),
        Some(p) => diff(p, u) + match last_resume {
            Some(r) if !is_paused => diff(now, r),
            _ => 0,
        },
    }
}

/// The elapsed time as a `u64`, saturated at its largest value.
pub open spec fn clamp_u64(x: int) -> u64 {
    if x > u64::MAX {
        u64::MAX
    } else {
        x as u64
    }
}

/// Time left in the running interval at `now`, never below zero.
pub open spec fn remaining_ms(
    interval: u64,
    is_paused: bool,
    last_update: Option<u64>,
    last_pause: Option<u64>,
    last_resume: Option<u64>,
    now: u64,
) -> int {
    let e = elapsed_ms(is_paused, last_update, last_pause, last_resume, now);
    if e >= interval {
        0
    } else {
        interval - e
    }
}

/// The reply is a plain acknowledgement.
pub open spec fn is_ack(r: Result<IpcResponse, IpcError>) -> bool {
    r matches Ok(IpcResponse::Ack)
}

/// The reply is the error for a path that the playlist does not hold.
pub open spec fn not_added(r: Result<IpcResponse, IpcError>, path: Seq<char>) -> bool {
    r matches Err(IpcError::PathNotAdded { path: p }) && p@ == path
}

/// The time left in the running interval is never negative and never more
/// than the interval, whatever the timestamps and the moment asked about.
pub proof fn lemma_remaining_in_range(
    interval: u64,
    is_paused: bool,
    last_update: Option<u64>,
    last_pause: Option<u64>,
    last_resume: Option<u64>,
    now: u64,
)
    ensures
        0 <= remaining_ms(interval, is_paused, last_update, last_pause, last_resume, now)
            <= interval,
{
}

/// `b` has the configuration of `a`: directory, interval, backend and socket.
pub open spec fn same_config(a: WallpaperManager, b: WallpaperManager) -> bool {
    &&& a.dir@ == b.dir@
    &&& a.interval == b.interval
    &&& a.wallpaper_daemon == b.wallpaper_daemon
    &&& a.socket_path@ == b.socket_path@
}

/// `b` has the timing state of `a`: pause flag and all timestamps and flags.
pub open spec fn same_timing(a: WallpaperManager, b: WallpaperManager) -> bool {
    &&& a.is_paused == b.is_paused
    &&& a.last_update == b.last_update
    &&& a.last_pause == b.last_pause
    &&& a.last_resume == b.last_resume
    &&& a.waiting_after_pause == b.waiting_after_pause
    &&& a.skip_after_manual == b.skip_after_manual
}

/// After a manual change of the current image at `now`: `b` applies its new
/// current image, records `now` as the last update and skips the next advance.
pub open spec fn applied_manually(
    a: WallpaperManager,
    b: WallpaperManager,
    apply: Option<String>,
    now: u64,
) -> bool {
    if b.paths@.len() > 0 {
        &&& apply matches Some(p) && p@ == b.paths@[0]@
        &&& b.last_update == Some(now)
        &&& b.skip_after_manual
        &&& b.is_paused == a.is_paused
        &&& b.last_pause == a.last_pause
        &&& b.last_resume == a.last_resume
        &&& b.waiting_after_pause == a.waiting_after_pause
    } else {
        apply is None && same_timing(a, b)
    }
}

impl WallpaperManager {
    /// A running session with an empty playlist and no rotation recorded yet.
    pub fn new(dir: String, interval: u64, wallpaper_daemon: WallpaperDaemon, socket_path: String) -> (r: Self)
        ensures
            r.dir@ == dir@,
            r.interval == interval,
            r.wallpaper_daemon == wallpaper_daemon,
            r.socket_path@ == socket_path@,
            !r.is_paused,
            r.last_update is None,
            r.last_pause is None,
            r.last_resume is None,
            r.paths@.len() == 0,
            !r.waiting_after_pause,
            !r.skip_after_manual,
    {
        WallpaperManager {
            dir,
            interval,
            wallpaper_daemon,
            socket_path,
            is_paused: false,
            last_update: None,
            last_pause: None,
            last_resume: None,
            paths: Vec::new(),
            waiting_after_pause: false,
            skip_after_manual: false,
        }
    }

    /// Time counted toward the running interval at `now`, in milliseconds.
    pub fn elapsed(&self, now: u64) -> (r: u64)
        ensures
            r == clamp_u64(
                elapsed_ms(self.is_paused, self.last_update, self.last_pause, self.last_resume, now),
            ),
    {
        let u = match self.last_update {
            Some(t) => t,
            None => now,
        };
        match self.last_pause {
            None => if now >= u {
                now - u
            } else {
                0
            },
            Some(p) => {
                let before = if p >= u {
                    p - u
                } else {
                    0
                };
                let after = match self.last_resume {
                    Some(r) if !self.is_paused => if now >= r {
                        now - r
                    } else {
                        0
                    },
                    _ => 0,
                };
                before.saturating_add(after)
            },
        }
    }

    /// Time left until the next automatic rotation at `now`, in milliseconds.
    pub fn remaining_until_next_rotation(&self, now: u64) -> (r: u64)
        ensures
            r == remaining_ms(
                self.interval,
                self.is_paused,
                self.last_update,
                self.last_pause,
                self.last_resume,
                now,
            ),
            r <= self.interval,
    {
        let e = self.elapsed(now);
        if e >= self.interval {
            0
        } else {
            self.interval - e
        }
    }

    /// Stops rotation at `now`; does nothing when already paused.
    pub fn pause(&mut self, now: u64)
        ensures
            old(self).is_paused ==> same_timing(*old(self), *final(self)),
            !old(self).is_paused ==> final(self).is_paused && final(self).last_pause == Some(now),
            final(self).is_paused,
            final(self).last_update == old(self).last_update,
            final(self).last_resume == old(self).last_resume,
            final(self).waiting_after_pause == old(self).waiting_after_pause,
            final(self).skip_after_manual == old(self).skip_after_manual,
            final(self).paths@ == old(self).paths@,
            same_config(*old(self), *final(self)),
    {
        if !self.is_paused {
            self.is_paused = true;
            self.last_pause = Some(now);
        }
    }

    /// Restarts rotation at `now`; does nothing when not paused.
    pub fn resume(&mut self, now: u64)
        ensures
            !old(self).is_paused ==> same_timing(*old(self), *final(self)),
            old(self).is_paused ==> final(self).last_resume == Some(now),
            !final(self).is_paused,
            final(self).last_update == old(self).last_update,
            final(self).last_pause == old(self).last_pause,
            final(self).waiting_after_pause == old(self).waiting_after_pause,
            final(self).skip_after_manual == old(self).skip_after_manual,
            final(self).paths@ == old(self).paths@,
            same_config(*old(self), *final(self)),
    {
        if self.is_paused {
            self.is_paused = false;
            self.last_resume = Some(now);
        }
    }

    /// Records a manual change of the current image at `now` and returns the image
    /// to apply, or nothing when the playlist is empty.
    fn mark_manual(&mut self, now: u64) -> (r: Option<String>)
        ensures
            final(self).paths@ == old(self).paths@,
            same_config(*old(self), *final(self)),
            applied_manually(*old(self), *final(self), r, now),
    {
        if self.paths.len() > 0 {
            self.last_update = Some(now);
            self.skip_after_manual = true;
            Some(self.paths[0].clone())
        } else {
            None
        }
    }
    /// Applies one control request at `now`.
    pub fn handle_request(&mut self, msg: IpcMessage, now: u64) -> (r: Reply)
        ensures
            same_config(*old(self), *final(self)),
            match msg {
                IpcMessage::StopDaemon => r.stop && r.apply is None && final(self).paths@
                    == old(self).paths@ && same_timing(*old(self), *final(self)),
                IpcMessage::PausePlay => !r.stop && r.apply is None && is_ack(r.response) && final(self).paths@ == old(self).paths@ && final(self).is_paused && (
                old(self).is_paused ==> same_timing(*old(self), *final(self))) && (
                !old(self).is_paused ==> final(self).last_pause == Some(now)),
                IpcMessage::ResumePlay => !r.stop && r.apply is None && is_ack(r.response) && final(self).paths@ == old(self).paths@ && !final(self).is_paused && (
                !old(self).is_paused ==> same_timing(*old(self), *final(self))) && (
                old(self).is_paused ==> final(self).last_resume == Some(now)),
                IpcMessage::NextWallpaper => !r.stop && is_ack(r.response)
                    && final(self).paths@ == rotated_forward(old(self).paths@) && applied_manually(
                    *old(self),
                    *final(self),
                    r.apply,
                    now,
                ),
                IpcMessage::PreviousWallpaper => !r.stop && is_ack(r.response) && final(self).paths@ == rotated_backward(old(self).paths@)
                    && applied_manually(*old(self), *final(self), r.apply, now),
                IpcMessage::GoToWallpaper { path } => !r.stop && (if contains_path(
                    old(self).paths@,
                    path@,
                ) {
                    is_ack(r.response) && (exists|k: int|
                        first_index(old(self).paths@, path@, k) && final(self).paths@
                            == rotated_by(old(self).paths@, k)) && applied_manually(
                        *old(self),
                        *final(self),
                        r.apply,
                        now,
                    )
                } else {
                    not_added(r.response, path@)
                        && r.apply is None && final(self).paths@ == old(self).paths@
                        && same_timing(*old(self), *final(self))
                }),
                IpcMessage::MoveWallpaperToIndex { path, index } => !r.stop && (if contains_path(
                    old(self).paths@,
                    path@,
                ) {
                    is_ack(r.response) && exists|k: int|
                        first_index(old(self).paths@, path@, k) && final(self).paths@ == moved(
                            old(self).paths@,
                            k,
                            index as int,
                        ) && if k == 0 || index == 0 {
                            applied_manually(*old(self), *final(self), r.apply, now)
                        } else {
                            r.apply is None && same_timing(*old(self), *final(self))
                        }
                } else {
                    not_added(r.response, path@)
                        && r.apply is None && final(self).paths@ == old(self).paths@
                        && same_timing(*old(self), *final(self))
                }),
                IpcMessage::AllWallpapers => !r.stop && r.apply is None && (r.response matches Ok(
                    IpcResponse::AllWallpapers { entries },
                ) && entries@ == old(self).paths@) && final(self).paths@ == old(self).paths@
                    && same_timing(*old(self), *final(self)),
                IpcMessage::CurrentInterval => !r.stop && r.apply is None && (r.response matches Ok(
                    IpcResponse::CurrentInterval { is_paused, interval, elapsed },
                ) && is_paused == old(self).is_paused && interval == old(self).interval
                    && elapsed == clamp_u64(
                    elapsed_ms(
                        old(self).is_paused,
                        old(self).last_update,
                        old(self).last_pause,
                        old(self).last_resume,
                        now,
                    ),
                )) && final(self).paths@ == old(self).paths@ && same_timing(
                    *old(self),
                    *final(self),
                ),
            },
    {
        match msg {
            IpcMessage::StopDaemon => Reply { response: Ok(IpcResponse::Ack), apply: None, stop: true },
            IpcMessage::PausePlay => {
                self.pause(now);
                Reply { response: Ok(IpcResponse::Ack), apply: None, stop: false }
            },
            IpcMessage::ResumePlay => {
                self.resume(now);
                Reply { response: Ok(IpcResponse::Ack), apply: None, stop: false }
            },
            IpcMessage::NextWallpaper => {
                rotate_forward(&mut self.paths);
                let apply = self.mark_manual(now);
                Reply { response: Ok(IpcResponse::Ack), apply, stop: false }
            },
            IpcMessage::PreviousWallpaper => {
                rotate_backward(&mut self.paths);
                let apply = self.mark_manual(now);
                Reply { response: Ok(IpcResponse::Ack), apply, stop: false }
            },
            IpcMessage::GoToWallpaper { path } => {
                match jump_to(&mut self.paths, &path) {
                    Ok(()) => {
                        let apply = self.mark_manual(now);
                        Reply { response: Ok(IpcResponse::Ack), apply, stop: false }
                    },
                    Err(e) => Reply { response: Err(e), apply: None, stop: false },
                }
            },
            IpcMessage::MoveWallpaperToIndex { path, index } => {
                match move_to_index(&mut self.paths, &path, index) {
                    Ok(changed) => {
                        let apply = if changed {
                            self.mark_manual(now)
                        } else {
                            None
                        };
                        Reply { response: Ok(IpcResponse::Ack), apply, stop: false }
                    },
                    Err(e) => Reply { response: Err(e), apply: None, stop: false },
                }
            },
            IpcMessage::AllWallpapers => {
                let entries = self.paths.clone();
                Reply { response: Ok(IpcResponse::AllWallpapers { entries }), apply: None, stop: false }
            },
            IpcMessage::CurrentInterval => {
                let elapsed = self.elapsed(now);
                Reply {
                    response: Ok(
                        IpcResponse::CurrentInterval {
                            is_paused: self.is_paused,
                            interval: self.interval,
                            elapsed,
                        },
                    ),
                    apply: None,
                    stop: false,
                }
            },
        }
    }

    /// One fire of the rotation timer at `now`: clears a pause episode that was
    /// already accounted for, then waits briefly while paused, re-arms for the
    /// rest of the interval after a manual change or a pause, and otherwise
    /// advances to the next image and re-arms for a full interval.
    pub fn on_timer(&mut self, now: u64) -> (r: TimerAction)
        ensures
            same_config(*old(self), *final(self)),
            ({
                let lp = if old(self).waiting_after_pause { None } else { old(self).last_pause };
                let lr = if old(self).waiting_after_pause { None } else { old(self).last_resume };
                let rest = remaining_ms(
                    old(self).interval,
                    old(self).is_paused,
                    old(self).last_update,
                    lp,
                    lr,
                    now,
                );
                &&& final(self).is_paused == old(self).is_paused
                &&& final(self).last_pause == lp
                &&& final(self).last_resume == lr
                &&& if old(self).is_paused {
                    &&& r.rearm_ms == PAUSED_POLL_MS
                    &&& r.apply is None
                    &&& final(self).paths@ == old(self).paths@
                    &&& final(self).last_update == old(self).last_update
                    &&& !final(self).waiting_after_pause
                    &&& final(self).skip_after_manual == old(self).skip_after_manual
                } else if old(self).skip_after_manual {
                    &&& r.rearm_ms == rest
                    &&& r.apply is None
                    &&& final(self).paths@ == old(self).paths@
                    &&& final(self).last_update == old(self).last_update
                    &&& !final(self).waiting_after_pause
                    &&& !final(self).skip_after_manual
                } else if lp is Some {
                    &&& r.rearm_ms == rest
                    &&& r.apply is None
                    &&& final(self).paths@ == old(self).paths@
                    &&& final(self).last_update == old(self).last_update
                    &&& final(self).waiting_after_pause
                    &&& !final(self).skip_after_manual
                } else {
                    &&& r.rearm_ms == old(self).interval
                    &&& final(self).paths@ == rotated_forward(old(self).paths@)
                    &&& !final(self).waiting_after_pause
                    &&& !final(self).skip_after_manual
                    &&& if final(self).paths@.len() > 0 {
                        &&& (r.apply matches Some(p) && p@ == final(self).paths@[0]@)
                        &&& final(self).last_update == Some(now)
                    } else {
                        &&& r.apply is None
                        &&& final(self).last_update == old(self).last_update
                    }
                }
            }),
    {
        if self.waiting_after_pause {
            self.last_pause = None;
            self.last_resume = None;
            self.waiting_after_pause = false;
        }
        if self.is_paused {
            return TimerAction { rearm_ms: PAUSED_POLL_MS, apply: None };
        }
        if self.skip_after_manual {
            self.skip_after_manual = false;
            let rest = self.remaining_until_next_rotation(now);
            return TimerAction { rearm_ms: rest, apply: None };
        }
        if self.last_pause.is_some() {
            self.waiting_after_pause = true;
            let rest = self.remaining_until_next_rotation(now);
            return TimerAction { rearm_ms: rest, apply: None };
        }
        rotate_forward(&mut self.paths);
        let apply = if self.paths.len() > 0 {
            self.last_update = Some(now);
            Some(self.paths[0].clone())
        } else {
            None
        };
        TimerAction { rearm_ms: self.interval, apply }
    }
}

} // verus!
