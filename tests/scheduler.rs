use wallpaper_manager::playlist::{jump_to, move_to_index, rotate_backward, rotate_forward};
use wallpaper_manager::protocol::{IpcError, IpcMessage, IpcResponse};
use wallpaper_manager::session::{WallpaperDaemon, WallpaperManager};
use wallpaper_manager::shuffle::shuffle;

fn abc() -> Vec<String> {
    vec!["a".to_string(), "b".to_string(), "c".to_string()]
}

fn manager(interval: u64) -> WallpaperManager {
    let mut m = WallpaperManager::new(
        "/walls".to_string(),
        interval,
        WallpaperDaemon::Swww,
        "/run/wm.sock".to_string(),
    );
    m.paths = abc();
    m
}

#[test]
fn rotate_forward_then_backward_restores() {
    let mut p = abc();
    rotate_forward(&mut p);
    assert_eq!(p, vec!["b", "c", "a"]);
    rotate_backward(&mut p);
    assert_eq!(p, abc());
}

#[test]
fn rotate_backward_moves_last_to_front() {
    let mut p = abc();
    rotate_backward(&mut p);
    assert_eq!(p, vec!["c", "a", "b"]);
    let mut e: Vec<String> = Vec::new();
    rotate_forward(&mut e);
    rotate_backward(&mut e);
    assert!(e.is_empty());
}

#[test]
fn jump_to_existing_makes_it_current() {
    let mut p = abc();
    assert!(jump_to(&mut p, &"c".to_string()).is_ok());
    assert_eq!(p, vec!["c", "a", "b"]);
    assert!(jump_to(&mut p, &"b".to_string()).is_ok());
    assert_eq!(p, vec!["b", "c", "a"]);
}

#[test]
fn jump_to_missing_leaves_playlist() {
    let mut p = abc();
    match jump_to(&mut p, &"z".to_string()) {
        Err(IpcError::PathNotAdded { path }) => assert_eq!(path, "z"),
        _ => panic!("expected an error"),
    }
    assert_eq!(p, abc());
}

#[test]
fn move_to_front_changes_current() {
    let mut p = abc();
    assert!(matches!(move_to_index(&mut p, &"c".to_string(), 0), Ok(true)));
    assert_eq!(p, vec!["c", "a", "b"]);
}

#[test]
fn move_to_back_keeps_current() {
    let mut p = abc();
    assert!(matches!(move_to_index(&mut p, &"b".to_string(), 2), Ok(false)));
    assert_eq!(p, vec!["a", "c", "b"]);
}

#[test]
fn move_past_end_is_clamped() {
    let mut p = abc();
    assert!(matches!(move_to_index(&mut p, &"a".to_string(), 99), Ok(true)));
    assert_eq!(p, vec!["b", "c", "a"]);
    assert!(matches!(
        move_to_index(&mut p, &"q".to_string(), 0),
        Err(IpcError::PathNotAdded { .. })
    ));
    assert_eq!(p, vec!["b", "c", "a"]);
}

#[test]
fn scenario_move_request_applies_only_when_front_changes() {
    let mut m = manager(1000);
    let r = m.handle_request(IpcMessage::MoveWallpaperToIndex { path: "c".to_string(), index: 0 }, 5);
    assert_eq!(r.apply, Some("c".to_string()));
    assert!(m.skip_after_manual);
    assert_eq!(m.last_update, Some(5));
    let mut m = manager(1000);
    let r = m.handle_request(IpcMessage::MoveWallpaperToIndex { path: "b".to_string(), index: 2 }, 5);
    assert_eq!(r.apply, None);
    assert_eq!(m.paths, vec!["a", "c", "b"]);
    assert!(!m.skip_after_manual);
}

#[test]
fn scenario_next_then_timer() {
    let mut m = manager(1000);
    let r = m.handle_request(IpcMessage::NextWallpaper, 0);
    assert!(matches!(r.response, Ok(IpcResponse::Ack)));
    assert_eq!(r.apply, Some("b".to_string()));
    assert!(m.skip_after_manual);
    let t = m.on_timer(0);
    assert_eq!(t.apply, None);
    assert_eq!(t.rearm_ms, 1000);
    assert_eq!(m.paths[0], "b");
    let t = m.on_timer(1000);
    assert_eq!(t.apply, Some("c".to_string()));
    assert_eq!(t.rearm_ms, 1000);
    assert_eq!(m.paths[0], "c");
}

#[test]
fn scenario_pause_resume_remaining() {
    let mut m = manager(1000);
    m.last_update = Some(0);
    m.pause(0);
    m.resume(500);
    assert_eq!(m.remaining_until_next_rotation(600), 900);
    assert_eq!(m.elapsed(600), 100);
    let t = m.on_timer(600);
    assert_eq!(t.rearm_ms, 900);
    assert!(m.waiting_after_pause);
    let t = m.on_timer(1500);
    assert_eq!(m.last_pause, None);
    assert_eq!(m.last_resume, None);
    assert_eq!(t.apply, Some("b".to_string()));
}

#[test]
fn timer_while_paused_polls() {
    let mut m = manager(1000);
    let r = m.handle_request(IpcMessage::PausePlay, 10);
    assert!(matches!(r.response, Ok(IpcResponse::Ack)));
    let t = m.on_timer(20);
    assert_eq!(t.rearm_ms, 10);
    assert_eq!(t.apply, None);
    assert_eq!(m.paths, abc());
}

#[test]
fn pausing_twice_keeps_first_pause() {
    let mut m = manager(1000);
    m.pause(100);
    m.pause(300);
    assert!(m.is_paused);
    assert_eq!(m.last_pause, Some(100));
    m.resume(400);
    m.resume(700);
    assert_eq!(m.last_resume, Some(400));
}

#[test]
fn remaining_is_never_negative() {
    let mut m = manager(1000);
    m.last_update = Some(0);
    assert_eq!(m.remaining_until_next_rotation(0), 1000);
    assert_eq!(m.remaining_until_next_rotation(999), 1);
    assert_eq!(m.remaining_until_next_rotation(5000), 0);
    assert_eq!(m.remaining_until_next_rotation(u64::MAX), 0);
}

#[test]
fn scenario_status_at_start() {
    let mut m = manager(1000);
    let r = m.handle_request(IpcMessage::CurrentInterval, 12345);
    match r.response {
        Ok(IpcResponse::CurrentInterval { is_paused, interval, elapsed }) => {
            assert!(!is_paused);
            assert_eq!(interval, 1000);
            assert_eq!(elapsed, 0);
        }
        _ => panic!("expected a status"),
    }
}

#[test]
fn goto_and_list_requests() {
    let mut m = manager(1000);
    let r = m.handle_request(IpcMessage::GoToWallpaper { path: "c".to_string() }, 7);
    assert_eq!(r.apply, Some("c".to_string()));
    let r = m.handle_request(IpcMessage::GoToWallpaper { path: "x".to_string() }, 8);
    assert!(matches!(r.response, Err(IpcError::PathNotAdded { .. })));
    assert_eq!(r.apply, None);
    assert_eq!(m.last_update, Some(7));
    let r = m.handle_request(IpcMessage::AllWallpapers, 9);
    match r.response {
        Ok(IpcResponse::AllWallpapers { entries }) => assert_eq!(entries, vec!["c", "a", "b"]),
        _ => panic!("expected a listing"),
    }
    let r = m.handle_request(IpcMessage::PreviousWallpaper, 10);
    assert_eq!(r.apply, Some("b".to_string()));
    let r = m.handle_request(IpcMessage::StopDaemon, 11);
    assert!(r.stop);
}

#[test]
fn empty_playlist_never_applies() {
    let mut m = WallpaperManager::new(String::new(), 1000, WallpaperDaemon::Hyprpaper, String::new());
    let r = m.handle_request(IpcMessage::NextWallpaper, 1);
    assert_eq!(r.apply, None);
    let t = m.on_timer(2);
    assert_eq!(t.apply, None);
    assert_eq!(t.rearm_ms, 1000);
}

#[test]
fn shuffle_keeps_entries() {
    let mut v: Vec<u32> = (0..50).collect();
    shuffle(&mut v);
    let mut s = v.clone();
    s.sort();
    assert_eq!(s, (0..50).collect::<Vec<u32>>());
    let mut one = vec![7u32];
    shuffle(&mut one);
    assert_eq!(one, vec![7]);
    let mut none: Vec<u32> = Vec::new();
    shuffle(&mut none);
    assert!(none.is_empty());
}
