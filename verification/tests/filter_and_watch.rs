//! Tests for the event filter and the watch session.

use hotlib::events::{RawChangeEvent, RawEventKind, check_raw_event};
use hotlib::package::PackageInfo;
use hotlib::errors::NextError;
use hotlib::platform::Platform;
use hotlib::watch::{Watch, WatchMsg};

fn ev(kind: RawEventKind) -> RawChangeEvent {
    RawChangeEvent { kind, path: String::from("/proj/src/lib.rs") }
}

fn info() -> PackageInfo {
    PackageInfo {
        manifest_path: String::from("/proj/Cargo.toml"),
        src_path: String::from("/proj/src"),
        lib_name: String::from("foo"),
        target_dir_path: String::from("/proj/target"),
        platform: Platform::Linux,
        tmp_root: String::from("/tmp"),
    }
}

#[test]
fn filter_accepts_every_worthy_kind() {
    assert!(check_raw_event(&ev(RawEventKind::Create)));
    assert!(check_raw_event(&ev(RawEventKind::Remove)));
    assert!(check_raw_event(&ev(RawEventKind::Modify)));
    assert!(check_raw_event(&ev(RawEventKind::AccessCloseWrite)));
}

#[test]
fn filter_rejects_plain_access_and_other_kinds() {
    assert!(!check_raw_event(&ev(RawEventKind::AccessOther)));
    assert!(!check_raw_event(&ev(RawEventKind::Other)));
}

#[test]
fn watch_exposes_package_paths() {
    let (_tx, rx) = crossbeam_channel::unbounded::<WatchMsg>();
    let w = Watch::from_parts(info(), rx);
    assert_eq!(w.manifest_path(), "/proj/Cargo.toml");
    assert_eq!(w.src_path(), "/proj/src");
    let p = w.package();
    assert_eq!(p.manifest_path(), "/proj/Cargo.toml");
    assert_eq!(p.src_path(), "/proj/src");
}

#[test]
fn pending_wait_fires_once_for_access_modify_access() {
    let (tx, rx) = crossbeam_channel::unbounded::<WatchMsg>();
    let w = Watch::from_parts(info(), rx);
    tx.send(WatchMsg::Event(ev(RawEventKind::AccessOther))).unwrap();
    tx.send(WatchMsg::Event(ev(RawEventKind::Modify))).unwrap();
    tx.send(WatchMsg::Event(ev(RawEventKind::AccessOther))).unwrap();

    // The single modified event triggers exactly one signal.
    let first = w.try_next().unwrap();
    assert!(first.is_some());
    assert_eq!(first.unwrap().manifest_path(), "/proj/Cargo.toml");
    let second = w.try_next().unwrap();
    assert!(second.is_none());
}

#[test]
fn blocking_step_skips_unworthy_then_triggers() {
    let (tx, rx) = crossbeam_channel::unbounded::<WatchMsg>();
    let w = Watch::from_parts(info(), rx);
    tx.send(WatchMsg::Event(ev(RawEventKind::AccessOther))).unwrap();
    tx.send(WatchMsg::Event(ev(RawEventKind::AccessCloseWrite))).unwrap();

    assert!(w.next_step().is_none());
    match w.next_step() {
        Some(Ok(p)) => assert_eq!(p.src_path(), "/proj/src"),
        other => panic!("expected a triggered package, got {:?}", other.is_some()),
    }
}

#[test]
fn error_event_surfaces_as_notify_and_is_dropped() {
    let (tx, rx) = crossbeam_channel::unbounded::<WatchMsg>();
    let w = Watch::from_parts(info(), rx);
    tx.send(WatchMsg::Error(String::from("inotify queue overflow"))).unwrap();
    tx.send(WatchMsg::Event(ev(RawEventKind::Modify))).unwrap();

    match w.try_next() {
        Err(NextError::Notify { message }) => assert_eq!(message, "inotify queue overflow"),
        other => panic!("expected a notify error, got ok={:?}", other.is_ok()),
    }
    // The erroring event was dropped; the later worthy event still triggers.
    assert!(w.try_next().unwrap().is_some());
}

#[test]
fn closed_channel_surfaces_as_channel_closed() {
    let (tx, rx) = crossbeam_channel::unbounded::<WatchMsg>();
    let w = Watch::from_parts(info(), rx);
    drop(tx);
    assert!(matches!(w.try_next(), Err(NextError::ChannelClosed)));
    assert!(matches!(w.next_step(), Some(Err(NextError::ChannelClosed))));
}

#[test]
fn handle_msg_decides_each_message_kind() {
    let (_tx, rx) = crossbeam_channel::unbounded::<WatchMsg>();
    let w = Watch::from_parts(info(), rx);
    assert!(matches!(w.handle_msg(None), Some(Err(NextError::ChannelClosed))));
    assert!(w.handle_msg(Some(WatchMsg::Event(ev(RawEventKind::AccessOther)))).is_none());
    assert!(matches!(
        w.handle_msg(Some(WatchMsg::Event(ev(RawEventKind::Create)))),
        Some(Ok(_))
    ));
    assert!(matches!(
        w.handle_msg(Some(WatchMsg::Error(String::from("e")))),
        Some(Err(NextError::Notify { .. }))
    ));
}
