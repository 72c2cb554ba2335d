use playdate::api::{
    TimerState, auto_lock_disabled_flag, crank_sounds_disabled_flag, crank_sounds_from_flag,
    display_mosaic_is_valid, display_scale_is_valid, menu_image_xoffset, AutoLock, CrankSounds,
};
use playdate::cstring::{CStr, CString};
use playdate::error::Error;
use playdate::files::{
    file_path_stat_from_device, file_stat_from_device, read_step, FilePathStat,
    FilePathTimestamp, FileTimestamp, FileWriter, ListFilesIterator, ReadStep, WriteRequest,
};
use playdate::geometry::{lcd_rect_from_rect, LcdRect, Rect, Vector3};
use playdate::menu::{Action, MenuCallbackKeys, MenuItem};
use playdate::callbacks::Callbacks;
use playdate::null_terminated::ToNullTerminatedString;

#[test]
fn auto_lock_and_crank_sound_flags() {
    assert_eq!(auto_lock_disabled_flag(AutoLock::Disabled), 1);
    assert_eq!(auto_lock_disabled_flag(AutoLock::Enabled), 0);
    assert_eq!(crank_sounds_disabled_flag(CrankSounds::Silent), 1);
    assert_eq!(crank_sounds_disabled_flag(CrankSounds::DockingSounds), 0);
    assert_eq!(crank_sounds_from_flag(0), CrankSounds::DockingSounds);
    assert_eq!(crank_sounds_from_flag(1), CrankSounds::Silent);
    assert_eq!(crank_sounds_from_flag(-3), CrankSounds::Silent);
    for v in [CrankSounds::Silent, CrankSounds::DockingSounds] {
        assert_eq!(crank_sounds_from_flag(crank_sounds_disabled_flag(v)), v);
    }
}

#[test]
fn menu_image_offset_is_clamped() {
    assert_eq!(menu_image_xoffset(-5), 0);
    assert_eq!(menu_image_xoffset(0), 0);
    assert_eq!(menu_image_xoffset(150), 150);
    assert_eq!(menu_image_xoffset(200), 200);
    assert_eq!(menu_image_xoffset(201), 200);
}

#[test]
fn display_settings_validation() {
    for s in [1, 2, 4, 8] {
        assert!(display_scale_is_valid(s));
    }
    for s in [0, 3, 5, 16] {
        assert!(!display_scale_is_valid(s));
    }
    assert!(display_mosaic_is_valid(3, 0));
    assert!(!display_mosaic_is_valid(4, 0));
    assert!(!display_mosaic_is_valid(0, 4));
}

#[test]
fn cstring_appends_nul() {
    let c = CString::new("hi").unwrap();
    assert_eq!(c.as_bytes_with_nul(), b"hi\0");
    assert_eq!(c.as_c_str().to_bytes_with_nul(), b"hi\0");
    assert!(CString::new("a\0b").is_none());
    assert_eq!(CString::new("").unwrap().as_bytes_with_nul(), b"\0");
}

#[test]
fn cstring_bytes_are_a_cstr() {
    let c = CString::new("hello").unwrap();
    assert!(CStr::from_bytes_with_nul(c.as_bytes_with_nul()).is_some());
}

#[test]
fn cstr_validation() {
    assert!(CStr::from_bytes_with_nul(b"abc\0").is_some());
    assert_eq!(CStr::from_bytes_with_nul(b"abc\0").unwrap().to_bytes_with_nul(), b"abc\0");
    assert!(CStr::from_bytes_with_nul(b"\0").is_some());
    assert!(CStr::from_bytes_with_nul(b"abc").is_none());
    assert!(CStr::from_bytes_with_nul(b"a\0c\0").is_none());
}

#[test]
fn null_terminated_utf8() {
    assert_eq!("héllo".to_null_terminated_utf8(), "héllo\0".as_bytes().to_vec());
    assert_eq!(String::from("ab").to_null_terminated_utf8(), vec![b'a', b'b', 0]);
    assert_eq!("".to_null_terminated_utf8(), vec![0]);
}

#[test]
fn error_display_strings() {
    assert_eq!(Error::NotFoundError.to_display_string(), "not found");
    assert_eq!(Error::AlreadyAttachedError.to_display_string(), "already attached");
    assert_eq!(Error::LoadMidiFileError.to_display_string(), "MIDI file failed to load");
    assert_eq!(Error::from(String::from("oops")).to_display_string(), "oops");
    assert!(matches!(Error::from(String::from("x")), Error::String(_)));
    assert_eq!(Error::from("from a str").to_display_string(), "from a str");
    let err: Error = "into".into();
    assert!(matches!(err, Error::String(ref s) if s == "into"));
    let mut owned = String::from("mutable");
    let e = Error::from(owned.as_mut_str());
    assert!(matches!(e, Error::String(ref s) if s == "mutable"));
}

#[test]
fn file_stat_conversion() {
    let t = FilePathTimestamp { year: 2022, month: 3, day: 4, hour: 5, minute: 6, second: 7 };
    assert_eq!(file_path_stat_from_device(1, 99, t), FilePathStat::Folder { modified: t });
    assert_eq!(file_path_stat_from_device(0, 99, t), FilePathStat::File { size: 99, modified: t });
    let t2 = FileTimestamp { year: 1, month: 2, day: 3, hour: 4, minute: 5, second: 6 };
    let s = file_stat_from_device(5, 10, t2);
    assert!(s.is_folder);
    assert_eq!(s.size, 10);
    assert_eq!(s.modified, t2);
    assert!(!file_stat_from_device(0, 10, t2).is_folder);
}

#[test]
fn list_files_hands_out_names_in_order() {
    let mut it = ListFilesIterator::from_names(vec![String::from("a.txt"), String::from("dir/")]);
    assert_eq!(it.next(), Some(String::from("a.txt")));
    assert_eq!(it.next(), Some(String::from("dir/")));
    assert_eq!(it.next(), None);
    assert_eq!(it.next(), None);
}

#[test]
fn read_steps() {
    let mut out = vec![9u8];
    let buf = [1u8, 2, 3, 4];
    assert_eq!(read_step(&mut out, &buf, 3), ReadStep::Continue);
    assert_eq!(out, vec![9, 1, 2, 3]);
    assert_eq!(read_step(&mut out, &buf, 0), ReadStep::Done);
    assert_eq!(read_step(&mut out, &buf, -1), ReadStep::Failed);
    assert_eq!(out, vec![9, 1, 2, 3]);
}

#[test]
fn writer_walks_chunks() {
    let mut w = FileWriter::new(600);
    assert_eq!(w.next_write(), Some(WriteRequest { start: 0, len: 256 }));
    assert!(w.on_written(100));
    assert_eq!(w.next_write(), Some(WriteRequest { start: 100, len: 156 }));
    assert!(w.on_written(156));
    assert_eq!(w.next_write(), Some(WriteRequest { start: 256, len: 256 }));
    assert!(w.on_written(256));
    assert_eq!(w.next_write(), Some(WriteRequest { start: 512, len: 88 }));
    assert!(!w.on_written(-1));
    assert_eq!(w.next_write(), Some(WriteRequest { start: 512, len: 88 }));
    assert!(w.on_written(88));
    assert_eq!(w.next_write(), None);
    assert_eq!(FileWriter::new(0).next_write(), None);
}

#[test]
fn partial_writes_send_the_contents_in_order() {
    let contents: Vec<u8> = (0..700u32).map(|i| (i % 251) as u8).collect();
    let mut w = FileWriter::new(contents.len());
    let mut sent: Vec<u8> = Vec::new();
    let mut calls = 0;
    while let Some(req) = w.next_write() {
        assert!(req.len <= 256);
        // The device takes at most 70 bytes per call.
        let taken = if req.len < 70 { req.len } else { 70 };
        sent.extend_from_slice(&contents[req.start..req.start + taken]);
        assert!(w.on_written(taken as i32));
        calls += 1;
    }
    assert_eq!(sent, contents);
    assert_eq!(calls, 11);
}

#[test]
fn lcd_rect_bounds_are_inclusive() {
    let r = lcd_rect_from_rect(Rect { x: 10, y: 20, width: 30, height: 40 });
    assert_eq!(r, LcdRect { left: 10, top: 20, right: 39, bottom: 59 });
    let v = Vector3 { x: 1, y: 2, z: 3 };
    assert_eq!(v, Vector3 { x: 1, y: 2, z: 3 });
    assert_eq!(Vector3::<i32>::default(), Vector3 { x: 0, y: 0, z: 0 });
}

#[test]
fn menu_keys_are_unique() {
    let mut keys = MenuCallbackKeys::new();
    assert_eq!(keys.make_callback_key(), 1);
    assert_eq!(keys.make_callback_key(), 2);
    let mut callbacks: Callbacks<u8, u8> = Callbacks::new();
    let key = keys.make_callback_key();
    let reg = callbacks.add_menu_item(key, 1);
    let item: MenuItem<Action> = MenuItem::new(0x1000, reg);
    assert_eq!(item.cptr(), 0x1000);
}

#[test]
fn write_succeeds_only_when_all_taken_and_closed() {
    let mut w = FileWriter::new(10);
    assert!(!w.succeeded(true));
    assert!(w.on_written(4));
    assert!(!w.succeeded(true));
    assert!(w.on_written(6));
    assert!(w.succeeded(true));
    assert!(!w.succeeded(false));
    assert!(FileWriter::new(0).succeeded(true));
}

#[test]
fn only_one_timer_at_a_time() {
    let mut t = TimerState::new();
    assert!(t.start());
    assert!(!t.start());
    t.finish();
    assert!(t.start());
}

#[test]
fn menu_keys_can_be_made() {
    let mut keys = MenuCallbackKeys::new();
    assert!(keys.can_make_key());
    assert_eq!(keys.make_callback_key(), 1);
    assert!(keys.can_make_key());
}

#[test]
fn error_debug_strings() {
    assert_eq!(Error::NotFoundError.to_debug_string(), "Error(NotFoundError)");
    assert_eq!(Error::AlreadyAttachedError.to_debug_string(), "Error(AlreadyAttachedError)");
    assert_eq!(Error::LoadMidiFileError.to_debug_string(), "Error(LoadMidiFileError");
    assert_eq!(
        Error::String(String::from("say \"hi\"\n")).to_debug_string(),
        "Error(String(\"say \\\"hi\\\"\\n\"))"
    );
}
