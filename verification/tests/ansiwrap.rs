use vkot_client::ansiwrap::{
    size_conv, Debugger, FrameLock, Msg, RecvType, VteMaster, WinSize, FORCE_AFTER, FTIME,
};
use vkot_client::client::{Client, ReadHalf};
use vkot_client::key::{SkType, Skey, MOD_ALT};
use vkot_client::msg::{DecodeError, ServerMsg};

fn terminal(w: i16, h: i16) -> VteMaster {
    VteMaster::new(ServerMsg::Resized([w, h])).unwrap().0
}

fn key(master: &mut VteMaster, down: bool, ty: SkType, shift: bool) -> vkot_client::ansiwrap::Reply {
    master.proc_msg(Msg::Vtc(ServerMsg::Skey([0, 0])), Some(Skey { down, ty }), shift)
}

#[test]
fn size_conv_puts_rows_first_and_leaves_pixels_zero() {
    assert_eq!(
        size_conv([80, 24]),
        WinSize { ws_row: 24, ws_col: 80, ws_xpixel: 0, ws_ypixel: 0 }
    );
    assert_eq!(
        size_conv([0, 0]),
        WinSize { ws_row: 0, ws_col: 0, ws_xpixel: 0, ws_ypixel: 0 }
    );
}

#[test]
fn terminal_starts_from_a_resize() {
    let (m, first) = VteMaster::new(ServerMsg::Resized([10, 3])).unwrap();
    assert_eq!(m.va.wh.size(), [10, 3]);
    assert_eq!(m.va.wh.cursor(), [0, 0]);
    assert_eq!(m.ws, WinSize { ws_row: 3, ws_col: 10, ws_xpixel: 0, ws_ypixel: 0 });
    assert!(!m.alt_on);
    assert_eq!(m.va.wh.damage().data(), [0, 0, 10, 3]);
    assert_eq!(first.len(), 1 + 8 + 80 * 24 * 16 + 5);
    assert_eq!(&first[..9], &[2, 0, 0, 0, 0, 80, 0, 24, 0]);
    assert_eq!(&first[first.len() - 5..], &[0, 0, 0, 0, 0]);
}

#[test]
fn terminal_does_not_start_from_another_message() {
    assert!(VteMaster::new(ServerMsg::Getch(0x61)).is_none());
    assert!(VteMaster::new(ServerMsg::Skey([0, 0])).is_none());
}

#[test]
fn terminal_does_not_start_from_a_size_without_cells() {
    assert!(VteMaster::new(ServerMsg::Resized([0, 24])).is_none());
    assert!(VteMaster::new(ServerMsg::Resized([80, 0])).is_none());
    assert!(VteMaster::new(ServerMsg::Resized([-1, 5])).is_none());
    assert!(VteMaster::new(ServerMsg::Resized([1, 1])).is_some());
    assert!(VteMaster::new(ServerMsg::Resized([i16::MAX, 1])).is_some());
}

#[test]
fn exit_ends_the_loop() {
    let mut m = terminal(10, 3);
    let r = m.proc_msg(Msg::Exit, None, false);
    assert!(r.exit);
    assert!(r.pty.is_empty() && r.winsize.is_none() && !r.track);
}

#[test]
fn getch_of_127_or_more_writes_nothing_and_keeps_alt() {
    let mut m = terminal(10, 3);
    key(&mut m, true, SkType::Modifier(MOD_ALT), false);
    for ch in [127u32, 128, 0x6F22, u32::MAX] {
        let r = m.proc_msg(Msg::Vtc(ServerMsg::Getch(ch)), None, false);
        assert!(r.pty.is_empty());
        assert!(m.alt_on);
    }
    let r = m.proc_msg(Msg::Vtc(ServerMsg::Getch(126)), None, false);
    assert_eq!(r.pty, vec![0x1B, 126]);
    let r = m.proc_msg(Msg::Vtc(ServerMsg::Getch(0)), None, false);
    assert_eq!(r.pty, vec![0]);
}

#[test]
fn on_getch_gives_the_bytes_for_the_child() {
    let mut m = terminal(10, 3);
    assert_eq!(m.on_getch(0x0D), vec![0x0D]);
    m.alt_on = true;
    assert_eq!(m.on_getch(0x78), vec![0x1B, 0x78]);
    assert!(!m.alt_on);
}

#[test]
fn resized_resizes_the_screen_and_asks_for_the_window_size() {
    let mut m = terminal(10, 3);
    let r = m.proc_msg(Msg::Vtc(ServerMsg::Resized([120, 40])), None, false);
    let ws = WinSize { ws_row: 40, ws_col: 120, ws_xpixel: 0, ws_ypixel: 0 };
    assert_eq!(r.winsize, Some(ws));
    assert_eq!(m.ws, ws);
    assert_eq!(m.va.wh.size(), [120, 40]);
    assert!(!r.exit && r.pty.is_empty() && !r.track);
}

#[test]
fn resized_without_cells_is_ignored() {
    let mut m = terminal(10, 3);
    for size in [[0i16, 5i16], [5, 0], [-3, 4], [4, i16::MIN]] {
        let r = m.proc_msg(Msg::Vtc(ServerMsg::Resized(size)), None, false);
        assert!(r.winsize.is_none());
        assert_eq!(m.va.wh.size(), [10, 3]);
        assert_eq!(m.ws, WinSize { ws_row: 3, ws_col: 10, ws_xpixel: 0, ws_ypixel: 0 });
    }
}

#[test]
fn arrow_keys_write_their_sequences() {
    let mut m = terminal(10, 3);
    assert_eq!(key(&mut m, true, SkType::Direction(0), false).pty, b"\x1b[D".to_vec());
    assert_eq!(key(&mut m, true, SkType::Direction(1), false).pty, b"\x1b[A".to_vec());
    assert_eq!(key(&mut m, true, SkType::Direction(2), false).pty, b"\x1b[C".to_vec());
    assert_eq!(key(&mut m, true, SkType::Direction(3), false).pty, b"\x1b[B".to_vec());
    for d in [4u8, 5, 6, 7, 8, 255] {
        assert!(key(&mut m, true, SkType::Direction(d), false).pty.is_empty());
    }
}

#[test]
fn key_going_up_writes_nothing() {
    let mut m = terminal(10, 3);
    for d in 0..8u8 {
        let r = key(&mut m, false, SkType::Direction(d), true);
        assert!(r.pty.is_empty() && !r.track);
    }
    assert_eq!(m.va.wh.histcur(), 0);
}

#[test]
fn undecodable_key_is_dropped() {
    let mut m = terminal(10, 3);
    m.alt_on = true;
    let r = m.proc_msg(Msg::Vtc(ServerMsg::Skey([9, 9])), None, true);
    assert!(!r.exit && r.pty.is_empty() && r.winsize.is_none() && !r.track);
    assert!(m.alt_on);
}

#[test]
fn shift_page_keys_move_through_the_scrollback() {
    let mut m = terminal(4, 4);
    m.proc_msg(Msg::CmdRead(b"1\n2\n3\n4\n5\n6\n7".to_vec()), None, false);
    assert_eq!(m.va.wh.history_len(), 3);
    key(&mut m, true, SkType::Direction(6), false);
    assert_eq!(m.va.wh.histcur(), 0);
    key(&mut m, true, SkType::Direction(6), true);
    assert_eq!(m.va.wh.histcur(), 2);
    key(&mut m, true, SkType::Direction(6), true);
    assert_eq!(m.va.wh.histcur(), 3);
    key(&mut m, true, SkType::Direction(7), true);
    assert_eq!(m.va.wh.histcur(), 1);
    key(&mut m, true, SkType::Direction(7), false);
    assert_eq!(m.va.wh.histcur(), 1);
    key(&mut m, true, SkType::Direction(7), true);
    assert_eq!(m.va.wh.histcur(), 0);
}

#[test]
fn alt_goes_on_with_its_key_down_and_off_with_its_key_up() {
    let mut m = terminal(10, 3);
    let r = key(&mut m, true, SkType::Modifier(3), false);
    assert!(m.alt_on && !r.track);
    let r = key(&mut m, false, SkType::Modifier(3), false);
    assert!(!m.alt_on && !r.track);
    let r = m.proc_msg(Msg::Vtc(ServerMsg::Getch('a' as u32)), None, false);
    assert_eq!(r.pty, vec![0x61]);
}

#[test]
fn other_modifiers_are_left_to_the_tracker() {
    let mut m = terminal(10, 3);
    for n in [0u8, 1, 2, 4, 255] {
        let r = key(&mut m, true, SkType::Modifier(n), false);
        assert!(r.track && r.pty.is_empty());
        let r = key(&mut m, false, SkType::Modifier(n), false);
        assert!(r.track && r.pty.is_empty());
        assert!(!m.alt_on);
    }
    assert!(!key(&mut m, true, SkType::Other, false).track);
    assert!(!key(&mut m, true, SkType::Direction(1), false).track);
}

#[test]
fn frame_lock_starts_without_waiting() {
    let lock = FrameLock::new();
    assert_eq!(lock, FrameLock { tryr: RecvType::Nonblock, send_counter: 0 });
    assert_eq!((FTIME, FORCE_AFTER), (10, 100));
}

#[test]
fn frame_lock_counts_messages_and_flushes_at_a_hundred_if_late() {
    let mut lock = FrameLock::new();
    for n in 1..=100u32 {
        assert!(!lock.on_message(1000));
        assert_eq!(lock.send_counter, n);
        assert_eq!(lock.tryr, RecvType::Nonblock);
    }
    assert!(lock.on_message(11));
    assert_eq!(lock.send_counter, 0);
    for _ in 0..100 {
        assert!(!lock.on_message(11));
    }
    assert!(!lock.on_message(10));
    assert_eq!(lock.send_counter, 0);
    assert_eq!(lock.tryr, RecvType::Nonblock);
}

#[test]
fn frame_lock_waits_for_the_rest_of_the_interval() {
    let mut lock = FrameLock::new();
    assert!(!lock.on_empty(0));
    assert_eq!(lock.tryr, RecvType::Timeout(11));
    assert!(!lock.on_empty(4));
    assert_eq!(lock.tryr, RecvType::Timeout(7));
    assert!(!lock.on_empty(10));
    assert_eq!(lock.tryr, RecvType::Timeout(1));
    assert_eq!(lock.send_counter, 0);
}

#[test]
fn frame_lock_flushes_when_late_and_then_blocks() {
    let mut lock = FrameLock::new();
    lock.on_message(0);
    assert!(lock.on_empty(11));
    assert_eq!(lock.tryr, RecvType::Block);
    assert_eq!(lock.send_counter, 1);
    assert!(lock.on_empty(u64::MAX));
    assert!(!lock.on_message(5));
    assert_eq!(lock.tryr, RecvType::Nonblock);
}

#[test]
fn trace_shows_a_printable_byte_on_alternating_backgrounds() {
    let mut d = Debugger::new(30);
    assert_eq!((d.state, d.sleep), (0, 30));
    assert_eq!(d.p(b'a'), b"\x1b[48;5;18ma\x1b[0m".to_vec());
    assert_eq!(d.state, 1);
    assert_eq!(d.p(b'b'), b"\x1b[48;5;22mb\x1b[0m".to_vec());
    assert_eq!(d.state, 0);
    assert_eq!(d.sleep, 30);
}

#[test]
fn trace_shows_a_control_byte_as_backslash_and_number() {
    let mut d = Debugger::new(0);
    assert_eq!(d.p(0x1B), b"\x1b[48;5;18m\\27\x1b[0m".to_vec());
    assert_eq!(d.p(0), b"\x1b[48;5;22m\\0\x1b[0m".to_vec());
    assert_eq!(d.p(127), b"\x1b[48;5;18m\\127\x1b[0m".to_vec());
    assert_eq!(d.p(10), b"\x1b[48;5;22m\\10\x1b[0m".to_vec());
}

#[test]
fn trace_shows_a_high_byte_as_its_character_in_utf8() {
    let mut d = Debugger::new(0);
    let mut want = b"\x1b[48;5;18m".to_vec();
    want.extend_from_slice("\u{e9}".as_bytes());
    want.extend_from_slice(b"\x1b[0m");
    assert_eq!(d.p(0xE9), want);
    for b in [0x80u8, 0xBF, 0xC0, 0xFF] {
        let text = d.p(b);
        let shown = std::str::from_utf8(&text[10..text.len() - 4]).unwrap();
        assert_eq!(shown, format!("{}", b as char));
    }
}

#[test]
fn queue_gives_messages_in_order() {
    let mut rh = ReadHalf::new();
    assert_eq!(rh.poll_event(), None);
    let mut buf = ServerMsg::Getch(1).encode();
    buf.extend(ServerMsg::Resized([2, 3]).encode());
    buf.extend(ServerMsg::Skey([4, 5]).encode());
    assert_eq!(rh.feed(&buf), Some(ServerMsg::Getch(1)));
    assert_eq!(rh.poll_event(), Some(ServerMsg::Resized([2, 3])));
    assert_eq!(rh.feed(&ServerMsg::Getch(9).encode()), Some(ServerMsg::Skey([4, 5])));
    assert_eq!(rh.poll_event(), Some(ServerMsg::Getch(9)));
    assert_eq!(rh.poll_event(), None);
}

#[test]
fn queue_drops_a_read_that_does_not_decode() {
    let mut rh = ReadHalf::new();
    assert_eq!(rh.feed(&[2, 1, 1, 9, 0]), None);
    assert_eq!(rh.poll_event(), None);
    assert_eq!(rh.feed(&[0, 1]), None);
    assert_eq!(rh.feed(&[]), None);
    assert_eq!(rh.feed(&[2, 7, 8]), Some(ServerMsg::Skey([7, 8])));
}

#[test]
fn client_splits_into_its_halves() {
    let client = Client::default();
    assert_eq!(client.wh.size(), [80, 24]);
    let (mut rh, wh) = client.unwrap();
    assert_eq!(rh.poll_event(), None);
    assert_eq!(wh.cursor(), [0, 0]);
}

#[test]
fn queue_tells_why_a_read_does_not_decode() {
    let mut rh = ReadHalf::new();
    assert_eq!(rh.try_feed(&[2, 1, 1, 9, 0]), Err(DecodeError::UnknownTag(9)));
    assert_eq!(rh.try_feed(&[0, 1]), Err(DecodeError::Truncated));
    assert_eq!(rh.poll_event(), None);
    assert_eq!(rh.try_feed(&[]), Ok(None));
    assert_eq!(rh.try_feed(&[2, 7, 8, 2, 1, 1]), Ok(Some(ServerMsg::Skey([7, 8]))));
    assert_eq!(rh.try_feed(&[3]), Err(DecodeError::UnknownTag(3)));
    assert_eq!(rh.poll_event(), Some(ServerMsg::Skey([1, 1])));
}
