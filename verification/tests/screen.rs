use vkot_client::cell::Cell;
use vkot_client::client::{wide_from_width, wide_test, WriteHalf};
use vkot_client::region::Region;

fn screen(w: i16, h: i16) -> WriteHalf {
    let mut wh = WriteHalf::new();
    wh.resize([w, h]);
    wh.send_damage();
    wh
}

fn put_str(wh: &mut WriteHalf, s: &str) {
    for ch in s.chars() {
        wh.put(ch);
    }
}

fn row_text(wh: &WriteHalf, y: usize) -> String {
    let mut s = String::new();
    for x in 0..wh.size()[0] as usize {
        s.push(char::from_u32(wh.cell(x, y).unwrap().unicode_codepoint).unwrap());
    }
    s
}

fn check_invariants(wh: &WriteHalf) {
    let [w, h] = wh.size();
    assert!(w >= 1 && h >= 1);
    let [cx, cy] = wh.cursor();
    assert!(0 <= cx && cx < w && 0 <= cy && cy < h);
    assert!(wh.history_len() <= 10_000);
    assert!(wh.histcur() <= wh.history_len());
    for y in 0..h as usize {
        assert!(wh.cell(w as usize - 1, y).is_some());
        assert!(wh.cell(w as usize, y).is_none());
    }
    assert!(wh.cell(0, h as usize).is_none());
    let d = wh.damage();
    assert!(d.is_empty() || (0 <= d.x0 && d.x1 <= w && 0 <= d.y0 && d.y1 <= h));
}

#[test]
fn width_of_ascii_is_one_column() {
    assert_eq!(wide_test('a'), (false, 1));
    assert_eq!(wide_test(' '), (false, 1));
    assert_eq!(wide_test('~'), (false, 1));
}

#[test]
fn width_of_cjk_is_two_columns() {
    assert_eq!(wide_test('\u{6F22}'), (true, 2));
    assert_eq!(wide_test('\u{3042}'), (true, 2));
}

#[test]
fn character_without_width_counts_as_wide() {
    assert_eq!(wide_test('\u{85}'), (true, 2));
    assert_eq!(wide_from_width(None), (true, 2));
}

#[test]
fn wide_from_width_draws_the_line_at_two() {
    assert_eq!(wide_from_width(Some(0)), (false, 1));
    assert_eq!(wide_from_width(Some(1)), (false, 1));
    assert_eq!(wide_from_width(Some(2)), (true, 2));
    assert_eq!(wide_from_width(Some(3)), (true, 2));
}

#[test]
fn new_screen_is_80_by_24_and_empty() {
    let wh = WriteHalf::new();
    assert_eq!(wh.size(), [80, 24]);
    assert_eq!(wh.cursor(), [0, 0]);
    assert!(!wh.eol());
    assert!(!wh.reversed());
    assert_eq!(wh.ecell(), Cell::default());
    assert!(wh.damage().is_empty());
    assert_eq!(wh.history_len(), 0);
    assert_eq!(wh.histcur(), 0);
    assert_eq!(wh.cell(0, 0), Some(Cell::default()));
    assert_eq!(wh.cell(79, 23), Some(Cell::default()));
    assert_eq!(wh.cell(80, 0), None);
    assert_eq!(wh.cell(0, 24), None);
    check_invariants(&wh);
}

#[test]
fn put_writes_the_cell_and_advances() {
    let mut wh = screen(10, 3);
    wh.fg_color(0x800000FF);
    wh.put('a');
    assert_eq!(
        wh.cell(0, 0),
        Some(Cell { unicode_codepoint: 0x61, fg: 0x800000FF, bg: 0, decoration: 0 })
    );
    assert_eq!(wh.cursor(), [1, 0]);
    assert!(!wh.eol());
    assert_eq!(wh.damage().data(), [0, 0, 1, 1]);
}

#[test]
fn printing_in_the_last_column_defers_the_wrap() {
    let mut wh = screen(10, 3);
    wh.loc(0, 9);
    wh.loc(1, 1);
    wh.put('x');
    assert_eq!(wh.cursor(), [9, 1]);
    assert!(wh.eol());
    assert_eq!(wh.cell(9, 1).unwrap().unicode_codepoint, 'x' as u32);
    wh.put('y');
    assert_eq!(wh.cursor(), [1, 2]);
    assert!(!wh.eol());
    assert_eq!(wh.cell(0, 2).unwrap().unicode_codepoint, 'y' as u32);
    assert_eq!(wh.history_len(), 0);
}

#[test]
fn deferred_wrap_on_the_last_row_scrolls() {
    let mut wh = screen(10, 3);
    wh.put('t');
    wh.loc(0, 9);
    wh.loc(1, 2);
    wh.put('x');
    assert_eq!(wh.cursor(), [9, 2]);
    assert!(wh.eol());
    wh.put('y');
    assert_eq!(wh.cursor(), [1, 2]);
    assert!(!wh.eol());
    assert_eq!(wh.cell(9, 1).unwrap().unicode_codepoint, 'x' as u32);
    assert_eq!(wh.cell(0, 2).unwrap().unicode_codepoint, 'y' as u32);
    assert_eq!(wh.history_len(), 1);
    check_invariants(&wh);
}

#[test]
fn wide_character_in_the_last_column_goes_to_the_next_line() {
    let mut wh = screen(10, 3);
    wh.loc(0, 9);
    wh.put('\u{6F22}');
    assert_eq!(wh.cell(9, 0), Some(Cell::default()));
    assert_eq!(wh.cell(0, 1).unwrap().unicode_codepoint, 0x6F22);
    assert_eq!(wh.cursor(), [2, 1]);
    assert!(!wh.eol());
}

#[test]
fn wide_character_two_columns_before_the_edge_defers_the_wrap() {
    let mut wh = screen(10, 3);
    wh.loc(0, 8);
    wh.put('\u{6F22}');
    assert_eq!(wh.cell(8, 0).unwrap().unicode_codepoint, 0x6F22);
    assert_eq!(wh.cursor(), [8, 0]);
    assert!(wh.eol());
    wh.put('a');
    assert_eq!(wh.cursor(), [1, 1]);
    assert_eq!(wh.cell(0, 1).unwrap().unicode_codepoint, 'a' as u32);
}

#[test]
fn wide_character_advances_by_two() {
    let mut wh = screen(10, 3);
    wh.put('\u{6F22}');
    assert_eq!(wh.cursor(), [2, 0]);
    assert_eq!(wh.damage().data(), [0, 0, 1, 1]);
}

#[test]
fn put_wide_takes_the_width_from_the_caller() {
    let mut wh = screen(10, 3);
    wh.put_wide('a', true);
    assert_eq!(wh.cursor(), [2, 0]);
    wh.put_wide('\u{6F22}', false);
    assert_eq!(wh.cursor(), [3, 0]);
    assert_eq!(wh.cell(2, 0).unwrap().unicode_codepoint, 0x6F22);
}

#[test]
fn tab_whose_stop_is_off_the_grid_does_nothing() {
    let mut wh = WriteHalf::new();
    wh.loc(0, 77);
    wh.put_wide('q', false);
    wh.loc(0, 77);
    let before = wh.damage();
    wh.tab();
    assert_eq!(wh.cursor(), [77, 0]);
    assert_eq!(wh.cell(77, 0).unwrap().unicode_codepoint, 'q' as u32);
    assert_eq!(wh.damage(), before);
}

#[test]
fn tab_goes_to_the_next_multiple_of_eight_and_clears_the_way() {
    let mut wh = WriteHalf::new();
    put_str(&mut wh, "abcdefgh");
    wh.loc(0, 3);
    wh.bg_color(0x11);
    wh.tab();
    assert_eq!(wh.cursor(), [8, 0]);
    assert_eq!(wh.cell(2, 0).unwrap().unicode_codepoint, 'c' as u32);
    for x in 3..8 {
        assert_eq!(
            wh.cell(x, 0),
            Some(Cell { unicode_codepoint: 0x20, fg: 0xFFFF_FFFF, bg: 0x11, decoration: 0 })
        );
    }
    wh.tab();
    assert_eq!(wh.cursor(), [16, 0]);
    wh.loc(0, 71);
    wh.tab();
    assert_eq!(wh.cursor(), [72, 0]);
    wh.tab();
    assert_eq!(wh.cursor(), [72, 0]);
}

#[test]
fn tab_ends_a_deferred_wrap_only_when_it_moves() {
    let mut wh = screen(10, 3);
    wh.loc(0, 9);
    wh.put('x');
    assert!(wh.eol());
    wh.tab();
    assert!(wh.eol());
    assert_eq!(wh.cursor(), [9, 0]);
}

#[test]
fn loc_sets_and_adds_and_stops_at_the_edges() {
    let mut wh = screen(10, 3);
    wh.loc(0, 4);
    assert_eq!(wh.cursor(), [4, 0]);
    wh.loc(1, 2);
    assert_eq!(wh.cursor(), [4, 2]);
    wh.loc(2, 3);
    assert_eq!(wh.cursor(), [7, 2]);
    wh.loc(3, -1);
    assert_eq!(wh.cursor(), [7, 1]);
    wh.loc(2, 100);
    assert_eq!(wh.cursor(), [9, 1]);
    wh.loc(2, -100);
    assert_eq!(wh.cursor(), [0, 1]);
    wh.loc(3, i16::MAX);
    assert_eq!(wh.cursor(), [0, 2]);
    wh.loc(3, i16::MIN);
    assert_eq!(wh.cursor(), [0, 0]);
    wh.loc(0, -5);
    assert_eq!(wh.cursor(), [0, 0]);
    wh.loc(1, 3);
    assert_eq!(wh.cursor(), [0, 2]);
    wh.loc(0, i16::MAX);
    wh.loc(2, i16::MAX);
    assert_eq!(wh.cursor(), [9, 2]);
}

#[test]
fn loc_ends_a_deferred_wrap() {
    let mut wh = screen(10, 3);
    wh.loc(0, 9);
    wh.put('x');
    assert!(wh.eol());
    wh.loc(2, 0);
    assert!(!wh.eol());
    assert_eq!(wh.cursor(), [9, 0]);
}

#[test]
fn newline_moves_down_and_to_the_first_column() {
    let mut wh = screen(10, 3);
    put_str(&mut wh, "abc");
    wh.newline();
    assert_eq!(wh.cursor(), [0, 1]);
    assert_eq!(wh.history_len(), 0);
}

#[test]
fn newline_on_the_last_row_scrolls_into_the_scrollback() {
    let mut wh = screen(10, 3);
    put_str(&mut wh, "top");
    wh.loc(0, 0);
    wh.loc(1, 2);
    put_str(&mut wh, "low");
    wh.newline();
    assert_eq!(wh.cursor(), [0, 2]);
    assert_eq!(wh.history_len(), 1);
    assert_eq!(row_text(&wh, 1), "low       ");
    assert_eq!(row_text(&wh, 2), "          ");
    assert_eq!(wh.damage().data(), [0, 0, 10, 3]);
}

#[test]
fn scroll_up_inserts_an_empty_row_at_the_top() {
    let mut wh = screen(10, 3);
    put_str(&mut wh, "top");
    wh.loc(0, 0);
    wh.loc(1, 2);
    put_str(&mut wh, "low");
    wh.scroll(false);
    assert_eq!(row_text(&wh, 0), "          ");
    assert_eq!(row_text(&wh, 1), "top       ");
    assert_eq!(row_text(&wh, 2), "          ");
    assert_eq!(wh.history_len(), 0);
    assert_eq!(wh.cursor(), [3, 2]);
    assert_eq!(wh.damage().data(), [0, 0, 10, 3]);
}

#[test]
fn new_rows_take_the_current_style() {
    let mut wh = screen(4, 2);
    wh.bg_color(0x22);
    wh.scroll(true);
    assert_eq!(wh.cell(0, 1).unwrap().bg, 0x22);
    assert_eq!(wh.cell(0, 0).unwrap().bg, 0);
}

#[test]
fn scrollback_is_capped_at_ten_thousand_rows() {
    let mut wh = screen(2, 1);
    for _ in 0..10_050 {
        wh.scroll(true);
    }
    assert_eq!(wh.history_len(), 10_000);
    check_invariants(&wh);
}

#[test]
fn scroll_history_page_moves_by_half_a_screen_and_clamps() {
    let mut wh = screen(4, 6);
    for _ in 0..7 {
        wh.scroll(true);
    }
    wh.send_damage();
    wh.scroll_history_page(false);
    assert_eq!(wh.histcur(), 3);
    assert_eq!(wh.damage().data(), [0, 0, 4, 6]);
    wh.scroll_history_page(false);
    assert_eq!(wh.histcur(), 6);
    wh.scroll_history_page(false);
    assert_eq!(wh.histcur(), 7);
    wh.scroll_history_page(true);
    assert_eq!(wh.histcur(), 4);
    wh.scroll_history_page(true);
    assert_eq!(wh.histcur(), 1);
    wh.scroll_history_page(true);
    assert_eq!(wh.histcur(), 0);
    wh.scroll_history_page(true);
    assert_eq!(wh.histcur(), 0);
}

#[test]
fn scroll_history_page_on_a_one_row_screen_stays() {
    let mut wh = screen(4, 1);
    wh.scroll(true);
    wh.scroll_history_page(false);
    assert_eq!(wh.histcur(), 0);
}

#[test]
fn erase_line_from_cursor_to_end() {
    let mut wh = screen(10, 3);
    put_str(&mut wh, "0123456789");
    wh.loc(0, 4);
    wh.send_damage();
    wh.erase_line(0);
    assert_eq!(row_text(&wh, 0), "0123      ");
    assert_eq!(wh.cursor(), [4, 0]);
    assert_eq!(wh.damage().data(), [4, 0, 10, 1]);
}

#[test]
fn erase_line_from_start_to_cursor() {
    let mut wh = screen(10, 3);
    put_str(&mut wh, "0123456789");
    wh.loc(0, 4);
    wh.send_damage();
    wh.erase_line(1);
    assert_eq!(row_text(&wh, 0), "     56789");
    assert_eq!(wh.damage().data(), [0, 0, 5, 1]);
}

#[test]
fn erase_line_whole() {
    let mut wh = screen(10, 3);
    put_str(&mut wh, "0123456789");
    wh.loc(0, 4);
    wh.send_damage();
    wh.erase_line(2);
    assert_eq!(row_text(&wh, 0), "          ");
    assert_eq!(wh.damage().data(), [0, 0, 10, 1]);
    put_str(&mut wh, "ab");
    wh.erase_line(77);
    assert_eq!(row_text(&wh, 0), "          ");
}

fn filled() -> WriteHalf {
    let mut wh = screen(4, 3);
    put_str(&mut wh, "aaaabbbbcccc");
    wh.loc(0, 1);
    wh.loc(1, 1);
    wh.send_damage();
    wh
}

#[test]
fn erase_display_from_cursor_to_end_of_screen() {
    let mut wh = filled();
    wh.erase_display(0);
    assert_eq!(row_text(&wh, 0), "aaaa");
    assert_eq!(row_text(&wh, 1), "b   ");
    assert_eq!(row_text(&wh, 2), "    ");
    assert_eq!(wh.cursor(), [1, 1]);
    assert_eq!(wh.damage().data(), [0, 1, 4, 3]);
}

#[test]
fn erase_display_from_start_of_screen_to_cursor() {
    let mut wh = filled();
    wh.erase_display(1);
    assert_eq!(row_text(&wh, 0), "    ");
    assert_eq!(row_text(&wh, 1), "  bb");
    assert_eq!(row_text(&wh, 2), "cccc");
    assert_eq!(wh.damage().data(), [0, 0, 4, 2]);
}

#[test]
fn erase_display_whole() {
    let mut wh = filled();
    wh.bg_color(5);
    wh.erase_display(2);
    for y in 0..3 {
        assert_eq!(row_text(&wh, y), "    ");
        assert_eq!(wh.cell(3, y).unwrap().bg, 5);
    }
    assert_eq!(wh.cursor(), [1, 1]);
    assert_eq!(wh.damage().data(), [0, 0, 4, 3]);
}

#[test]
fn erase_display_on_the_last_row_clears_no_row_below() {
    let mut wh = filled();
    wh.loc(1, 2);
    wh.erase_display(0);
    assert_eq!(row_text(&wh, 1), "bbbb");
    assert_eq!(row_text(&wh, 2), "c   ");
    assert_eq!(wh.damage().data(), [1, 2, 4, 3]);
}

#[test]
fn ech_erases_cells_without_moving() {
    let mut wh = screen(10, 3);
    put_str(&mut wh, "0123456789");
    wh.loc(0, 2);
    wh.send_damage();
    wh.ech(3);
    assert_eq!(row_text(&wh, 0), "01   56789");
    assert_eq!(wh.cursor(), [2, 0]);
    assert_eq!(wh.damage().data(), [2, 0, 5, 1]);
    wh.ech(100);
    assert_eq!(row_text(&wh, 0), "01        ");
    wh.send_damage();
    wh.ech(0);
    wh.ech(-3);
    assert!(wh.damage().is_empty());
}

#[test]
fn clear_empties_the_grid() {
    let mut wh = filled();
    wh.clear();
    for y in 0..3 {
        assert_eq!(row_text(&wh, y), "    ");
    }
    assert_eq!(wh.cursor(), [1, 1]);
    assert_eq!(wh.damage().data(), [0, 0, 4, 3]);
}

#[test]
fn resize_keeps_the_top_left_and_pads_with_empty_cells() {
    let mut wh = filled();
    wh.bg_color(9);
    wh.resize([6, 4]);
    assert_eq!(wh.size(), [6, 4]);
    assert_eq!(row_text(&wh, 0), "aaaa  ");
    assert_eq!(row_text(&wh, 2), "cccc  ");
    assert_eq!(row_text(&wh, 3), "      ");
    assert_eq!(wh.cell(4, 0).unwrap().bg, 9);
    assert_eq!(wh.cell(0, 3).unwrap().bg, 9);
    assert_eq!(wh.cell(0, 0).unwrap().bg, 0);
    assert_eq!(wh.cursor(), [1, 1]);
    assert_eq!(wh.damage().data(), [0, 0, 6, 4]);
    check_invariants(&wh);
}

#[test]
fn resize_to_a_smaller_grid_keeps_the_cursor_on_it() {
    let mut wh = filled();
    wh.loc(0, 3);
    wh.loc(1, 2);
    wh.resize([2, 1]);
    assert_eq!(wh.size(), [2, 1]);
    assert_eq!(row_text(&wh, 0), "aa");
    assert_eq!(wh.cursor(), [1, 0]);
    check_invariants(&wh);
    wh.put('z');
    check_invariants(&wh);
}

#[test]
fn resize_keeps_a_deferred_wrap_only_at_the_same_width() {
    let mut wh = screen(4, 3);
    wh.loc(0, 3);
    wh.put('x');
    assert!(wh.eol());
    wh.resize([4, 5]);
    assert!(wh.eol());
    wh.resize([5, 5]);
    assert!(!wh.eol());
}

#[test]
fn style_setters_change_the_empty_cell() {
    let mut wh = WriteHalf::new();
    wh.fg_color(1);
    wh.bg_color(2);
    wh.set_decoration(4, true);
    wh.reverse_color(true);
    assert_eq!(wh.ecell(), Cell { unicode_codepoint: 0x20, fg: 1, bg: 2, decoration: 4 });
    assert!(wh.reversed());
    wh.set_decoration(3, true);
    assert_eq!(wh.ecell().decoration, 7);
    wh.set_decoration(4, false);
    assert_eq!(wh.ecell().decoration, 3);
    wh.set_decoration(u32::MAX, false);
    assert_eq!(wh.ecell().decoration, 0);
    wh.reverse_color(false);
    assert!(!wh.reversed());
}

#[test]
fn include_damage_clips_to_the_grid_and_joins() {
    let mut wh = screen(10, 3);
    wh.include_damage(Region::new([8, 2, 20, 20]));
    assert_eq!(wh.damage().data(), [8, 2, 10, 3]);
    wh.include_damage(Region::new([1, 0, 2, 1]));
    assert_eq!(wh.damage().data(), [1, 0, 10, 3]);
    wh.include_damage(Region::new([5, 5, 5, 5]));
    assert_eq!(wh.damage().data(), [1, 0, 10, 3]);
    wh.include_damage(Region::new([20, 20, 30, 30]));
    assert_eq!(wh.damage().data(), [1, 0, 10, 3]);
}

#[test]
fn include_damage_twice_is_once() {
    for data in [[2i16, 1, 4, 2], [-3, -3, 50, 50], [0, 0, 0, 0], [30, 30, 40, 40], [9, 2, 10, 3]] {
        let mut once = screen(10, 3);
        once.include_damage(Region::new([5, 0, 6, 1]));
        once.include_damage(Region::new(data));
        let mut twice = screen(10, 3);
        twice.include_damage(Region::new([5, 0, 6, 1]));
        twice.include_damage(Region::new(data));
        twice.include_damage(Region::new(data));
        assert_eq!(once.damage(), twice.damage());
        let mut fresh = screen(10, 3);
        fresh.include_damage(Region::new(data));
        let first = fresh.damage();
        fresh.include_damage(Region::new(data));
        assert_eq!(fresh.damage(), first);
    }
}

#[test]
fn damage_all_covers_the_grid() {
    let mut wh = screen(10, 3);
    wh.damage_all();
    assert_eq!(wh.damage().data(), [0, 0, 10, 3]);
}

#[test]
fn send_cursor_is_tag_zero_column_row() {
    let mut wh = screen(300, 3);
    wh.loc(0, 258);
    wh.loc(1, 2);
    assert_eq!(wh.send_cursor(), vec![0, 0x02, 0x01, 0x02, 0x00]);
}

#[test]
fn send_area_is_tag_two_region_and_cells_row_by_row() {
    let mut wh = screen(3, 2);
    put_str(&mut wh, "abcde");
    let out = wh.send_area(Region::new([1, 0, 3, 2]));
    let mut want = vec![2u8, 1, 0, 0, 0, 3, 0, 2, 0];
    for ch in ['b', 'c', 'e', ' '] {
        Cell::default().with_unic(ch as u32).write_le_bytes(&mut want);
    }
    assert_eq!(out, want);
}

#[test]
fn send_area_clips_to_the_grid() {
    let wh = screen(3, 2);
    let out = wh.send_area(Region::new([-5, 1, 50, 50]));
    assert_eq!(out.len(), 1 + 8 + 3 * 16);
    assert_eq!(&out[..9], &[2, 0, 0, 1, 0, 3, 0, 2, 0]);
}

#[test]
fn send_area_off_the_grid_sends_nothing() {
    let wh = screen(3, 2);
    assert_eq!(wh.send_area(Region::new([3, 0, 9, 2])), Vec::<u8>::new());
    assert_eq!(wh.send_area(Region::default()), Vec::<u8>::new());
}

#[test]
fn send_damage_sends_area_then_cursor_and_leaves_no_damage() {
    let mut wh = screen(3, 2);
    wh.put('a');
    let out = wh.send_damage();
    let mut want = vec![2u8, 0, 0, 0, 0, 1, 0, 1, 0];
    Cell::default().with_unic('a' as u32).write_le_bytes(&mut want);
    want.extend_from_slice(&[0, 1, 0, 0, 0]);
    assert_eq!(out, want);
    assert!(wh.damage().is_empty());
    assert_eq!(wh.send_damage(), vec![0, 1, 0, 0, 0]);
}

#[test]
fn refresh_sends_the_whole_grid() {
    let mut wh = screen(3, 2);
    let out = wh.refresh();
    assert_eq!(out.len(), 1 + 8 + 6 * 16 + 5);
    assert_eq!(&out[..9], &[2, 0, 0, 0, 0, 3, 0, 2, 0]);
    assert!(wh.damage().is_empty());
}

#[test]
fn reset_clears_and_homes_the_cursor() {
    let mut wh = filled();
    let out = wh.reset();
    assert_eq!(wh.cursor(), [0, 0]);
    assert_eq!(row_text(&wh, 1), "    ");
    assert!(wh.damage().is_empty());
    assert_eq!(out.len(), 1 + 8 + 12 * 16 + 5);
    assert_eq!(&out[out.len() - 5..], &[0, 0, 0, 0, 0]);
}

#[test]
fn scrolled_back_view_shows_scrollback_rows_on_top() {
    let mut wh = screen(2, 3);
    for ch in ['1', '2', '3', '4', '5'] {
        wh.put(ch);
        if ch != '5' {
            wh.newline();
        }
    }
    assert_eq!(wh.history_len(), 2);
    assert_eq!(row_text(&wh, 0), "3 ");
    wh.scroll_history_page(false);
    assert_eq!(wh.histcur(), 1);
    let out = wh.send_area(Region::sizebox([2, 3]));
    let first = |row: usize| out[9 + row * 2 * 16];
    assert_eq!(first(0), b'2');
    assert_eq!(first(1), b'3');
    assert_eq!(first(2), b'4');
    wh.scroll_history_page(false);
    assert_eq!(wh.histcur(), 2);
    let out = wh.send_area(Region::sizebox([2, 3]));
    let first = |row: usize| out[9 + row * 2 * 16];
    assert_eq!(first(0), b'1');
    assert_eq!(first(1), b'2');
    assert_eq!(first(2), b'3');
}

#[test]
fn scrollback_rows_shorter_than_the_grid_show_empty_cells() {
    let mut wh = screen(2, 2);
    wh.put('a');
    wh.scroll(true);
    wh.resize([4, 2]);
    wh.scroll_history_page(false);
    assert_eq!(wh.histcur(), 1);
    let out = wh.send_area(Region::new([0, 0, 4, 1]));
    let mut want = vec![2u8, 0, 0, 0, 0, 4, 0, 1, 0];
    for ch in ['a', ' ', ' ', ' '] {
        Cell::default().with_unic(ch as u32).write_le_bytes(&mut want);
    }
    assert_eq!(out, want);
}

#[test]
fn invariants_hold_after_every_mutation() {
    let mut wh = screen(5, 3);
    let mut seed: u32 = 12345;
    for _ in 0..4000 {
        seed = seed.wrapping_mul(1664525).wrapping_add(1013904223);
        let pick = (seed >> 24) % 14;
        let arg = ((seed >> 8) & 0xFF) as i16 - 100;
        match pick {
            0 => wh.put('a'),
            1 => wh.put('\u{6F22}'),
            2 => wh.newline(),
            3 => wh.tab(),
            4 => wh.loc((arg & 3) as u8, arg),
            5 => wh.scroll(arg & 1 == 0),
            6 => wh.erase_line((arg & 3) as u16),
            7 => wh.erase_display((arg & 3) as u16),
            8 => wh.ech(arg),
            9 => wh.scroll_history_page(arg & 1 == 0),
            10 => wh.resize([(arg & 7) + 1, ((arg >> 3) & 3) + 1]),
            11 => wh.include_damage(Region::new([arg, -arg, arg + 3, 4])),
            12 => {
                wh.send_damage();
            }
            _ => wh.clear(),
        }
        check_invariants(&wh);
    }
}
