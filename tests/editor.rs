use mercury::document::Document;
use mercury::editor::{
    is_move_key, is_move_shortcut, move_position, scroll_offset, welcome_msg, Editor, Frame, Key,
    Position, Size,
};
use mercury::row::Row;

fn doc_of_lengths(lengths: &[usize]) -> Document {
    Document::new(lengths.iter().map(|&n| Row::new(vec![b'a'; n])).collect())
}

fn pos(x: usize, y: usize) -> Position {
    Position { x, y }
}

const SCREEN: Size = Size { width: 80, height: 24 };

#[test]
fn welcome_banner_on_empty_document() {
    let editor = Editor::new(Document::empty(), b"Hi\r".to_vec());
    match editor.refresh_screen(SCREEN) {
        Frame::Body { lines, cursor } => {
            assert_eq!(lines.len(), 23);
            for (r, line) in lines.iter().enumerate() {
                if r == 8 {
                    assert_eq!(line, &welcome_msg(&b"Hi\r".to_vec(), 80));
                    assert_ne!(line, &b"|".to_vec());
                } else {
                    assert_eq!(line, &b"|".to_vec());
                }
            }
            assert_eq!(cursor, pos(0, 0));
        }
        Frame::Farewell => panic!("expected a body frame"),
    }
}

#[test]
fn down_clamps_column_to_shorter_row() {
    let doc = doc_of_lengths(&[10, 3, 0, 20, 5]);
    assert_eq!(move_position(&doc, pos(8, 1), Key::Down), pos(0, 2));
}

#[test]
fn offset_tracks_cursor_moving_down() {
    let mut editor = Editor::new(doc_of_lengths(&[4; 50]), Vec::new());
    for i in 1..=30usize {
        editor.process_keypress(Key::Down, SCREEN);
        assert_eq!(editor.cursor_position(), pos(0, i));
        let expected = if i >= 24 { i - 24 + 1 } else { 0 };
        assert_eq!(editor.offset().y, expected);
    }
    assert_eq!(editor.offset(), pos(0, 7));
}

#[test]
fn moves_stay_in_bounds() {
    let doc = doc_of_lengths(&[10, 3, 0, 20, 5]);
    let keys = [
        Key::Up, Key::Down, Key::Left, Key::Right, Key::Home, Key::End, Key::PageUp,
        Key::PageDown, Key::Char('h'), Key::Char('j'), Key::Char('k'), Key::Char('l'),
        Key::Char('x'), Key::Other,
    ];
    for y in 0..=5usize {
        for x in 0..25usize {
            for &k in keys.iter() {
                let p = move_position(&doc, pos(x, y), k);
                assert!(p.y <= doc.len());
                assert!(p.x <= doc.row_len(p.y));
            }
        }
    }
}

#[test]
fn up_and_left_at_origin_do_nothing() {
    let doc = doc_of_lengths(&[10, 3]);
    assert_eq!(move_position(&doc, pos(0, 0), Key::Up), pos(0, 0));
    assert_eq!(move_position(&doc, pos(0, 0), Key::Left), pos(0, 0));
    assert_eq!(move_position(&doc, pos(0, 0), Key::Char('k')), pos(0, 0));
    assert_eq!(move_position(&doc, pos(0, 0), Key::Char('h')), pos(0, 0));
}

#[test]
fn down_at_end_and_right_at_row_end_do_nothing() {
    let doc = doc_of_lengths(&[10, 3]);
    assert_eq!(move_position(&doc, pos(0, 2), Key::Down), pos(0, 2));
    assert_eq!(move_position(&doc, pos(3, 1), Key::Right), pos(3, 1));
    assert_eq!(move_position(&doc, pos(10, 0), Key::Char('l')), pos(10, 0));
}

#[test]
fn each_movement_key() {
    let doc = doc_of_lengths(&[10, 3, 0, 20, 5]);
    assert_eq!(move_position(&doc, pos(2, 3), Key::Up), pos(0, 2));
    assert_eq!(move_position(&doc, pos(2, 0), Key::Down), pos(2, 1));
    assert_eq!(move_position(&doc, pos(2, 3), Key::Left), pos(1, 3));
    assert_eq!(move_position(&doc, pos(2, 3), Key::Right), pos(3, 3));
    assert_eq!(move_position(&doc, pos(2, 3), Key::Home), pos(0, 3));
    assert_eq!(move_position(&doc, pos(2, 3), Key::End), pos(20, 3));
    assert_eq!(move_position(&doc, pos(2, 3), Key::PageUp), pos(2, 0));
    assert_eq!(move_position(&doc, pos(2, 3), Key::PageDown), pos(0, 5));
    assert_eq!(move_position(&doc, pos(2, 3), Key::Char('x')), pos(2, 3));
}

#[test]
fn key_classes() {
    assert!(is_move_key(Key::Left));
    assert!(is_move_key(Key::Char('j')));
    assert!(!is_move_key(Key::Char('x')));
    assert!(!is_move_key(Key::Home));
    assert!(is_move_shortcut(Key::End));
    assert!(is_move_shortcut(Key::PageDown));
    assert!(!is_move_shortcut(Key::Up));
}

#[test]
fn scroll_formula() {
    assert_eq!(scroll_offset(pos(0, 30), pos(0, 0), SCREEN), pos(0, 7));
    assert_eq!(scroll_offset(pos(0, 3), pos(0, 10), SCREEN), pos(0, 3));
    assert_eq!(scroll_offset(pos(100, 5), pos(0, 0), SCREEN), pos(21, 0));
    assert_eq!(scroll_offset(pos(5, 5), pos(2, 2), SCREEN), pos(2, 2));
}

#[test]
fn scroll_twice_equals_scroll_once() {
    for cy in [0usize, 5, 23, 24, 40, 100] {
        for oy in [0usize, 3, 30, 90] {
            let c = pos(cy, cy);
            let once = scroll_offset(c, pos(oy, oy), SCREEN);
            assert_eq!(scroll_offset(c, once, SCREEN), once);
        }
    }
}

#[test]
fn cursor_visible_after_moves_and_scroll() {
    let mut editor = Editor::new(doc_of_lengths(&[120, 3, 0, 90, 5, 200]), Vec::new());
    let keys = [
        Key::End, Key::Down, Key::Down, Key::Down, Key::End, Key::PageDown, Key::Up, Key::End,
        Key::PageUp, Key::Home, Key::Right,
    ];
    for &k in keys.iter() {
        editor.process_keypress(k, SCREEN);
        let c = editor.cursor_position();
        let o = editor.offset();
        assert!(o.y <= c.y && c.y - o.y < 24);
        assert!(o.x <= c.x && c.x - o.x < 80);
    }
}

#[test]
fn rows_rendered_through_viewport() {
    let rows = vec![Row::new(b"abcdef".to_vec()), Row::new(b"xy".to_vec())];
    let mut editor = Editor::new(Document::new(rows), b"unused".to_vec());
    let size = Size { width: 3, height: 4 };
    editor.process_keypress(Key::End, size);
    assert_eq!(editor.offset(), pos(4, 0));
    match editor.refresh_screen(size) {
        Frame::Body { lines, cursor } => {
            assert_eq!(lines, vec![b"ef".to_vec(), Vec::new(), b"|".to_vec()]);
            assert_eq!(cursor, pos(2, 0));
        }
        Frame::Farewell => panic!("expected a body frame"),
    }
}

#[test]
fn quit_key_gives_farewell() {
    let mut editor = Editor::new(doc_of_lengths(&[3]), Vec::new());
    let frame = editor.run(Key::Ctrl('p'), SCREEN);
    assert!(editor.want_quit());
    assert!(matches!(frame, Frame::Farewell));
}

#[test]
fn run_moves_and_draws() {
    let mut editor = Editor::new(doc_of_lengths(&[3, 5]), Vec::new());
    let frame = editor.run(Key::Char('j'), SCREEN);
    assert!(!editor.want_quit());
    assert_eq!(editor.cursor_position(), pos(0, 1));
    match frame {
        Frame::Body { lines, cursor } => {
            assert_eq!(lines[1], b"aaaaa".to_vec());
            assert_eq!(lines[2], b"|".to_vec());
            assert_eq!(cursor, pos(0, 1));
        }
        Frame::Farewell => panic!("expected a body frame"),
    }
}

#[test]
fn other_keys_change_nothing() {
    let mut editor = Editor::new(doc_of_lengths(&[3, 5]), Vec::new());
    editor.process_keypress(Key::Char('q'), SCREEN);
    editor.process_keypress(Key::Ctrl('x'), SCREEN);
    assert_eq!(editor.cursor_position(), pos(0, 0));
    assert!(!editor.want_quit());
}

#[test]
fn welcome_line_is_centred_and_cut() {
    let banner = b"Mercury\r".to_vec();
    // 20 - 8 = 12, half is 6, less one for the mark: 5 spaces.
    assert_eq!(welcome_msg(&banner, 20), b"|     Mercury\r".to_vec());
    assert_eq!(welcome_msg(&banner, 4), b"|Mer".to_vec());
    assert_eq!(welcome_msg(&banner, 0), Vec::<u8>::new());
}

#[test]
fn draw_row_windows_by_offset() {
    let editor = Editor::new(doc_of_lengths(&[3]), Vec::new());
    let r = Row::new(b"hello world".to_vec());
    assert_eq!(editor.draw_row(&r, 5), b"hello".to_vec());
}

#[test]
fn default_position_is_origin() {
    assert_eq!(Position::default(), pos(0, 0));
}

#[test]
fn scroll_keeps_visible_cursor_at_top_of_range() {
    let c = pos(usize::MAX, usize::MAX);
    let o = pos(usize::MAX - 1, usize::MAX - 1);
    assert_eq!(scroll_offset(c, o, SCREEN), o);
    assert_eq!(scroll_offset(c, pos(0, 0), SCREEN), pos(usize::MAX - 79, usize::MAX - 23));
}
