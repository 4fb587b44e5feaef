use term_layout::escape::restore_sequence;
use term_layout::layout::{LayoutError, TermionLayout};

const FG_RESET: &[u8] = b"\x1b[39m";
const BG_RESET: &[u8] = b"\x1b[49m";
const CLEAR_ALL: &[u8] = b"\x1b[2J";
const RESTORE: &[u8] = b"\x1b[39m\x1b[49m\x1b[2J";

fn terminal(rows: u16, columns: u16) -> TermionLayout {
    TermionLayout::new(true, Some((columns, rows))).unwrap()
}

#[test]
fn one_row_terminal_is_refused() {
    assert_eq!(
        TermionLayout::new(true, Some((80, 1))).unwrap_err(),
        LayoutError::TerminalTooSmall
    );
}

#[test]
fn terminal_without_rows_or_columns_is_refused() {
    assert_eq!(
        TermionLayout::new(true, Some((80, 0))).unwrap_err(),
        LayoutError::TerminalTooSmall
    );
    assert_eq!(
        TermionLayout::new(true, Some((0, 24))).unwrap_err(),
        LayoutError::TerminalTooSmall
    );
    assert_eq!(
        TermionLayout::new(true, Some((0, 0))).unwrap_err(),
        LayoutError::TerminalTooSmall
    );
}

#[test]
fn terminal_without_size_is_unavailable() {
    assert_eq!(TermionLayout::new(true, None).unwrap_err(), LayoutError::TerminalUnavailable);
}

#[test]
fn terminal_without_raw_mode_is_unavailable() {
    assert_eq!(
        TermionLayout::new(false, Some((80, 24))).unwrap_err(),
        LayoutError::TerminalUnavailable
    );
    assert_eq!(
        TermionLayout::new(false, Some((80, 1))).unwrap_err(),
        LayoutError::TerminalUnavailable
    );
    assert_eq!(TermionLayout::new(false, None).unwrap_err(), LayoutError::TerminalUnavailable);
}

#[test]
fn two_rows_and_one_column_are_enough() {
    assert!(TermionLayout::new(true, Some((1, 2))).is_ok());
}

#[test]
fn size_is_read_as_columns_then_rows() {
    let layout = terminal(24, 80);
    assert_eq!(layout.create_view_window().size().width, 80);
    assert_eq!(layout.create_view_window().size().height, 23);
    assert!(TermionLayout::new(true, Some((1, 2))).is_ok());
    assert!(TermionLayout::new(true, Some((2, 1))).is_err());
}

#[test]
fn new_layout_holds_the_erase_unflushed() {
    let mut layout = terminal(24, 80);
    let sink = layout.get_writer();
    assert_eq!(sink.written(), CLEAR_ALL.to_vec());
    assert_eq!(sink.pending(), CLEAR_ALL);
    assert!(sink.visible().is_empty());
}

#[test]
fn erase_is_what_termion_formats() {
    let mut layout = terminal(24, 80);
    assert_eq!(layout.get_writer().written(), format!("{}", termion::clear::All).into_bytes());
}

#[test]
fn restore_sequence_resets_colors_then_erases() {
    assert_eq!(restore_sequence(), RESTORE.to_vec());
    assert_eq!(restore_sequence().len(), 14);
    assert_eq!(restore_sequence(), [FG_RESET, BG_RESET, CLEAR_ALL].concat());
}

#[test]
fn restore_sequence_is_what_termion_formats() {
    let formatted = format!(
        "{}{}{}",
        termion::color::Fg(termion::color::Reset),
        termion::color::Bg(termion::color::Reset),
        termion::clear::All
    );
    assert_eq!(restore_sequence(), formatted.into_bytes());
}

#[test]
fn clear_writes_the_restore_sequence_and_flushes() {
    let mut layout = terminal(24, 80);
    layout.get_writer().write(b"text");
    layout.clear();
    let sink = layout.get_writer();
    assert_eq!(sink.written(), [CLEAR_ALL, b"text", FG_RESET, BG_RESET, CLEAR_ALL].concat());
    assert_eq!(sink.visible(), [CLEAR_ALL, b"text", RESTORE].concat());
    assert!(sink.pending().is_empty());
}

#[test]
fn clear_after_drain_sends_only_the_restore_sequence() {
    let mut layout = terminal(24, 80);
    layout.clear();
    assert_eq!(layout.get_writer().take_flushed(), [CLEAR_ALL, RESTORE].concat());
    layout.clear();
    assert_eq!(layout.get_writer().take_flushed(), RESTORE.to_vec());
    assert!(layout.get_writer().written().is_empty());
}

#[test]
fn clear_keeps_the_dimensions() {
    let mut layout = terminal(24, 80);
    let content = layout.create_view_window();
    let status = layout.create_new_status_bar_window();
    layout.clear();
    layout.clear();
    assert_eq!(layout.create_view_window(), content);
    assert_eq!(layout.create_new_status_bar_window(), status);
}

#[test]
fn windows_made_again_cover_the_same_regions() {
    let mut layout = terminal(40, 120);
    let content = layout.create_view_window();
    let status = layout.create_new_status_bar_window();
    assert_eq!(layout.create_view_window(), content);
    assert_eq!(layout.create_new_status_bar_window(), status);
    content.write(layout.get_writer(), b"between");
    layout.get_writer().flush();
    layout.get_writer().take_flushed();
    let again = layout.create_view_window();
    assert_eq!(again, content);
    assert_eq!(again.position(), content.position());
    assert_eq!(again.size(), content.size());
    assert_eq!(layout.create_new_status_bar_window(), status);
    assert_ne!(content, status);
}

#[test]
fn get_writer_gives_the_sink_of_the_layout() {
    let mut layout = terminal(24, 80);
    layout.get_writer().write(b"one");
    layout.get_writer().write(b"two");
    assert_eq!(layout.get_writer().written(), [CLEAR_ALL, b"one", b"two"].concat());
}

#[test]
fn windows_share_the_sink_of_the_layout() {
    let mut layout = terminal(24, 80);
    let content = layout.create_view_window();
    let status = layout.create_new_status_bar_window();
    content.write(layout.get_writer(), b"content");
    status.write(layout.get_writer(), b"status");
    content.write(layout.get_writer(), b"again");
    assert_eq!(
        layout.get_writer().written(),
        [CLEAR_ALL, b"content", b"status", b"again"].concat()
    );
}

#[test]
fn destroy_ends_with_color_reset_then_erase() {
    let mut layout = terminal(24, 80);
    let content = layout.create_view_window();
    content.write(layout.get_writer(), b"\x1b[31mred text");
    let sink = layout.destroy();
    let record = sink.written();
    assert!(record.ends_with(RESTORE));
    let end = record.len();
    assert_eq!(&record[end - 14..end - 9], FG_RESET);
    assert_eq!(&record[end - 9..end - 4], BG_RESET);
    assert_eq!(&record[end - 4..], CLEAR_ALL);
    assert_eq!(record, [CLEAR_ALL, b"\x1b[31mred text", RESTORE].concat());
    assert_eq!(sink.visible(), record.as_slice());
    assert!(sink.pending().is_empty());
}

#[test]
fn destroy_of_untouched_layout_sends_erase_and_restore() {
    let sink = terminal(2, 1).destroy();
    assert_eq!(sink.written(), [CLEAR_ALL, RESTORE].concat());
    assert_eq!(sink.visible(), [CLEAR_ALL, RESTORE].concat());
}

#[test]
fn destroy_after_drain_leaves_only_the_restore_sequence() {
    let mut layout = terminal(24, 80);
    layout.get_writer().write(b"text");
    layout.get_writer().flush();
    layout.get_writer().take_flushed();
    let mut sink = layout.destroy();
    assert_eq!(sink.take_flushed(), RESTORE.to_vec());
}
