use horto_os_ui_tui::clock::timestamp;
use horto_os_ui_tui::layout::{centered_rect, Area};
use ratatui::layout::{Constraint, Direction, Layout, Rect};

#[test]
fn centered_rect_is_the_middle_band() {
    let area = Area { x: 0, y: 0, width: 100, height: 50 };
    let r = centered_rect(60, 40, area);
    assert_eq!(r, Area { x: 20, y: 15, width: 60, height: 20 });
    let rows = Layout::default()
        .direction(Direction::Vertical)
        .constraints([
            Constraint::Percentage(15),
            Constraint::Percentage(70),
            Constraint::Percentage(15),
        ])
        .split(Rect::new(3, 4, 80, 24));
    let cols = Layout::default()
        .direction(Direction::Horizontal)
        .constraints([
            Constraint::Percentage(15),
            Constraint::Percentage(70),
            Constraint::Percentage(15),
        ])
        .split(rows[1]);
    let got = centered_rect(70, 70, Area { x: 3, y: 4, width: 80, height: 24 });
    assert_eq!((got.x, got.y, got.width, got.height), (cols[1].x, cols[1].y, cols[1].width, cols[1].height));
    assert_ne!(got, Area { x: 3, y: 4, width: 80, height: 24 });
}

#[test]
fn timestamp_has_clock_shape() {
    let t = timestamp();
    let b = t.as_bytes();
    assert_eq!(b.len(), 8);
    assert_eq!(b[2], b':');
    assert_eq!(b[5], b':');
    for i in [0, 1, 3, 4, 6, 7] {
        assert!(b[i].is_ascii_digit());
    }
}
