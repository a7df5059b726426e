use crunch::layout::{centered_rect, Area};
use ratatui::layout::{Constraint, Direction, Layout, Rect};

fn ratatui_centered(percent_x: u16, percent_y: u16, area: Rect) -> Rect {
    let vertical = Layout::default()
        .direction(Direction::Vertical)
        .constraints([
            Constraint::Percentage((100 - percent_y) / 2),
            Constraint::Percentage(percent_y),
            Constraint::Percentage((100 - percent_y) / 2),
        ])
        .split(area);
    Layout::default()
        .direction(Direction::Horizontal)
        .constraints([
            Constraint::Percentage((100 - percent_x) / 2),
            Constraint::Percentage(percent_x),
            Constraint::Percentage((100 - percent_x) / 2),
        ])
        .split(vertical[1])[1]
}

#[test]
fn centered_rect_shrinks_into_the_middle() {
    let area = Area { x: 0, y: 0, width: 100, height: 40 };
    let r = centered_rect(50, 35, area);
    assert_ne!(r, area);
    assert_eq!(r, Area { x: 25, y: 13, width: 50, height: 14 });
}

#[test]
fn centered_rect_matches_ratatui_layout() {
    for (px, py, w, h) in [(50u16, 35u16, 80u16, 24u16), (42, 45, 120, 40), (100, 100, 10, 10), (0, 0, 30, 30)] {
        let r = centered_rect(px, py, Area { x: 3, y: 2, width: w, height: h });
        let e = ratatui_centered(px, py, Rect { x: 3, y: 2, width: w, height: h });
        assert_eq!((r.x, r.y, r.width, r.height), (e.x, e.y, e.width, e.height));
    }
}
