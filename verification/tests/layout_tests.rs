use bounce::layout::{bhop_panel_width, dashboard_layout, obstacle_start_x, PanelRect};

#[test]
fn stacked_layout_with_system_panel() {
    let l = dashboard_layout(80, 30, true);
    assert_eq!(l.console, PanelRect { x: 76, y: 0, w: 3, h: 15 });
    assert_eq!(l.game, PanelRect { x: 76, y: 15, w: 3, h: 13 });
    assert!(!l.wide);
}

#[test]
fn three_column_layout() {
    let l = dashboard_layout(220, 40, true);
    assert_eq!(l.console, PanelRect { x: 76, y: 0, w: 71, h: 38 });
    assert_eq!(l.game, PanelRect { x: 148, y: 0, w: 72, h: 38 });
    assert!(l.wide);
}

#[test]
fn two_column_layout_without_system_panel() {
    let l = dashboard_layout(120, 30, false);
    assert_eq!(l.console, PanelRect { x: 0, y: 0, w: 59, h: 28 });
    assert_eq!(l.game, PanelRect { x: 60, y: 0, w: 60, h: 28 });
    assert!(l.wide);
}

#[test]
fn stacked_layout_without_system_panel() {
    let l = dashboard_layout(100, 31, false);
    assert_eq!(l.console, PanelRect { x: 0, y: 0, w: 100, h: 15 });
    assert_eq!(l.game, PanelRect { x: 0, y: 15, w: 100, h: 14 });
    assert!(!l.wide);
}

#[test]
fn game_width_matches_layout() {
    for &(cols, show) in &[(80usize, true), (219, true), (220, true), (300, true), (80, false), (119, false), (120, false), (333, false)] {
        assert_eq!(bhop_panel_width(cols, show), dashboard_layout(cols, 30, show).game.w);
    }
}

#[test]
fn game_width_on_narrow_screens_saturates() {
    assert_eq!(bhop_panel_width(50, true), 0);
    assert_eq!(bhop_panel_width(50, false), 50);
}

#[test]
fn obstacle_start_positions() {
    assert_eq!(obstacle_start_x(80, true), 40);
    assert_eq!(obstacle_start_x(100, false), 92);
    assert_eq!(obstacle_start_x(300, true), 104);
}

#[test]
fn panels_never_overlap_and_stay_on_screen() {
    for cols in 80..400usize {
        for &rows in &[30usize, 31, 47, 100] {
            for &show in &[true, false] {
                let l = dashboard_layout(cols, rows, show);
                let (c, g) = (l.console, l.game);
                assert!(c.x + c.w <= cols && g.x + g.w <= cols);
                assert!(c.y + c.h <= rows - 2 && g.y + g.h <= rows - 2);
                let apart = c.x + c.w <= g.x || g.x + g.w <= c.x || c.y + c.h <= g.y || g.y + g.h <= c.y;
                assert!(apart);
                if show {
                    assert!(c.x >= 76 && g.x >= 76);
                }
            }
        }
    }
}
