use egui_material3::navigation_rail::{
    rail_background, rail_divider, rail_item_style, select_on_click, visible_slot_count,
    DIVIDER_ALPHA, HOVER_ALPHA, RAIL_WIDTH_DP, SLOT_HEIGHT_DP, TOP_PADDING_DP,
};
use egui_material3::{ColorRole, NavRailItem, Paint, RailItemStyle};

#[test]
fn nav_rail_item_keeps_icon_and_label() {
    let item = NavRailItem::new("\u{e8b8}", "General");
    assert_eq!(item.icon, "\u{e8b8}");
    assert_eq!(item.label, "General");
}

#[test]
fn rail_spec_dimensions() {
    assert_eq!(RAIL_WIDTH_DP, 80);
    assert_eq!(SLOT_HEIGHT_DP, 72);
    assert_eq!(TOP_PADDING_DP, 12);
}

#[test]
fn visible_slots_fill_from_the_top() {
    // 12 + 4 * 72 = 300: four slots end exactly at 300, and 1dp of slack is allowed.
    assert_eq!(visible_slot_count(10, 300), 4);
    assert_eq!(visible_slot_count(10, 299), 4);
    assert_eq!(visible_slot_count(10, 298), 3);
    assert_eq!(visible_slot_count(10, 371), 5);
    assert_eq!(visible_slot_count(10, 370), 4);
}

#[test]
fn visible_slots_never_exceed_items() {
    assert_eq!(visible_slot_count(2, 1000), 2);
    assert_eq!(visible_slot_count(0, 1000), 0);
}

#[test]
fn visible_slots_too_short_rail() {
    assert_eq!(visible_slot_count(3, 0), 0);
    assert_eq!(visible_slot_count(3, 82), 0);
    assert_eq!(visible_slot_count(3, 83), 1);
    assert_eq!(visible_slot_count(3, u32::MAX), 3);
}

#[test]
fn selected_item_style() {
    let s = rail_item_style(true, false);
    assert_eq!(
        s,
        RailItemStyle {
            indicator: Paint::Solid(ColorRole::SecondaryContainer),
            icon: ColorRole::OnSecondaryContainer,
            label: ColorRole::Primary,
        }
    );
    assert_eq!(rail_item_style(true, true), s);
}

#[test]
fn hovered_item_style() {
    let s = rail_item_style(false, true);
    assert_eq!(s.indicator, Paint::WithAlpha(ColorRole::OnSurfaceVariant, HOVER_ALPHA));
    assert_eq!(HOVER_ALPHA, 20);
    assert_eq!(s.icon, ColorRole::OnSurfaceVariant);
    assert_eq!(s.label, ColorRole::OnSurfaceVariant);
}

#[test]
fn idle_item_style() {
    let s = rail_item_style(false, false);
    assert_eq!(s.indicator, Paint::Transparent);
    assert_eq!(s.icon, ColorRole::OnSurfaceVariant);
    assert_eq!(s.label, ColorRole::OnSurfaceVariant);
}

#[test]
fn rail_chrome() {
    assert_eq!(rail_background(), Paint::Solid(ColorRole::SurfaceContainer));
    assert_eq!(rail_divider(), Paint::WithAlpha(ColorRole::OnSurfaceVariant, 30));
    assert_eq!(DIVIDER_ALPHA, 30);
}

#[test]
fn click_on_other_item_selects_it() {
    let mut selected = 0usize;
    assert!(select_on_click(&mut selected, 2, true));
    assert_eq!(selected, 2);
}

#[test]
fn click_on_selected_item_changes_nothing() {
    let mut selected = 1usize;
    assert!(!select_on_click(&mut selected, 1, true));
    assert_eq!(selected, 1);
}

#[test]
fn no_click_changes_nothing() {
    let mut selected = 1usize;
    assert!(!select_on_click(&mut selected, 3, false));
    assert_eq!(selected, 1);
}

fn run_frame(selected: &mut usize, clicks: &[bool]) -> (bool, Vec<bool>) {
    let mut changed = false;
    let mut drawn_active = Vec::new();
    for (i, &clicked) in clicks.iter().enumerate() {
        drawn_active.push(*selected == i);
        if select_on_click(selected, i, clicked) {
            changed = true;
        }
    }
    (changed, drawn_active)
}

#[test]
fn frame_ends_on_last_click() {
    let mut selected = 0usize;
    let (changed, active) = run_frame(&mut selected, &[false, true, false, true]);
    assert!(changed);
    assert_eq!(selected, 3);
    assert_eq!(active, vec![true, false, false, false]);
}

#[test]
fn frame_back_to_previous_selection_still_reports_change() {
    // a click elsewhere first, then on the previous selection: the change is reported
    let mut selected = 2usize;
    let (changed, _) = run_frame(&mut selected, &[true, false, true]);
    assert!(changed);
    assert_eq!(selected, 2);
}

#[test]
fn frame_without_clicks_keeps_selection() {
    let mut selected = 1usize;
    let (changed, active) = run_frame(&mut selected, &[false, false, false]);
    assert!(!changed);
    assert_eq!(selected, 1);
    assert_eq!(active, vec![false, true, false]);
}

#[test]
fn frame_click_on_selected_only() {
    let mut selected = 1usize;
    let (changed, active) = run_frame(&mut selected, &[false, true, false]);
    assert!(!changed);
    assert_eq!(selected, 1);
    assert_eq!(active.iter().filter(|a| **a).count(), 1);
}

#[test]
fn taller_rail_shows_at_least_as_many() {
    let mut last = 0usize;
    for h in 0u32..1200 {
        let n = visible_slot_count(20, h);
        assert!(n >= last);
        last = n;
    }
    assert_eq!(last, 16);
}
