//! Navigation rail: destinations, layout of the destination slots, the
//! colours of each destination, and how a click changes the selection.

use vstd::prelude::*;

use crate::theme::{ColorRole, Paint};

verus! {

/// A single destination in a navigation rail.
pub struct NavRailItem {
    /// Unicode icon character (from Material Symbols / NF font).
    pub icon: &'static str,
    /// Short label shown below the icon (should be at most 12 chars).
    pub label: &'static str,
}

impl NavRailItem {
    /// A destination with the given icon and label.
    pub fn new(icon: &'static str, label: &'static str) -> (item: Self)
        ensures
            item.icon@ == icon@,
            item.label@ == label@,
    {
        NavRailItem { icon, label }
    }
}


/// Rail width, in dp.
pub const RAIL_WIDTH_DP: u32 = 80;

/// Height of each destination slot, in dp: icon (24) + gap (4) + label
/// (about 16) + touch padding.
pub const SLOT_HEIGHT_DP: u32 = 72;

/// Padding above the first destination slot, in dp.
pub const TOP_PADDING_DP: u32 = 12;

/// Active indicator pill width, in dp.
pub const INDICATOR_WIDTH_DP: u32 = 56;

/// Active indicator pill height, in dp.
pub const INDICATOR_HEIGHT_DP: u32 = 32;

/// Gap between the bottom of the indicator pill and the top of the label, in dp.
pub const ICON_LABEL_GAP_DP: u32 = 4;

/// Icon size, in dp.
pub const ICON_SIZE_DP: u32 = 24;

/// Label font size, in sp.
pub const LABEL_SIZE_SP: u32 = 12;

/// Alpha of the thin divider on the rail's right edge.
pub const DIVIDER_ALPHA: u8 = 30;

/// Alpha of the pill that marks a hovered, unselected destination.
pub const HOVER_ALPHA: u8 = 20;

/// Distance from the top of the rail to the top of slot `index`: slots are
/// stacked from the top, after the top padding.
pub open spec fn slot_top(index: int) -> int {
    TOP_PADDING_DP + index * SLOT_HEIGHT_DP
}

/// Slot `index` is drawn only when its bottom lies at most 1dp below the
/// bottom of a rail of height `rail_height`.
pub open spec fn slot_fits(index: int, rail_height: int) -> bool {
    slot_top(index) + SLOT_HEIGHT_DP <= rail_height + 1
}

/// The number of destinations shown, in closed form.
pub open spec fn visible_slots_spec(item_count: int, rail_height: int) -> int {
    if rail_height + 1 < TOP_PADDING_DP + SLOT_HEIGHT_DP {
        0
    } else {
        let fitting = (rail_height + 1 - TOP_PADDING_DP) / (SLOT_HEIGHT_DP as int);
        if fitting < item_count { fitting } else { item_count }
    }
}

/// How many of `item_count` destinations a rail of height `rail_height` dp
/// (rounded down to whole dp) shows: the destinations are laid out from the
/// top, and the first one whose slot does not fit ends the rail.
pub fn visible_slot_count(item_count: usize, rail_height: u32) -> (count: usize)
    ensures
        count <= item_count,
        forall|i: int| 0 <= i < count ==> #[trigger] slot_fits(i, rail_height as int),
        count < item_count ==> !slot_fits(count as int, rail_height as int),
        count == visible_slots_spec(item_count as int, rail_height as int),
{
    let room: u64 = rail_height as u64 + 1;
    if room < (TOP_PADDING_DP + SLOT_HEIGHT_DP) as u64 {
        proof {
            assert(!slot_fits(0, rail_height as int));
        }
        return 0;
    }
    let fitting: u64 = (room - TOP_PADDING_DP as u64) / SLOT_HEIGHT_DP as u64;
    proof {
        let k = fitting as int;
        let r = (room - TOP_PADDING_DP) as int;
        assert(k * 72 <= r && r < (k + 1) * 72) by (nonlinear_arith)
            requires
                k == r / 72,
                r >= 0,
        ;
        assert forall|i: int| 0 <= i < k implies #[trigger] slot_fits(i, rail_height as int) by {
            assert((i + 1) * 72 <= k * 72) by (nonlinear_arith)
                requires
                    i + 1 <= k,
            ;
        }
    }
    if fitting < item_count as u64 {
        fitting as usize
    } else {
        item_count
    }
}

/// A taller rail shows at least as many destinations as a shorter one.
pub proof fn lemma_taller_rail_shows_more(item_count: int, low: int, high: int)
    requires
        0 <= item_count,
        0 <= low <= high,
    ensures
        visible_slots_spec(item_count, low) <= visible_slots_spec(item_count, high),
{
    let a = low + 1 - TOP_PADDING_DP;
    let b = high + 1 - TOP_PADDING_DP;
    if low + 1 >= TOP_PADDING_DP + SLOT_HEIGHT_DP {
        assert(a / 72 <= b / 72) by (nonlinear_arith)
            requires
                0 <= a <= b,
        ;
    }
}

/// The colours of one destination of the rail.
#[derive(Clone, Copy, Debug, PartialEq, Eq, Structural)]
pub struct RailItemStyle {
    /// Fill of the indicator pill behind the icon; transparent where no
    /// pill is drawn.
    pub indicator: Paint,
    /// Colour of the icon.
    pub icon: ColorRole,
    /// Colour of the label.
    pub label: ColorRole,
}

/// The colours of a destination: the selected one gets the
/// secondary-container pill, the on-secondary-container icon and the primary
/// label; every other destination has on-surface-variant icon and label,
/// and a faint on-surface-variant pill while hovered.
pub open spec fn rail_item_style_spec(is_selected: bool, is_hovered: bool) -> RailItemStyle {
    if is_selected {
        RailItemStyle {
            indicator: Paint::Solid(ColorRole::SecondaryContainer),
            icon: ColorRole::OnSecondaryContainer,
            label: ColorRole::Primary,
        }
    } else if is_hovered {
        RailItemStyle {
            indicator: Paint::WithAlpha(ColorRole::OnSurfaceVariant, HOVER_ALPHA),
            icon: ColorRole::OnSurfaceVariant,
            label: ColorRole::OnSurfaceVariant,
        }
    } else {
        RailItemStyle {
            indicator: Paint::Transparent,
            icon: ColorRole::OnSurfaceVariant,
            label: ColorRole::OnSurfaceVariant,
        }
    }
}

/// The colours of a destination that is or is not selected and hovered.
pub fn rail_item_style(is_selected: bool, is_hovered: bool) -> (style: RailItemStyle)
    ensures
        style == rail_item_style_spec(is_selected, is_hovered),
{
    if is_selected {
        RailItemStyle {
            indicator: Paint::Solid(ColorRole::SecondaryContainer),
            icon: ColorRole::OnSecondaryContainer,
            label: ColorRole::Primary,
        }
    } else if is_hovered {
        RailItemStyle {
            indicator: Paint::WithAlpha(ColorRole::OnSurfaceVariant, HOVER_ALPHA),
            icon: ColorRole::OnSurfaceVariant,
            label: ColorRole::OnSurfaceVariant,
        }
    } else {
        RailItemStyle {
            indicator: Paint::Transparent,
            icon: ColorRole::OnSurfaceVariant,
            label: ColorRole::OnSurfaceVariant,
        }
    }
}

/// The rail's background: the surface-container colour over the whole rail.
pub fn rail_background() -> (paint: Paint)
    ensures
        paint == Paint::Solid(ColorRole::SurfaceContainer),
{
    Paint::Solid(ColorRole::SurfaceContainer)
}

/// The thin divider on the rail's right edge: on-surface-variant at a low alpha.
pub fn rail_divider() -> (paint: Paint)
    ensures
        paint == Paint::WithAlpha(ColorRole::OnSurfaceVariant, DIVIDER_ALPHA),
{
    Paint::WithAlpha(ColorRole::OnSurfaceVariant, DIVIDER_ALPHA)
}

/// Handles the click state of destination `index`: a click on a destination
/// other than the selected one selects it and reports a change; a click on
/// the selected destination, or no click, changes nothing.
pub fn select_on_click(selected: &mut usize, index: usize, clicked: bool) -> (changed: bool)
    ensures
        changed == (clicked && *old(selected) != index),
        *final(selected) == (if changed { index } else { *old(selected) }),
{
    if clicked && *selected != index {
        *selected = index;
        true
    } else {
        false
    }
}

/// The selection and the change flag after the rail has handled the
/// destinations `0 .. clicks.len()` in order, starting from `selected`;
/// `clicks[i]` tells whether destination `i` was clicked.
pub open spec fn rail_frame(selected: int, clicks: Seq<bool>) -> (int, bool)
    decreases clicks.len(),
{
    if clicks.len() == 0 {
        (selected, false)
    } else {
        let before = rail_frame(selected, clicks.drop_last());
        let index = clicks.len() - 1;
        let step = clicks.last() && before.0 != index;
        (if step { index } else { before.0 }, before.1 || step)
    }
}

/// Some destination in `0 .. n` was clicked.
pub open spec fn clicked_before(clicks: Seq<bool>, n: int) -> bool {
    exists|i: int| 0 <= i < n && #[trigger] clicks[i]
}

/// The last clicked destination among `clicks`, when there is one.
pub open spec fn is_last_click(clicks: Seq<bool>, index: int) -> bool {
    &&& 0 <= index < clicks.len()
    &&& clicks[index]
    &&& forall|j: int| index < j < clicks.len() ==> !#[trigger] clicks[j]
}

/// Over one frame of the rail: the destination that ends up selected is the
/// last one clicked, or the previous selection when none was clicked; the
/// rail reports a change exactly when some destination other than the
/// previous selection was clicked.
pub proof fn lemma_rail_frame(selected: int, clicks: Seq<bool>)
    ensures
        clicked_before(clicks, clicks.len() as int) ==> is_last_click(clicks, rail_frame(selected, clicks).0),
        !clicked_before(clicks, clicks.len() as int) ==> rail_frame(selected, clicks).0 == selected,
        rail_frame(selected, clicks).1 <==> exists|i: int|
            0 <= i < clicks.len() && #[trigger] clicks[i] && i != selected,
        rail_frame(selected, clicks).0 == selected || 0 <= rail_frame(selected, clicks).0
            < clicks.len(),
    decreases clicks.len(),
{
    if clicks.len() > 0 {
        let prefix = clicks.drop_last();
        lemma_rail_frame(selected, prefix);
        let n = clicks.len() - 1;
        assert forall|i: int| 0 <= i < n implies prefix[i] == clicks[i] by {}
        if clicked_before(prefix, n) {
            let w = choose|i: int| 0 <= i < n && #[trigger] prefix[i];
            assert(clicks[w]);
        }
        if clicked_before(clicks, n + 1) && !clicks[n] {
            let w = choose|i: int| 0 <= i < n + 1 && #[trigger] clicks[i];
            assert(prefix[w]);
        }
        let before = rail_frame(selected, prefix);
        if (exists|i: int| 0 <= i < prefix.len() && #[trigger] prefix[i] && i != selected) {
            let w = choose|i: int| 0 <= i < prefix.len() && #[trigger] prefix[i] && i != selected;
            assert(clicks[w]);
        }
        if (exists|i: int| 0 <= i < clicks.len() && #[trigger] clicks[i] && i != selected) {
            let w = choose|i: int| 0 <= i < clicks.len() && #[trigger] clicks[i] && i != selected;
            if w < n {
                assert(prefix[w]);
            } else if !before.1 && before.0 == n {
                // no earlier click moved the selection, so it is still the previous one
                if clicked_before(prefix, n) {
                    assert(is_last_click(prefix, before.0));
                }
            }
        }
    }
}

/// Destination `index` is drawn as the active one in a frame exactly when
/// the selection, as the clicks on the destinations before it have left it,
/// equals `index`.
pub open spec fn drawn_active(selected: int, clicks: Seq<bool>, index: int) -> bool {
    rail_frame(selected, clicks.take(index)).0 == index
}

/// Within one frame at most one destination is drawn active: the one that
/// was selected when the frame began, and only while no click on an earlier
/// destination has moved the selection.
pub proof fn lemma_single_active(selected: int, clicks: Seq<bool>, index: int)
    requires
        0 <= index < clicks.len(),
        drawn_active(selected, clicks, index),
    ensures
        index == selected,
        !clicked_before(clicks, index),
{
    let prefix = clicks.take(index);
    lemma_rail_frame(selected, prefix);
    assert forall|i: int| 0 <= i < index implies prefix[i] == clicks[i] by {}
    if clicked_before(clicks, index) {
        let w = choose|i: int| 0 <= i < index && #[trigger] clicks[i];
        assert(prefix[w]);
        assert(is_last_click(prefix, rail_frame(selected, prefix).0));
    }
}

} // verus!
