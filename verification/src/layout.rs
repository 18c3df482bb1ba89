use vstd::prelude::*;
use ratatui::layout::{Constraint, Direction, Layout, Rect};
use crate::app_state::{AppState, EditorMode, MainScreenElement};
use crate::popup::{PopupModel, url_popup, headers_popup, body_popup};

verus! {

/// A rectangle of terminal cells.
#[derive(Clone, Copy, Debug, PartialEq, Eq, Structural)]
pub struct Area {
    pub x: u16,
    pub y: u16,
    pub width: u16,
    pub height: u16,
}

/// The direction in which an area is cut into parts.
#[derive(Clone, Copy, Debug, PartialEq, Eq, Structural)]
pub enum Axis {
    /// Parts stacked top to bottom.
    Vertical,
    /// Parts side by side, left to right.
    Horizontal,
}

/// The size asked of one part of a split.
#[derive(Clone, Copy, Debug, PartialEq, Eq, Structural)]
pub enum SizeRule {
    /// Exactly this many cells.
    Length(u16),
    /// At least this many cells.
    Min(u16),
    /// This percentage of the whole.
    Percentage(u16),
    /// A share of what is left, by this weight.
    Fill(u16),
}

/// How a pane's border is drawn.
#[derive(Clone, Copy, Debug, PartialEq, Eq, Structural)]
pub enum BorderTone {
    /// The selected pane (yellow).
    Selected,
    /// Any other pane (dark grey).
    Normal,
}

/// Whether `parts` is an outcome of ratatui's `Layout::split` of `area` in
/// the direction `axis` under the constraints `rules`. This is a relation,
/// not a function: the solver that ratatui uses walks hash maps seeded
/// afresh in each process, so equal arguments need not give equal parts.
pub uninterp spec fn layout_parts(area: Area, axis: Axis, rules: Seq<SizeRule>, parts: Seq<Area>) -> bool;

/// How many cells a rule asks for outright: a length or a minimum; none for
/// a percentage or a fill.
pub open spec fn fixed_amount(r: SizeRule) -> int {
    match r {
        SizeRule::Length(n) => n as int,
        SizeRule::Min(n) => n as int,
        _ => 0,
    }
}

/// The cells that `rules` ask for outright, in all.
pub open spec fn fixed_sum(rules: Seq<SizeRule>) -> int
    decreases rules.len(),
{
    if rules.len() == 0 {
        0
    } else {
        fixed_sum(rules.drop_last()) + fixed_amount(rules.last())
    }
}

/// No rule asks for a percentage.
pub open spec fn no_percentage(rules: Seq<SizeRule>) -> bool {
    forall|i: int| 0 <= i < rules.len() ==> !((#[trigger] rules[i]) is Percentage)
}

/// The cells of `area` along the cut, up to the last cell of the screen.
pub open spec fn room_along(area: Area, axis: Axis) -> int {
    match axis {
        Axis::Vertical => if area.y + area.height <= u16::MAX { area.height as int } else {
            u16::MAX - area.y
        },
        Axis::Horizontal => if area.x + area.width <= u16::MAX { area.width as int } else {
            u16::MAX - area.x
        },
    }
}

/// The size of `part` along the cut.
pub open spec fn size_along(part: Area, axis: Axis) -> int {
    match axis {
        Axis::Vertical => part.height as int,
        Axis::Horizontal => part.width as int,
    }
}

/// What every outcome of splitting `area` by `rules` along `axis` is known
/// to satisfy: one part per rule; each part keeps the area's extent across
/// the cut and lies within the area along it; and when no rule asks for a
/// percentage and the lengths and minimums fit in the area, every `Length`
/// part gets exactly its length.
pub open spec fn split_facts(area: Area, axis: Axis, rules: Seq<SizeRule>, parts: Seq<Area>) -> bool {
    &&& parts.len() == rules.len()
    &&& forall|i: int|
        0 <= i < parts.len() ==> match axis {
            Axis::Horizontal => (#[trigger] parts[i]).y == area.y && parts[i].height == area.height
                && area.x <= parts[i].x && parts[i].x + parts[i].width <= area.x + area.width,
            Axis::Vertical => (#[trigger] parts[i]).x == area.x && parts[i].width == area.width
                && area.y <= parts[i].y && parts[i].y + parts[i].height <= area.y + area.height,
        }
    &&& no_percentage(rules) && fixed_sum(rules) <= room_along(area, axis) ==> forall|i: int|
        0 <= i < parts.len() ==> ((#[trigger] rules[i]) matches SizeRule::Length(n) ==> size_along(
            parts[i],
            axis,
        ) == n)
}

/// `ratatui::layout::Layout::split` of `Layout::new` (no margin, no
/// spacing, default flex) in the given direction and with the given
/// constraints (see `split_facts`). As its source shows, it returns one part
/// per constraint; each part keeps the area's extent across the cut; and
/// each part lies within the area along the cut, since the solver is given
/// as required constraints that every edge lies within the area and that
/// each part ends no earlier than it starts, and the edges are rounded to
/// whole cells. `Constraint::Length`'s documentation says the part is set
/// to the given amount, and `Constraint::Fill`'s that a fill only takes
/// space left after all other constraints are met; the solver weighs a
/// length (`LENGTH_SIZE_EQ`) above every growth strength. So, when no
/// percentage competes and the lengths and minimums fit, each length part
/// gets its length. Where else the parts lie is what the solver finds: the
/// contract records that they are an outcome of this split
/// (`layout_parts`) and states nothing more of it.
#[verifier::external_body]
fn split_area(area: Area, axis: Axis, rules: &Vec<SizeRule>) -> (parts: Vec<Area>)
    ensures
        layout_parts(area, axis, rules@, parts@),
        split_facts(area, axis, rules@, parts@),
{
    let dir = match axis {
        Axis::Vertical => Direction::Vertical,
        Axis::Horizontal => Direction::Horizontal,
    };
    let cs = rules.iter().map(|r| match *r {
        SizeRule::Length(n) => Constraint::Length(n),
        SizeRule::Min(n) => Constraint::Min(n),
        SizeRule::Percentage(n) => Constraint::Percentage(n),
        SizeRule::Fill(n) => Constraint::Fill(n),
    });
    let rect = Rect { x: area.x, y: area.y, width: area.width, height: area.height };
    let parts = Layout::new(dir, cs).split(rect);
    parts.iter().map(|p| Area { x: p.x, y: p.y, width: p.width, height: p.height }).collect()
}

/// `inner` lies within `outer`.
pub open spec fn within(inner: Area, outer: Area) -> bool {
    &&& outer.x <= inner.x
    &&& inner.x + inner.width <= outer.x + outer.width
    &&& outer.y <= inner.y
    &&& inner.y + inner.height <= outer.y + outer.height
}

/// The border tone of `element` when `selected` is the selected pane.
pub fn style_for(selected: MainScreenElement, element: MainScreenElement) -> (t: BorderTone)
    ensures
        t == if selected == element { BorderTone::Selected } else { BorderTone::Normal },
{
    if selected == element {
        BorderTone::Selected
    } else {
        BorderTone::Normal
    }
}

/// Three parts: equal margins around a middle of `percent` percent.
pub open spec fn centred_rules(percent: u16) -> Seq<SizeRule> {
    let side = ((100 - percent) / 2) as u16;
    seq![SizeRule::Percentage(side), SizeRule::Percentage(percent), SizeRule::Percentage(side)]
}

/// The rules of `centred_rules`.
pub fn centred(percent: u16) -> (rules: Vec<SizeRule>)
    requires
        percent <= 100,
    ensures
        rules@ == centred_rules(percent),
{
    let side = (100 - percent) / 2;
    let mut rules = Vec::new();
    rules.push(SizeRule::Percentage(side));
    rules.push(SizeRule::Percentage(percent));
    rules.push(SizeRule::Percentage(side));
    assert(rules@ =~= centred_rules(percent));
    rules
}

/// `a` is the middle part of a horizontal split by `centred_rules(percent_x)`
/// of the middle part of a vertical split of `r` by `centred_rules(percent_y)`.
pub open spec fn centred_box(percent_x: u16, percent_y: u16, r: Area, a: Area) -> bool {
    exists|rows: Seq<Area>, cols: Seq<Area>|
        #[trigger] layout_parts(r, Axis::Vertical, centred_rules(percent_y), rows)
            && split_facts(r, Axis::Vertical, centred_rules(percent_y), rows)
            && #[trigger] layout_parts(rows[1], Axis::Horizontal, centred_rules(percent_x), cols)
            && split_facts(rows[1], Axis::Horizontal, centred_rules(percent_x), cols)
            && a == cols[1]
}

/// The middle one of three parts.
pub fn middle_part(parts: &Vec<Area>) -> (a: Area)
    requires
        parts@.len() == 3,
    ensures
        a == parts@[1],
{
    parts[1]
}

/// The middle of `r` after a vertical split by `centred_rules(percent_y)`,
/// then the middle of that after a horizontal split by
/// `centred_rules(percent_x)` (see `centred_box`); it lies within `r`.
pub fn centered_rect(percent_x: u16, percent_y: u16, r: Area) -> (a: Area)
    requires
        percent_x <= 100,
        percent_y <= 100,
    ensures
        centred_box(percent_x, percent_y, r, a),
        within(a, r),
{
    let popup_layout = split_area(r, Axis::Vertical, &centred(percent_y));
    let row = middle_part(&popup_layout);
    let columns = split_area(row, Axis::Horizontal, &centred(percent_x));
    let a = middle_part(&columns);
    assert(layout_parts(r, Axis::Vertical, centred_rules(percent_y), popup_layout@)
        && split_facts(r, Axis::Vertical, centred_rules(percent_y), popup_layout@)
        && layout_parts(popup_layout@[1], Axis::Horizontal, centred_rules(percent_x), columns@)
        && split_facts(popup_layout@[1], Axis::Horizontal, centred_rules(percent_x), columns@)
        && a == columns@[1]);
    a
}

/// Rules for a band of fixed `height` between two equal fillers.
pub open spec fn fixed_band_rules(height: u16) -> Seq<SizeRule> {
    seq![SizeRule::Fill(1), SizeRule::Length(height), SizeRule::Fill(1)]
}

/// The rules of `fixed_band_rules`.
pub fn fixed_band(height: u16) -> (rules: Vec<SizeRule>)
    ensures
        rules@ == fixed_band_rules(height),
{
    let mut rules = Vec::new();
    rules.push(SizeRule::Fill(1));
    rules.push(SizeRule::Length(height));
    rules.push(SizeRule::Fill(1));
    assert(rules@ =~= fixed_band_rules(height));
    rules
}

/// `a` is the middle part of a horizontal split by `centred_rules(percent_x)`
/// of the middle part of a vertical split of `r` by `fixed_band_rules(height)`.
pub open spec fn band_box(percent_x: u16, height: u16, r: Area, a: Area) -> bool {
    exists|rows: Seq<Area>, cols: Seq<Area>|
        #[trigger] layout_parts(r, Axis::Vertical, fixed_band_rules(height), rows)
            && split_facts(r, Axis::Vertical, fixed_band_rules(height), rows)
            && #[trigger] layout_parts(rows[1], Axis::Horizontal, centred_rules(percent_x), cols)
            && split_facts(rows[1], Axis::Horizontal, centred_rules(percent_x), cols)
            && a == cols[1]
}

/// The middle of `r` after a vertical split by `fixed_band_rules(height)`,
/// then the middle of that after a horizontal split by
/// `centred_rules(percent_x)` (see `band_box`); it lies within `r`.
pub fn centered_rect_fixed(percent_x: u16, height: u16, r: Area) -> (a: Area)
    requires
        percent_x <= 100,
    ensures
        band_box(percent_x, height, r, a),
        within(a, r),
        height <= r.height && r.y + r.height <= u16::MAX ==> a.height == height,
{
    let split_v = split_area(r, Axis::Vertical, &fixed_band(height));
    proof {
        lemma_fixed_band_fits(height);
        assert(fixed_band_rules(height)[1] == SizeRule::Length(height));
    }
    let split_h = split_area(middle_part(&split_v), Axis::Horizontal, &centred(percent_x));
    let a = middle_part(&split_h);
    assert(layout_parts(r, Axis::Vertical, fixed_band_rules(height), split_v@)
        && split_facts(r, Axis::Vertical, fixed_band_rules(height), split_v@)
        && layout_parts(split_v@[1], Axis::Horizontal, centred_rules(percent_x), split_h@)
        && split_facts(split_v@[1], Axis::Horizontal, centred_rules(percent_x), split_h@)
        && a == split_h@[1]);
    a
}

/// The fixed band asks outright for its height only, and for no percentage.
proof fn lemma_fixed_band_fits(height: u16)
    ensures
        fixed_sum(fixed_band_rules(height)) == height,
        no_percentage(fixed_band_rules(height)),
{
    let rules = fixed_band_rules(height);
    assert(rules.drop_last() =~= seq![SizeRule::Fill(1), SizeRule::Length(height)]);
    assert(rules.drop_last().drop_last() =~= seq![SizeRule::Fill(1)]);
    assert(rules.drop_last().drop_last().drop_last() =~= Seq::<SizeRule>::empty());
    reveal_with_fuel(fixed_sum, 4);
}

/// The top rules ask outright for four cells, and for no percentage.
proof fn lemma_top_rules_fit()
    ensures
        fixed_sum(top_rules()) == 4,
        no_percentage(top_rules()),
{
    let rules = top_rules();
    assert(rules.drop_last() =~= seq![SizeRule::Length(3)]);
    assert(rules.drop_last().drop_last() =~= Seq::<SizeRule>::empty());
    reveal_with_fuel(fixed_sum, 3);
}

/// Where the panes of the main screen go.
pub struct MainAreas {
    pub url: Area,
    pub response: Area,
    pub headers: Area,
    pub body: Area,
}

/// Two rules: a row of three cells and the rest.
pub open spec fn top_rules() -> Seq<SizeRule> {
    seq![SizeRule::Length(3), SizeRule::Min(1)]
}

/// Two rules of the given percentages.
pub open spec fn split_rules(first: u16, second: u16) -> Seq<SizeRule> {
    seq![SizeRule::Percentage(first), SizeRule::Percentage(second)]
}

fn two_rules(first: SizeRule, second: SizeRule) -> (rules: Vec<SizeRule>)
    ensures
        rules@ == seq![first, second],
{
    let mut rules = Vec::new();
    rules.push(first);
    rules.push(second);
    assert(rules@ =~= seq![first, second]);
    rules
}

/// The panes of `m` come from three splits: `screen` vertically by
/// `top_rules()` into the URL row and the rest; the rest horizontally by
/// `split_rules(25, 75)` into a left column and the response pane; the left
/// column vertically by `split_rules(50, 50)` into headers and body.
pub open spec fn main_split(screen: Area, m: MainAreas) -> bool {
    exists|rows: Seq<Area>, cols: Seq<Area>, left: Seq<Area>|
        #[trigger] layout_parts(screen, Axis::Vertical, top_rules(), rows)
            && split_facts(screen, Axis::Vertical, top_rules(), rows)
            && #[trigger] layout_parts(rows[1], Axis::Horizontal, split_rules(25, 75), cols)
            && split_facts(rows[1], Axis::Horizontal, split_rules(25, 75), cols)
            && #[trigger] layout_parts(cols[0], Axis::Vertical, split_rules(50, 50), left)
            && split_facts(cols[0], Axis::Vertical, split_rules(50, 50), left)
            && m.url == rows[0] && m.response == cols[1] && m.headers == left[0] && m.body == left[1]
}

/// The main screen: a URL row three cells high across the top; below it,
/// headers over body in the left quarter and the response in the rest
/// (see `main_split`).
pub fn main_areas(screen: Area) -> (m: MainAreas)
    ensures
        main_split(screen, m),
        screen.height >= 4 && screen.y + screen.height <= u16::MAX ==> m.url.height == 3,
        m.url.x == screen.x,
        m.url.width == screen.width,
        m.headers.x == m.body.x,
        m.headers.width == m.body.width,
{
    let chunks = split_area(screen, Axis::Vertical, &two_rules(SizeRule::Length(3), SizeRule::Min(1)));
    proof {
        lemma_top_rules_fit();
        assert(top_rules()[0] == SizeRule::Length(3));
    }
    let body_h_res = split_area(
        chunks[1],
        Axis::Horizontal,
        &two_rules(SizeRule::Percentage(25), SizeRule::Percentage(75)),
    );
    let h_body = split_area(
        body_h_res[0],
        Axis::Vertical,
        &two_rules(SizeRule::Percentage(50), SizeRule::Percentage(50)),
    );
    let m = MainAreas { url: chunks[0], response: body_h_res[1], headers: h_body[0], body: h_body[1] };
    assert(layout_parts(screen, Axis::Vertical, top_rules(), chunks@)
        && split_facts(screen, Axis::Vertical, top_rules(), chunks@)
        && layout_parts(chunks@[1], Axis::Horizontal, split_rules(25, 75), body_h_res@)
        && split_facts(chunks@[1], Axis::Horizontal, split_rules(25, 75), body_h_res@)
        && layout_parts(body_h_res@[0], Axis::Vertical, split_rules(50, 50), h_body@)
        && split_facts(body_h_res@[0], Axis::Vertical, split_rules(50, 50), h_body@)
        && m.url == chunks@[0] && m.response == body_h_res@[1] && m.headers == h_body@[0]
        && m.body == h_body@[1]);
    m
}

/// The kind of box an editing popup is drawn in.
#[derive(Clone, Copy, Debug, PartialEq, Eq, Structural)]
pub enum PopupPlacement {
    /// Centred, 80% wide and five rows high.
    FixedBand { percent_x: u16, height: u16 },
    /// Centred, 60% wide and 80% high.
    Centered { percent_x: u16, percent_y: u16 },
}

/// The URL editor is a short band; the other editors take most of the screen.
pub open spec fn placement_of(section: MainScreenElement) -> PopupPlacement {
    match section {
        MainScreenElement::Url => PopupPlacement::FixedBand { percent_x: 80, height: 5 },
        _ => PopupPlacement::Centered { percent_x: 60, percent_y: 80 },
    }
}

/// Decides `placement_of`.
pub fn popup_placement(section: MainScreenElement) -> (p: PopupPlacement)
    ensures
        p == placement_of(section),
{
    match section {
        MainScreenElement::Url => PopupPlacement::FixedBand { percent_x: 80, height: 5 },
        MainScreenElement::Body | MainScreenElement::Headers | MainScreenElement::Response => {
            PopupPlacement::Centered { percent_x: 60, percent_y: 80 }
        },
    }
}

/// `a` is the box on `screen` for a popup placed by `p`.
pub open spec fn placed_box(p: PopupPlacement, screen: Area, a: Area) -> bool {
    match p {
        PopupPlacement::FixedBand { percent_x, height } => band_box(percent_x, height, screen, a),
        PopupPlacement::Centered { percent_x, percent_y } => centred_box(percent_x, percent_y, screen, a),
    }
}

/// The box on `screen` for a popup placed by `p`: the one that
/// `centered_rect_fixed` or `centered_rect` gives, which lies within `screen`.
pub fn place(p: PopupPlacement, screen: Area) -> (a: Area)
    requires
        match p {
            PopupPlacement::FixedBand { percent_x, height } => percent_x <= 100,
            PopupPlacement::Centered { percent_x, percent_y } => percent_x <= 100 && percent_y <= 100,
        },
    ensures
        placed_box(p, screen, a),
        within(a, screen),
{
    match p {
        PopupPlacement::FixedBand { percent_x, height } => centered_rect_fixed(percent_x, height, screen),
        PopupPlacement::Centered { percent_x, percent_y } => centered_rect(percent_x, percent_y, screen),
    }
}

impl AppState {
    /// The editing popup to draw over the screen, with its box: only in edit
    /// mode, and only for a pane that has an editor.
    pub fn editor_overlay(&self, screen: Area) -> (r: Option<(PopupModel, Area)>)
        ensures
            self.mode == EditorMode::View ==> r is None,
            r matches Some(pa) ==> placed_box(placement_of(self.selected_section), screen, pa.1)
                && within(pa.1, screen),
            self.mode == EditorMode::Edit ==> match self.selected_section {
                MainScreenElement::Url => r matches Some(pa) && pa.0@ == url_popup(self@.url),
                MainScreenElement::Headers => r matches Some(pa) && pa.0@ == headers_popup(
                    self@.rows,
                    self@.selected,
                    self@.editing_value,
                ),
                MainScreenElement::Body => r matches Some(pa) && pa.0@ == body_popup(
                    self@.body,
                    self@.body_valid,
                ),
                MainScreenElement::Response => r is None,
            },
    {
        if self.mode == EditorMode::Edit {
            match self.get_editor() {
                Some(p) => {
                    let area = place(popup_placement(self.selected_section), screen);
                    Some((p, area))
                },
                None => None,
            }
        } else {
            None
        }
    }
}

} // verus!
