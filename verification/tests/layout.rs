use reqtui::app_state::MainScreenElement;
use reqtui::layout::{
    centered_rect, centered_rect_fixed, centred, fixed_band, main_areas, place, popup_placement, style_for,
    Area, BorderTone, PopupPlacement, SizeRule,
};

#[test]
fn style_for_highlights_selected_pane() {
    assert_eq!(style_for(MainScreenElement::Url, MainScreenElement::Url), BorderTone::Selected);
    assert_eq!(style_for(MainScreenElement::Url, MainScreenElement::Body), BorderTone::Normal);
}

#[test]
fn centred_rules_split_the_rest_evenly() {
    assert_eq!(centred(60), vec![SizeRule::Percentage(20), SizeRule::Percentage(60), SizeRule::Percentage(20)]);
    assert_eq!(centred(75), vec![SizeRule::Percentage(12), SizeRule::Percentage(75), SizeRule::Percentage(12)]);
    assert_eq!(fixed_band(5), vec![SizeRule::Fill(1), SizeRule::Length(5), SizeRule::Fill(1)]);
}

#[test]
fn centered_rect_on_round_numbers() {
    let r = Area { x: 0, y: 0, width: 100, height: 50 };
    assert_eq!(centered_rect(60, 80, r), Area { x: 20, y: 5, width: 60, height: 40 });
}

#[test]
fn centered_rect_fixed_on_round_numbers() {
    let r = Area { x: 0, y: 0, width: 100, height: 55 };
    assert_eq!(centered_rect_fixed(80, 5, r), Area { x: 10, y: 25, width: 80, height: 5 });
}

#[test]
fn popup_placement_by_pane() {
    assert_eq!(popup_placement(MainScreenElement::Url), PopupPlacement::FixedBand { percent_x: 80, height: 5 });
    assert_eq!(popup_placement(MainScreenElement::Body), PopupPlacement::Centered { percent_x: 60, percent_y: 80 });
    let r = Area { x: 0, y: 0, width: 100, height: 50 };
    assert_eq!(place(popup_placement(MainScreenElement::Headers), r), Area { x: 20, y: 5, width: 60, height: 40 });
}

#[test]
fn main_screen_areas() {
    let m = main_areas(Area { x: 0, y: 0, width: 100, height: 43 });
    assert_eq!(m.url, Area { x: 0, y: 0, width: 100, height: 3 });
    assert_eq!(m.response, Area { x: 25, y: 3, width: 75, height: 40 });
    assert_eq!(m.headers, Area { x: 0, y: 3, width: 25, height: 20 });
    assert_eq!(m.body, Area { x: 0, y: 23, width: 25, height: 20 });
}

#[test]
fn centred_boxes_lie_within_the_screen() {
    for (w, h) in [(1u16, 1u16), (7, 3), (33, 17), (250, 90)] {
        let r = Area { x: 3, y: 2, width: w, height: h };
        for a in [centered_rect(60, 80, r), centered_rect_fixed(80, 5, r), place(popup_placement(MainScreenElement::Url), r)] {
            assert!(r.x <= a.x && a.x + a.width <= r.x + r.width);
            assert!(r.y <= a.y && a.y + a.height <= r.y + r.height);
        }
    }
}

#[test]
fn fixed_band_keeps_its_height_when_it_just_fits() {
    for h in [5u16, 6, 12, 80] {
        let r = Area { x: 0, y: 1, width: 40, height: h };
        let a = centered_rect_fixed(80, 5, r);
        assert_eq!(a.height, 5);
    }
}

#[test]
fn url_row_is_three_high_on_a_small_screen() {
    for h in [4u16, 5, 9] {
        let m = main_areas(Area { x: 0, y: 0, width: 20, height: h });
        assert_eq!(m.url.height, 3);
    }
}
