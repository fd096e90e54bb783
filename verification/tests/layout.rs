//! Layout calculator behavior: effective widths and bucket offsets.

use leechbar::alignment::Alignment;
use leechbar::background::Background;
use leechbar::bar::Bar;
use leechbar::bar_component::BarComponent;
use leechbar::foreground::Foreground;
use leechbar::geometry::Geometry;
use leechbar::img::Image;
use leechbar::picture::Picture;
use leechbar::render::{calculate_width, render, xoffset_by_id};
use leechbar::text::Text;
use leechbar::width::Width;

fn empty_bar(width: u16, height: u16) -> Bar {
    Bar::new(
        Geometry::new(0, 0, width, height),
        1,
        2,
        3,
        4,
        24,
        32,
        None,
        leechbar::color::Color::new(255, 255, 255, 255),
        0,
    )
}

fn picture(xid: u32, w: u16, h: u16) -> Picture {
    Picture::new(xid, Geometry::new(0, 0, w, h))
}

#[test]
fn fixed_width_wins_over_content() {
    let bg = Background::new().image(Image::new(picture(9, 120, 20)));
    let fg = Foreground::new();
    let w = calculate_width(200, Width::new().fixed(70), &bg, &fg);
    assert_eq!(w, 70);
}

#[test]
fn fixed_width_clamped_to_bar() {
    // A fixed width of 300 on a 200-wide bar is clamped to 200.
    let bg = Background::new();
    let fg = Foreground::new();
    let w = calculate_width(200, Width::new().fixed(300), &bg, &fg);
    assert_eq!(w, 200);
}

#[test]
fn width_raises_to_background() {
    let bg = Background::new().image(Image::new(picture(9, 120, 20)));
    let fg = Foreground::new();
    assert_eq!(calculate_width(500, Width::new(), &bg, &fg), 120);
}

#[test]
fn width_ignores_background_when_told() {
    let bg = Background::new().image(Image::new(picture(9, 120, 20)));
    let fg = Foreground::new();
    let w = calculate_width(500, Width::new().ignore_background().min(15), &bg, &fg);
    assert_eq!(w, 15);
}

#[test]
fn width_raises_to_foreground() {
    let bg = Background::new();
    let text = Text::new("cpu 42%", picture(5, 80, 14)).unwrap();
    let fg = Foreground::new().text(text);
    assert_eq!(calculate_width(500, Width::new(), &bg, &fg), 80);
}

#[test]
fn width_ignores_foreground_when_told() {
    let bg = Background::new();
    let text = Text::new("cpu 42%", picture(5, 80, 14)).unwrap();
    let fg = Foreground::new().text(text);
    let w = calculate_width(500, Width::new().ignore_foreground(), &bg, &fg);
    assert_eq!(w, 0);
}

#[test]
fn width_widest_content_wins() {
    let bg = Background::new()
        .image(Image::new(picture(9, 60, 20)))
        .image(Image::new(picture(10, 110, 20)));
    let text = Text::new("load", picture(5, 80, 14)).unwrap();
    let fg = Foreground::new().text(text);
    assert_eq!(calculate_width(500, Width::new(), &bg, &fg), 110);
}

#[test]
fn width_respects_min_and_max() {
    let bg = Background::new().image(Image::new(picture(9, 120, 20)));
    let fg = Foreground::new();
    assert_eq!(calculate_width(500, Width::new().max(100), &bg, &fg), 100);
    let bg2 = Background::new();
    assert_eq!(calculate_width(500, Width::new().min(40), &bg2, &fg), 40);
}

#[test]
fn width_always_within_bar() {
    // Every policy lands inside [0, bar_width].
    let bg = Background::new().image(Image::new(picture(9, 450, 20)));
    let fg = Foreground::new();
    assert_eq!(calculate_width(300, Width::new(), &bg, &fg), 300);
    assert_eq!(calculate_width(300, Width::new().min(400), &bg, &fg), 300);
    assert_eq!(calculate_width(0, Width::new().fixed(10), &bg, &fg), 0);
}

fn entry(id: u32, x: i16, width: u16) -> BarComponent {
    let mut c = BarComponent::new(id, id + 100);
    c.set_geometry(Geometry::new(x, 0, width, 30));
    c
}

#[test]
fn left_offset_sums_earlier_siblings() {
    // Left bucket: ids 0 and 3; the second starts where the first ends.
    let comps = vec![entry(0, 0, 50), entry(3, 50, 30)];
    assert_eq!(xoffset_by_id(&comps, 0, 50, 200), 0);
    assert_eq!(xoffset_by_id(&comps, 3, 30, 200), 50);
}

#[test]
fn center_offset_centers_the_group() {
    let comps = vec![entry(1, 0, 50)];
    // One 50-wide center component on a 200 bar sits at 75.
    assert_eq!(xoffset_by_id(&comps, 1, 50, 200), 75);
}

#[test]
fn center_offset_truncates_toward_zero() {
    let comps = vec![entry(1, 0, 0)];
    // (201 - 50) / 2 = 75.5 truncates to 75.
    assert_eq!(xoffset_by_id(&comps, 1, 50, 201), 75);
    // An overfull group anchors left of the bar: (200 - 250) / 2 = -25.
    assert_eq!(xoffset_by_id(&comps, 1, 250, 200), -25);
}

#[test]
fn right_offset_ends_flush_with_bar() {
    // Right bucket: offset + total width reaches the bar's right edge.
    let comps = vec![entry(2, 150, 50), entry(5, 0, 30)];
    assert_eq!(xoffset_by_id(&comps, 5, 30, 200), 120);
    assert_eq!(120 + 50 + 30, 200);
}

#[test]
fn scenario_two_left_components() {
    // bar_width=200: one left component of width 50 sits at 0; a second
    // left component of width 30 lands at 50 while the first stays at 0.
    let mut bar = empty_bar(200, 30);
    let first = bar.add(Alignment::LEFT, 11);
    let bg = Background::new();
    let fg = Foreground::new();
    render(&mut bar.components, 200, 30, 0, first, &bg, &fg, Width::new().fixed(50));
    assert_eq!(bar.components[0].geometry.x, 0);
    assert_eq!(bar.components[0].geometry.width, 50);

    let second = bar.add(Alignment::LEFT, 12);
    render(&mut bar.components, 200, 30, 0, second, &bg, &fg, Width::new().fixed(30));
    assert_eq!(bar.components[0].geometry.x, 0);
    assert_eq!(bar.components[0].geometry.width, 50);
    assert_eq!(bar.components[1].geometry.x, 50);
    assert_eq!(bar.components[1].geometry.width, 30);
}

#[test]
fn scenario_second_center_component_shifts_the_first() {
    // bar_width=200: one center component of width 50 sits at 75. A second
    // center component of width 30 makes the total 80, the group anchor 60,
    // and the first component moves to 60 although its content is
    // unchanged.
    let mut bar = empty_bar(200, 30);
    let first = bar.add(Alignment::CENTER, 21);
    let bg = Background::new();
    let fg = Foreground::new();
    render(&mut bar.components, 200, 30, 0, first, &bg, &fg, Width::new().fixed(50));
    assert_eq!(bar.components[0].geometry.x, 75);

    let second = bar.add(Alignment::CENTER, 22);
    render(&mut bar.components, 200, 30, 0, second, &bg, &fg, Width::new().fixed(30));
    assert_eq!(bar.components[0].geometry.x, 60);
    assert_eq!(bar.components[0].geometry.width, 50);
    assert_eq!(bar.components[1].geometry.x, 110);
    assert_eq!(bar.components[1].geometry.width, 30);
}

#[test]
fn scenario_right_bucket_stays_flush() {
    let mut bar = empty_bar(200, 30);
    let first = bar.add(Alignment::RIGHT, 31);
    let bg = Background::new();
    let fg = Foreground::new();
    render(&mut bar.components, 200, 30, 0, first, &bg, &fg, Width::new().fixed(50));
    assert_eq!(bar.components[0].geometry.x, 150);

    let second = bar.add(Alignment::RIGHT, 32);
    render(&mut bar.components, 200, 30, 0, second, &bg, &fg, Width::new().fixed(30));
    assert_eq!(bar.components[0].geometry.x, 120);
    assert_eq!(bar.components[1].geometry.x, 170);
    // The bucket still ends exactly at the bar's right edge.
    assert_eq!(
        bar.components[1].geometry.x as i32 + bar.components[1].geometry.width as i32,
        200
    );
}

#[test]
fn alignment_x_offsets() {
    assert_eq!(Alignment::LEFT.x_offset(100, 40), 0);
    assert_eq!(Alignment::CENTER.x_offset(100, 40), 30);
    assert_eq!(Alignment::CENTER.x_offset(101, 40), 30);
    assert_eq!(Alignment::CENTER.x_offset(40, 100), -30);
    assert_eq!(Alignment::RIGHT.x_offset(100, 40), 60);
}

#[test]
fn alignment_id_steps_by_bucket() {
    let mut wells: [u32; 3] = [0, 1, 2];
    assert_eq!(Alignment::LEFT.id(&mut wells), 0);
    assert_eq!(Alignment::LEFT.id(&mut wells), 3);
    assert_eq!(Alignment::CENTER.id(&mut wells), 1);
    assert_eq!(Alignment::RIGHT.id(&mut wells), 2);
    assert_eq!(Alignment::RIGHT.id(&mut wells), 5);
    assert_eq!(wells, [6, 4, 8]);
}
