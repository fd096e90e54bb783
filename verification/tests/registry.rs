//! The bar's registry, event routing, and the small value types.

use leechbar::alignment::Alignment;
use leechbar::background::Background;
use leechbar::bar::Bar;
use leechbar::bar_component::BarComponentCache;
use leechbar::builder::BarBuilder;
use leechbar::color::Color;
use leechbar::error::{BarError, BarErrorKind, ContentError};
use leechbar::event::{ClickEvent, Event, MouseButton};
use leechbar::foreground::Foreground;
use leechbar::formats::{image_formats, PictFormat};
use leechbar::geometry::Geometry;
use leechbar::img::Image;
use leechbar::picture::Picture;
use leechbar::text::Text;

fn plain_bar(width: u16, height: u16) -> Bar {
    Bar::new(
        Geometry::new(0, 0, width, height),
        1,
        2,
        3,
        4,
        24,
        32,
        None,
        Color::new(255, 255, 255, 255),
        0,
    )
}

#[test]
fn add_allocates_permanent_bucket_ids() {
    let mut bar = plain_bar(200, 30);
    assert_eq!(bar.add(Alignment::LEFT, 10), 0);
    assert_eq!(bar.add(Alignment::CENTER, 11), 1);
    assert_eq!(bar.add(Alignment::LEFT, 12), 3);
    assert_eq!(bar.add(Alignment::RIGHT, 13), 2);
    assert_eq!(bar.add(Alignment::CENTER, 14), 4);
    // The registry stays sorted by id whatever the arrival order.
    let ids: Vec<u32> = bar.components.iter().map(|c| c.id).collect();
    assert_eq!(ids, vec![0, 1, 2, 3, 4]);
}

#[test]
fn fresh_entry_is_empty() {
    let mut bar = plain_bar(200, 30);
    bar.add(Alignment::RIGHT, 77);
    let c = &bar.components[0];
    assert_eq!(c.id, 2);
    assert_eq!(c.picture, 77);
    assert_eq!(c.geometry, Geometry::new(0, 0, 0, 0));
    assert!(c.interrupt.is_none());
    assert_eq!(c.bg_cache.pictures.len(), 0);
}

#[test]
fn propagate_event_finds_the_component_under_the_pointer() {
    let mut bar = plain_bar(200, 30);
    bar.add(Alignment::LEFT, 10);
    bar.add(Alignment::LEFT, 11);
    bar.components[0].set_geometry(Geometry::new(0, 0, 50, 30));
    bar.components[1].set_geometry(Geometry::new(50, 0, 30, 30));

    let event = Event::click(1, 0, 60, 10);
    let (idx, routed) = bar.propagate_event(event).unwrap();
    assert_eq!(idx, 1);
    // The position turns relative to the component's left edge.
    match routed {
        Event::ClickEvent(c) => {
            assert_eq!(c.position.x, 9);
            assert_eq!(c.button, MouseButton::Left);
            assert!(!c.released);
        }
        Event::MotionEvent(_) => panic!("a click must stay a click"),
    }
}

#[test]
fn propagate_event_misses_bare_background() {
    let mut bar = plain_bar(200, 30);
    bar.add(Alignment::LEFT, 10);
    bar.components[0].set_geometry(Geometry::new(0, 0, 50, 30));
    assert!(bar.propagate_event(Event::motion(120, 5)).is_none());
}

#[test]
fn mouse_buttons_from_protocol_indices() {
    assert_eq!(MouseButton::new(1), MouseButton::Left);
    assert_eq!(MouseButton::new(2), MouseButton::Middle);
    assert_eq!(MouseButton::new(3), MouseButton::Right);
    assert_eq!(MouseButton::new(4), MouseButton::WheelUp);
    assert_eq!(MouseButton::new(5), MouseButton::WheelDown);
    assert_eq!(MouseButton::new(0), MouseButton::Left);
    assert_eq!(MouseButton::new(9), MouseButton::Left);
}

#[test]
fn click_event_reads_release_state() {
    match Event::click(3, 1, 15, 4) {
        Event::ClickEvent(ClickEvent { button, position, released }) => {
            assert_eq!(button, MouseButton::Right);
            assert_eq!(position, Geometry::new(15, 4, 0, 0));
            assert!(released);
        }
        Event::MotionEvent(_) => panic!("a click must stay a click"),
    }
}

#[test]
fn fingerprints_compare_by_content() {
    let bg = Background::new()
        .color(Color::new(1, 2, 3, 4))
        .image(Image::new(Picture::new(7, Geometry::new(0, 0, 40, 20))));
    let a = BarComponentCache::new_bg(&bg);
    let b = BarComponentCache::new_bg(&bg);
    assert!(a == b);

    let other = Background::new().color(Color::new(9, 2, 3, 4));
    let c = BarComponentCache::new_bg(&other);
    assert!(a != c);
}

#[test]
fn fingerprint_of_foreground_tracks_offset_and_text() {
    let text = Text::new("hi", Picture::new(5, Geometry::new(0, 0, 20, 10))).unwrap();
    let fg = Foreground::new().text(text).yoffset(7);
    let cache = BarComponentCache::new_fg(&fg);
    assert_eq!(cache.pictures, vec![5]);
    assert_eq!(cache.yoffset, 7);
    let plain = BarComponentCache::new_fg(&Foreground::new());
    assert!(cache != plain);
}

#[test]
fn empty_text_is_rejected() {
    let picture = Picture::new(5, Geometry::new(0, 0, 0, 0));
    let err = Text::new("", picture).unwrap_err();
    assert_eq!(err, ContentError::EmptyText);
    assert_eq!(err.as_str(), "Text content empty");
    assert!(Text::new("x", picture).is_ok());
}

#[test]
fn bar_error_descriptions() {
    assert_eq!(BarErrorKind::ConnectionRefused.as_str(), "Unable to connect to X.Org");
    assert_eq!(
        BarErrorKind::NoPrimaryOutput.as_str(),
        "Unable to find primary output (see docs)"
    );
    assert_eq!(BarErrorKind::OutputNotFound.as_str(), "Unable to find specified output");
    let err = BarError::from(BarErrorKind::OutputNotFound);
    assert_eq!(err.kind, BarErrorKind::OutputNotFound);
    assert_eq!(err.description(), "Unable to find specified output");
}

#[test]
fn color_packs_to_argb() {
    let color = Color::new(0x11, 0x22, 0x33, 0x44);
    assert_eq!(color.argb(), 0x4411_2233);
    assert_eq!(Color::new(255, 255, 255, 255).argb(), 0xffff_ffff);
    assert_eq!(u32::from(Color::new(0, 0, 0, 255)), 0xff00_0000);
}

#[test]
fn builder_collects_configuration() {
    let builder = BarBuilder::new();
    assert_eq!(builder.name, "leechbar");
    assert_eq!(builder.height, 30);
    assert_eq!(builder.background_color, Color::new(0, 0, 0, 255));
    assert_eq!(builder.foreground_color, Color::new(255, 255, 255, 255));
    assert!(builder.font.is_none());
    assert!(builder.output.is_none());
    assert_eq!(builder.text_yoffset, 0);

    let builder = builder
        .name(String::from("status"))
        .font(String::from("monospace 12"))
        .output(String::from("DVI-1"))
        .height(24)
        .text_yoffset(-2)
        .background_color(Color::new(1, 1, 1, 255))
        .foreground_color(Color::new(2, 2, 2, 255));
    assert_eq!(builder.name, "status");
    assert_eq!(builder.font.as_deref(), Some("monospace 12"));
    assert_eq!(builder.output.as_deref(), Some("DVI-1"));
    assert_eq!(builder.height, 24);
    assert_eq!(builder.text_yoffset, -2);
    assert_eq!(builder.background_color, Color::new(1, 1, 1, 255));
    assert_eq!(builder.foreground_color, Color::new(2, 2, 2, 255));
}

#[test]
fn builder_keeps_background_image() {
    let raw = vec![0u8, 0, 0, 255];
    let buffer = image::RgbaImage::from_raw(1, 1, raw).unwrap();
    let img = image::DynamicImage::ImageRgba8(buffer);
    let builder = BarBuilder::new().background_image(img);
    assert!(builder.background_image.is_some());
}

#[test]
fn image_formats_picks_first_matches() {
    let f = |id: u32, depth: u8, alpha: u16| PictFormat {
        id,
        depth,
        alpha_shift: alpha,
        red_shift: 16,
        green_shift: 8,
        blue_shift: 0,
    };
    let formats = vec![
        f(1, 8, 0),
        f(2, 24, 0),
        f(3, 32, 24),
        f(4, 24, 0),
        f(5, 32, 24),
    ];
    assert_eq!(image_formats(&formats), Some((2, 3)));
}

#[test]
fn image_formats_missing_depth_is_none() {
    let only24 = vec![PictFormat {
        id: 2,
        depth: 24,
        alpha_shift: 0,
        red_shift: 16,
        green_shift: 8,
        blue_shift: 0,
    }];
    assert_eq!(image_formats(&only24), None);
    // A 32-bit format with the wrong channel order does not count.
    let wrong_order = vec![PictFormat {
        id: 9,
        depth: 32,
        alpha_shift: 0,
        red_shift: 24,
        green_shift: 8,
        blue_shift: 16,
    }];
    assert_eq!(image_formats(&wrong_order), None);
}

#[test]
fn expose_blits_replay_visible_surfaces_only() {
    let mut bar = plain_bar(200, 30);
    bar.add(Alignment::LEFT, 42);
    bar.add(Alignment::LEFT, 43);
    bar.add(Alignment::RIGHT, 44);
    bar.components[0].set_geometry(Geometry::new(10, 0, 50, 30));
    // The second left component never drew anything: registered but
    // invisible, so the exposure repaint skips it.
    bar.components[2].set_geometry(Geometry::new(0, 0, 0, 0));
    bar.components[1].set_geometry(Geometry::new(150, 0, 50, 30));

    let blits = bar.expose_blits();
    assert_eq!(blits.len(), 2);
    assert_eq!(blits[0].picture, 42);
    assert_eq!(blits[0].x, 10);
    assert_eq!(blits[0].width, 50);
    assert_eq!(blits[0].height, 30);
    assert_eq!(blits[1].picture, 44);
    assert_eq!(blits[1].x, 150);
}
