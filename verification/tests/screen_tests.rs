use cursive_wasm_backend::backend::Backend;
use cursive_wasm_backend::buffer::ScreenBuffer;
use cursive_wasm_backend::buffer::Vec2;
use cursive_wasm_backend::color::cursive_to_color_pair;
use cursive_wasm_backend::theme::BaseColor;
use cursive_wasm_backend::theme::Color;
use cursive_wasm_backend::theme::ColorPair;
use cursive_wasm_backend::theme::Effect;

fn pair(front: Color, back: Color) -> ColorPair {
    ColorPair { front, back }
}

#[test]
fn write_read_round_trip() {
    let mut b = Backend::new(4, 2);
    b.set_color(pair(Color::Dark(BaseColor::Black), Color::Dark(BaseColor::Green)));
    b.print_at(Vec2::new(0, 0), "AB");
    let snap = b.snapshot();
    assert_eq!(snap[0].text(), "A");
    assert_eq!(snap[0].color().front, "#000000");
    assert_eq!(snap[0].color().back, "#008000");
    assert_eq!(snap[1].text(), "B");
    assert_eq!(snap[1].color().front, "#000000");
    assert_eq!(snap[1].color().back, "#008000");
}

#[test]
fn color_isolation_across_register_change() {
    let mut b = Backend::new(4, 1);
    b.set_color(pair(Color::Dark(BaseColor::Red), Color::Dark(BaseColor::Blue)));
    b.print_at(Vec2::new(0, 0), "A");
    b.set_color(pair(Color::Light(BaseColor::White), Color::Light(BaseColor::Yellow)));
    b.print_at(Vec2::new(1, 0), "B");
    let snap = b.snapshot();
    assert_eq!(snap[0].text(), "A");
    assert_eq!(snap[0].color().front, "#800000");
    assert_eq!(snap[0].color().back, "#000080");
    assert_eq!(snap[1].text(), "B");
    assert_eq!(snap[1].color().front, "#ffffff");
    assert_eq!(snap[1].color().back, "#ffff00");
}

#[test]
fn write_clips_at_row_end() {
    let mut b = Backend::new(3, 2);
    b.print_at(Vec2::new(2, 0), "XYZ");
    let snap = b.snapshot();
    assert_eq!(snap[2].text(), "X");
    // Nothing wraps into the next row: its cells are still blank.
    assert_eq!(snap[3].text(), " ");
    assert_eq!(snap[4].text(), " ");
    assert_eq!(snap[5].text(), " ");
}

#[test]
fn write_outside_grid_changes_nothing() {
    let mut b = Backend::new(2, 2);
    b.print_at(Vec2::new(0, 5), "AB");
    b.print_at(Vec2::new(7, 0), "CD");
    let snap = b.snapshot();
    for cell in &snap {
        assert_eq!(cell.text(), " ");
    }
}

#[test]
fn snapshot_is_independent_of_later_writes() {
    let mut b = Backend::new(2, 1);
    b.print_at(Vec2::new(0, 0), "A");
    let snap = b.snapshot();
    b.print_at(Vec2::new(0, 0), "Z");
    assert_eq!(snap[0].text(), "A");
    let snap2 = b.snapshot();
    assert_eq!(snap2[0].text(), "Z");
}

#[test]
fn initial_grid_is_blank_in_initial_colors() {
    let b = Backend::new(3, 2);
    let snap = b.snapshot();
    assert_eq!(snap.len(), 6);
    for cell in &snap {
        assert_eq!(cell.text(), " ");
        assert_eq!(cell.color().front, "#808080");
        assert_eq!(cell.color().back, "#008000");
    }
}

#[test]
fn set_color_returns_previous_register() {
    let c1 = cursive_to_color_pair(pair(Color::Dark(BaseColor::Red), Color::Dark(BaseColor::Blue)));
    let c2 = cursive_to_color_pair(pair(
        Color::Light(BaseColor::White),
        Color::Light(BaseColor::Yellow),
    ));
    let mut screen = ScreenBuffer::new(2, 2, c1);
    let prev = screen.set_color(c2);
    assert_eq!(prev.front, "#800000");
    assert_eq!(prev.back, "#000080");
}

#[test]
fn screen_buffer_write_uses_supplied_color() {
    let c1 = cursive_to_color_pair(pair(Color::Dark(BaseColor::Red), Color::Dark(BaseColor::Blue)));
    let c2 = cursive_to_color_pair(pair(
        Color::Light(BaseColor::White),
        Color::Light(BaseColor::Yellow),
    ));
    let mut screen = ScreenBuffer::new(2, 1, c1);
    screen.write(Vec2::new(0, 0), "Q", &c2);
    let snap = screen.snapshot();
    assert_eq!(snap[0].text(), "Q");
    assert_eq!(snap[0].color().front, "#ffffff");
    assert_eq!(snap[0].color().back, "#ffff00");
}

#[test]
fn set_color_hands_back_its_argument() {
    let mut b = Backend::new(2, 1);
    let arg = pair(Color::Rgb(1, 2, 3), Color::TerminalDefault);
    let out = b.set_color(arg);
    assert_eq!(out, arg);
}

#[test]
fn unsupported_capabilities_change_nothing() {
    let mut b = Backend::new(2, 1);
    b.print_at(Vec2::new(0, 0), "A");
    b.clear(Color::Dark(BaseColor::Black));
    b.set_effect(Effect::Bold);
    b.unset_effect(Effect::Bold);
    let snap = b.snapshot();
    assert_eq!(snap[0].text(), "A");
    assert_eq!(snap[1].text(), " ");
}

#[test]
fn backend_misc() {
    let b = Backend::new(5, 4);
    assert!(b.has_colors());
    assert_eq!(b.name(), "cursive-wasm-backend");
    let size = b.screen_size();
    assert_eq!(size.x, 5);
    assert_eq!(size.y, 4);
}
