use cursive_wasm_backend::color::cursive_to_color;
use cursive_wasm_backend::color::cursive_to_color_pair;
use cursive_wasm_backend::theme::BaseColor;
use cursive_wasm_backend::theme::Color;
use cursive_wasm_backend::theme::ColorPair;

#[test]
fn dark_palette_values() {
    assert_eq!(cursive_to_color(Color::Dark(BaseColor::Black)), "#000000");
    assert_eq!(cursive_to_color(Color::Dark(BaseColor::Red)), "#800000");
    assert_eq!(cursive_to_color(Color::Dark(BaseColor::Green)), "#008000");
    assert_eq!(cursive_to_color(Color::Dark(BaseColor::Yellow)), "#808000");
    assert_eq!(cursive_to_color(Color::Dark(BaseColor::Blue)), "#000080");
    assert_eq!(cursive_to_color(Color::Dark(BaseColor::Magenta)), "#800080");
    assert_eq!(cursive_to_color(Color::Dark(BaseColor::Cyan)), "#008080");
    assert_eq!(cursive_to_color(Color::Dark(BaseColor::White)), "#c0c0c0");
}

#[test]
fn light_palette_values() {
    assert_eq!(cursive_to_color(Color::Light(BaseColor::Black)), "#808080");
    assert_eq!(cursive_to_color(Color::Light(BaseColor::Red)), "#ff0000");
    assert_eq!(cursive_to_color(Color::Light(BaseColor::Green)), "#00ff00");
    assert_eq!(cursive_to_color(Color::Light(BaseColor::Yellow)), "#ffff00");
    assert_eq!(cursive_to_color(Color::Light(BaseColor::Blue)), "#0000ff");
    assert_eq!(cursive_to_color(Color::Light(BaseColor::Magenta)), "#ff00ff");
    assert_eq!(cursive_to_color(Color::Light(BaseColor::Cyan)), "#00ffff");
    assert_eq!(cursive_to_color(Color::Light(BaseColor::White)), "#ffffff");
}

#[test]
fn terminal_default_value() {
    assert_eq!(cursive_to_color(Color::TerminalDefault), "#00ff00");
}

#[test]
fn rgb_encoding() {
    assert_eq!(cursive_to_color(Color::Rgb(18, 52, 86)), "#123456");
    assert_eq!(cursive_to_color(Color::Rgb(0, 0, 0)), "#000000");
    assert_eq!(cursive_to_color(Color::Rgb(255, 255, 255)), "#ffffff");
    assert_eq!(cursive_to_color(Color::Rgb(1, 2, 3)), "#010203");
}

#[test]
fn low_res_rgb_encoding() {
    assert_eq!(cursive_to_color(Color::RgbLowRes(1, 2, 3)), "#123");
    assert_eq!(cursive_to_color(Color::RgbLowRes(0, 0, 0)), "#000");
    assert_eq!(cursive_to_color(Color::RgbLowRes(15, 15, 15)), "#fff");
}

#[test]
fn color_pair_mapping() {
    let pair = cursive_to_color_pair(ColorPair {
        front: Color::Light(BaseColor::Black),
        back: Color::Dark(BaseColor::Green),
    });
    assert_eq!(pair.front, "#808080");
    assert_eq!(pair.back, "#008000");
}
