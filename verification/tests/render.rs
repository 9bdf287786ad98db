use term_raster::AnsiColorMode;
use term_raster::CharBuf;
use term_raster::CharColor;
use term_raster::CharColorLayer;
use term_raster::CharHalf;
use term_raster::CharInfo;
use term_raster::ClipComponent;
use term_raster::half_block_shader;

fn rgb(r: u8, g: u8, b: u8) -> CharColor {
    CharColor { r, g, b }
}

#[test]
fn ansi256_pure_black() {
    assert_eq!(rgb(0, 0, 0).to_ansi256(), 16);
}

#[test]
fn ansi256_pure_white() {
    assert_eq!(rgb(255, 255, 255).to_ansi256(), 231);
}

#[test]
fn ansi256_pure_red() {
    assert_eq!(rgb(255, 0, 0).to_ansi256(), 196);
}

#[test]
fn ansi256_gray_boundaries() {
    // Below 8 collapses to black, above 248 to white.
    assert_eq!(rgb(7, 7, 7).to_ansi256(), 16);
    assert_eq!(rgb(8, 8, 8).to_ansi256(), 232);
    assert_eq!(rgb(248, 248, 248).to_ansi256(), 255);
    assert_eq!(rgb(249, 249, 249).to_ansi256(), 231);
}

#[test]
fn ansi256_gray_ramp_midpoint() {
    // round((128 - 8) / 247 * 24) = 12, so 232 + 12.
    assert_eq!(rgb(128, 128, 128).to_ansi256(), 244);
}

#[test]
fn ansi256_cube_channels() {
    // 16 + 36*r + 6*g + b over the 6-level cube.
    assert_eq!(rgb(0, 255, 0).to_ansi256(), 46);
    assert_eq!(rgb(0, 0, 255).to_ansi256(), 21);
    assert_eq!(rgb(255, 255, 0).to_ansi256(), 226);
    // round(5 * 127 / 255) = 2 for both set channels.
    assert_eq!(rgb(127, 127, 0).to_ansi256(), 100);
}

#[test]
fn color_escape_truecolor_foreground() {
    let s = rgb(255, 0, 0).to_ansi(&CharColorLayer::Foreground, &AnsiColorMode::AnsiTrueColor);
    assert_eq!(s, "\x1b[38;2;255;0;0m");
}

#[test]
fn color_escape_truecolor_background() {
    let s = rgb(1, 22, 133).to_ansi(&CharColorLayer::Background, &AnsiColorMode::AnsiTrueColor);
    assert_eq!(s, "\x1b[48;2;1;22;133m");
}

#[test]
fn color_escape_ansi256() {
    let s = rgb(255, 0, 0).to_ansi(&CharColorLayer::Foreground, &AnsiColorMode::Ansi256);
    assert_eq!(s, "\x1b[38;5;196m");
    let s = rgb(0, 0, 0).to_ansi(&CharColorLayer::Background, &AnsiColorMode::Ansi256);
    assert_eq!(s, "\x1b[48;5;16m");
}

#[test]
fn blank_cell_renders_reset_and_space() {
    let c = CharInfo::default();
    assert_eq!(c.char_code, ' ');
    assert!(c.fg_color.is_none());
    assert!(c.bg_color.is_none());
    assert_eq!(c.to_ansi(&AnsiColorMode::AnsiTrueColor), "\x1b[0m ");
    assert_eq!(c.to_ansi(&AnsiColorMode::Ansi256), "\x1b[0m ");
}

#[test]
fn cell_with_both_layers_renders_both_escapes() {
    let mut c = CharInfo::default();
    half_block_shader(&mut c, &CharHalf::Top, &rgb(255, 0, 0));
    half_block_shader(&mut c, &CharHalf::Bottom, &rgb(0, 0, 255));
    assert_eq!(
        c.to_ansi(&AnsiColorMode::AnsiTrueColor),
        "\x1b[0m\x1b[38;2;255;0;0m\x1b[48;2;0;0;255m▀"
    );
}

#[test]
fn shader_top_first_picks_upper_glyph() {
    let mut c = CharInfo::default();
    half_block_shader(&mut c, &CharHalf::Top, &rgb(10, 20, 30));
    assert_eq!(c.char_code, '▀');
    assert_eq!(c.fg_color, Some(rgb(10, 20, 30)));
    assert_eq!(c.bg_color, None);
    half_block_shader(&mut c, &CharHalf::Bottom, &rgb(40, 50, 60));
    assert_eq!(c.char_code, '▀');
    assert_eq!(c.fg_color, Some(rgb(10, 20, 30)));
    assert_eq!(c.bg_color, Some(rgb(40, 50, 60)));
}

#[test]
fn shader_bottom_first_picks_lower_glyph() {
    let mut c = CharInfo::default();
    half_block_shader(&mut c, &CharHalf::Bottom, &rgb(1, 2, 3));
    assert_eq!(c.char_code, '▄');
    assert_eq!(c.fg_color, Some(rgb(1, 2, 3)));
    assert_eq!(c.bg_color, None);
    half_block_shader(&mut c, &CharHalf::Top, &rgb(4, 5, 6));
    assert_eq!(c.char_code, '▄');
    assert_eq!(c.fg_color, Some(rgb(1, 2, 3)));
    assert_eq!(c.bg_color, Some(rgb(4, 5, 6)));
}

#[test]
fn shader_same_half_twice_is_last_write_wins() {
    let mut c = CharInfo::default();
    half_block_shader(&mut c, &CharHalf::Top, &rgb(1, 1, 1));
    half_block_shader(&mut c, &CharHalf::Top, &rgb(2, 2, 2));
    assert_eq!(c.char_code, '▀');
    assert_eq!(c.fg_color, Some(rgb(2, 2, 2)));
    assert_eq!(c.bg_color, None);
}

#[test]
fn new_buffer_is_blank() {
    let fb = CharBuf::new(4, 4);
    assert_eq!(fb.w, 4);
    assert_eq!(fb.h, 4);
    assert_eq!(fb.char_buf.len(), 8);
    for c in &fb.char_buf {
        assert_eq!(c.char_code, ' ');
        assert!(c.fg_color.is_none());
        assert!(c.bg_color.is_none());
    }
    let blank_row = "\x1b[0m \x1b[0m \x1b[0m \x1b[0m \r\n";
    let expected = format!("{blank_row}{blank_row}");
    assert_eq!(fb.to_string(&AnsiColorMode::AnsiTrueColor), expected);
}

#[test]
fn shade_pixel_addresses_cell_and_half() {
    let mut fb = CharBuf::new(4, 4);
    // Pixel row 3 is the bottom half of cell row 1.
    fb.shade_pixel(2, 3, &rgb(9, 9, 9));
    let idx = (3 / 2) * 4 + 2;
    assert_eq!(fb.char_buf[idx].char_code, '▄');
    assert_eq!(fb.char_buf[idx].fg_color, Some(rgb(9, 9, 9)));
    for (i, c) in fb.char_buf.iter().enumerate() {
        if i != idx {
            assert_eq!(c.char_code, ' ');
        }
    }
}

#[test]
fn shade_pixel_round_trip_through_to_string() {
    let mut fb = CharBuf::new(2, 2);
    fb.shade_pixel(0, 0, &rgb(255, 0, 0));
    fb.shade_pixel(0, 1, &rgb(0, 0, 255));
    let expected = "\x1b[0m\x1b[38;2;255;0;0m\x1b[48;2;0;0;255m▀\x1b[0m \r\n";
    assert_eq!(fb.to_string(&AnsiColorMode::AnsiTrueColor), expected);
}

#[test]
fn clear_resets_every_cell() {
    let mut fb = CharBuf::new(6, 4);
    fb.shade_pixel(1, 1, &rgb(3, 4, 5));
    fb.shade_pixel(5, 3, &rgb(6, 7, 8));
    fb.clear();
    assert_eq!(fb.char_buf.len(), 12);
    for c in &fb.char_buf {
        assert_eq!(c.char_code, ' ');
        assert!(c.fg_color.is_none());
        assert!(c.bg_color.is_none());
    }
}

#[test]
fn clip_component_indices() {
    assert_eq!(ClipComponent::X.to_index(), 0);
    assert_eq!(ClipComponent::Y.to_index(), 1);
    assert_eq!(ClipComponent::Z.to_index(), 2);
}
