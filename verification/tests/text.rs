use facet_pretty::ansi::{write_bold, write_dim, write_reset, write_rgb};
use facet_pretty::color::{ColorGenerator, Rgb};
use facet_pretty::text::{write_decimal, write_indentation, write_pointer};

fn decimal(n: usize) -> String {
    let mut out = String::new();
    write_decimal(&mut out, n);
    out
}

fn pointer(addr: usize) -> String {
    let mut out = String::new();
    write_pointer(&mut out, addr);
    out
}

fn indentation(levels: usize, size: usize) -> String {
    let mut out = String::new();
    write_indentation(&mut out, levels, size);
    out
}

#[test]
fn decimal_notation() {
    assert_eq!(decimal(0), "0");
    assert_eq!(decimal(7), "7");
    assert_eq!(decimal(10), "10");
    assert_eq!(decimal(255), "255");
    assert_eq!(decimal(1_000_000), "1000000");
    assert_eq!(decimal(usize::MAX), usize::MAX.to_string());
    for n in 0..2000 {
        assert_eq!(decimal(n), n.to_string());
    }
}

#[test]
fn pointer_notation() {
    assert_eq!(pointer(0), "0x0");
    assert_eq!(pointer(9), "0x9");
    assert_eq!(pointer(10), "0xa");
    assert_eq!(pointer(15), "0xf");
    assert_eq!(pointer(16), "0x10");
    assert_eq!(pointer(0xdead_beef), "0xdeadbeef");
    assert_eq!(pointer(0x1234_5678_9abc), "0x123456789abc");
    assert_eq!(pointer(usize::MAX), format!("{:#x}", usize::MAX));
    for addr in 0..2000 {
        assert_eq!(pointer(addr), format!("{:#x}", addr));
    }
}

#[test]
fn writers_append() {
    let mut out = String::from("a");
    write_decimal(&mut out, 12);
    write_pointer(&mut out, 12);
    write_indentation(&mut out, 1, 2);
    out.push('b');
    assert_eq!(out, "a120xc  b");
}

#[test]
fn indentation_is_levels_times_size() {
    assert_eq!(indentation(0, 4), "");
    assert_eq!(indentation(3, 0), "");
    assert_eq!(indentation(1, 1), " ");
    assert_eq!(indentation(2, 2), "    ");
    assert_eq!(indentation(3, 4), " ".repeat(12));
    assert_eq!(indentation(7, 5).len(), 35);
}

#[test]
fn style_commands() {
    let mut out = String::new();
    write_bold(&mut out);
    write_dim(&mut out);
    write_reset(&mut out);
    write_rgb(&mut out, 0, 7, 255);
    assert_eq!(out, "\x1b[1m\x1b[2m\x1b[0m\x1b[38;2;0;7;255m");
    let mut out = String::from("x");
    Rgb::new(224, 49, 49).write_fg(&mut out);
    assert_eq!(out, "x\x1b[38;2;224;49;49m");
}

#[test]
fn default_generator_colours() {
    let generator = ColorGenerator::new();
    assert_eq!(generator.generate_color(0), Rgb { r: 81, g: 153, b: 224 });
    assert_eq!(generator.generate_color(360), generator.generate_color(0));
    assert_eq!(generator.generate_color(150), Rgb { r: 224, g: 81, b: 81 });
    assert_eq!(generator.generate_color(u64::MAX), generator.generate_color(u64::MAX % 360));
    assert_eq!(ColorGenerator::default().generate_color(42), generator.generate_color(42));
}

#[test]
fn pure_hues() {
    let vivid = ColorGenerator::new().with_saturation(100).with_lightness(50);
    let red = vivid.with_base_hue(0);
    assert_eq!(red.generate_color(0), Rgb { r: 255, g: 0, b: 0 });
    assert_eq!(red.generate_color(60), Rgb { r: 255, g: 255, b: 0 });
    assert_eq!(red.generate_color(120), Rgb { r: 0, g: 255, b: 0 });
    assert_eq!(red.generate_color(180), Rgb { r: 0, g: 255, b: 255 });
    assert_eq!(red.generate_color(240), Rgb { r: 0, g: 0, b: 255 });
    assert_eq!(red.generate_color(300), Rgb { r: 255, g: 0, b: 255 });
    assert_eq!(red.generate_color(30), Rgb { r: 255, g: 127, b: 0 });
    assert_eq!(vivid.with_base_hue(120).generate_color(0), Rgb { r: 0, g: 255, b: 0 });
    assert_eq!(vivid.with_base_hue(360 + 120).generate_color(0), Rgb { r: 0, g: 255, b: 0 });
    assert_eq!(vivid.with_base_hue(300).generate_color(120), Rgb { r: 255, g: 255, b: 0 });
}

#[test]
fn greys_black_and_white() {
    let grey = ColorGenerator::new().with_saturation(0).with_lightness(50);
    for hash in [0u64, 1, 59, 200, 359, 12345] {
        assert_eq!(grey.generate_color(hash), Rgb { r: 127, g: 127, b: 127 });
    }
    let black = ColorGenerator::new().with_lightness(0);
    assert_eq!(black.generate_color(77), Rgb { r: 0, g: 0, b: 0 });
    let white = ColorGenerator::new().with_lightness(100);
    assert_eq!(white.generate_color(77), Rgb { r: 255, g: 255, b: 255 });
}

#[test]
fn saturation_and_lightness_are_capped() {
    let capped = ColorGenerator::new().with_saturation(250).with_lightness(200);
    let full = ColorGenerator::new().with_saturation(100).with_lightness(100);
    for hash in [0u64, 100, 200, 300] {
        assert_eq!(capped.generate_color(hash), full.generate_color(hash));
    }
    let vivid = ColorGenerator::new().with_base_hue(0).with_saturation(101).with_lightness(50);
    assert_eq!(vivid.generate_color(0), Rgb { r: 255, g: 0, b: 0 });
}
