use tranquilo::themes::{
    default_theme, find_theme, is_hex_color, is_theme_file, load_themes, parse_color, JsonTheme,
    JsonThemeTemplate, Rgb, ThemeColors,
};

fn rgb(r: u8, g: u8, b: u8) -> Rgb {
    Rgb { r, g, b }
}

fn template(name: &str, color: &str) -> JsonThemeTemplate {
    let c = color.to_string();
    JsonThemeTemplate {
        name: name.to_string(),
        colors: ThemeColors {
            focus_round: c.clone(),
            short_break: c.clone(),
            long_break: c.clone(),
            background: c.clone(),
            background_light: c.clone(),
            background_lightest: c.clone(),
            foreground: c.clone(),
            foreground_darker: c.clone(),
            foreground_darkest: c.clone(),
            accent: c.clone(),
            nav: c.clone(),
            text_clr_primary: c.clone(),
            text_clr_secondary: c,
        },
    }
}

fn plain(name: &str, color: Rgb) -> JsonTheme {
    JsonTheme {
        name: name.to_string(),
        colors: ThemeColors {
            focus_round: color,
            short_break: color,
            long_break: color,
            background: color,
            background_light: color,
            background_lightest: color,
            foreground: color,
            foreground_darker: color,
            foreground_darkest: color,
            accent: color,
            nav: color,
            text_clr_primary: color,
            text_clr_secondary: color,
        },
    }
}

fn eclipse() -> JsonTheme {
    JsonTheme {
        name: "Eclipse".to_string(),
        colors: ThemeColors {
            focus_round: rgb(0xee, 0xbc, 0x7f),
            short_break: rgb(0xc3, 0xcf, 0xfb),
            long_break: rgb(0xaf, 0x48, 0x6d),
            background: rgb(0x0c, 0x09, 0x12),
            background_light: rgb(0x34, 0x31, 0x32),
            background_lightest: rgb(0x83, 0x7c, 0x7e),
            foreground: rgb(0xdf, 0xdf, 0xd7),
            foreground_darker: rgb(0xbe, 0xc0, 0xc0),
            foreground_darkest: rgb(0xad, 0xad, 0xae),
            accent: rgb(0x71, 0x47, 0xf0),
            nav: rgb(0x1d, 0x25, 0x45),
            text_clr_primary: rgb(0xb4, 0xa3, 0xf8),
            text_clr_secondary: rgb(0xcb, 0xc5, 0xdb),
        },
    }
}

#[test]
fn colours_are_parsed_channel_by_channel() {
    assert_eq!(parse_color("#af486d"), Some(rgb(175, 72, 109)));
    assert_eq!(parse_color("#AF486D"), Some(rgb(175, 72, 109)));
    assert_eq!(parse_color("#000000"), Some(rgb(0, 0, 0)));
    assert_eq!(parse_color("#ffffff"), Some(rgb(255, 255, 255)));
    assert_eq!(parse_color("#0a1B2c"), Some(rgb(10, 27, 44)));
    assert_eq!(parse_color("#123456"), Some(rgb(0x12, 0x34, 0x56)));
}

#[test]
fn malformed_colours_are_refused() {
    for bad in [
        "", "#", "af486d", "#af486", "#af486d0", "#af486g", "#fff", "#ffff", "#ffffffff",
        " #af486d", "#af486d ", "#+f+f+f", "#-1-1-1", "#ééé", "0xaf486d",
    ] {
        assert_eq!(parse_color(bad), None, "{bad:?}");
        assert!(!is_hex_color(bad), "{bad:?}");
    }
    assert!(is_hex_color("#09afAF"));
}

#[test]
fn template_becomes_theme() {
    let mut t = template("Dusk", "#102030");
    t.colors.accent = "#FFEEDD".to_string();
    let mut expected = plain("Dusk", rgb(0x10, 0x20, 0x30));
    expected.colors.accent = rgb(0xff, 0xee, 0xdd);
    assert_eq!(t.into_theme(), Some(expected));
}

#[test]
fn template_with_a_malformed_colour_is_refused() {
    for field in 0..13 {
        let mut t = template("Dusk", "#102030");
        let bad = "102030".to_string();
        match field {
            0 => t.colors.focus_round = bad,
            1 => t.colors.short_break = bad,
            2 => t.colors.long_break = bad,
            3 => t.colors.background = bad,
            4 => t.colors.background_light = bad,
            5 => t.colors.background_lightest = bad,
            6 => t.colors.foreground = bad,
            7 => t.colors.foreground_darker = bad,
            8 => t.colors.foreground_darkest = bad,
            9 => t.colors.accent = bad,
            10 => t.colors.nav = bad,
            11 => t.colors.text_clr_primary = bad,
            _ => t.colors.text_clr_secondary = bad,
        }
        assert_eq!(t.into_theme(), None, "field {field}");
    }
}

#[test]
fn built_in_theme_is_eclipse() {
    let t = default_theme();
    assert_eq!(t.name, "Eclipse");
    assert_eq!(t.colors.long_break, "#af486d");
    assert_eq!(t.colors.text_clr_secondary, "#cbc5db");
    assert_eq!(t.into_theme(), Some(eclipse()));
}

#[test]
fn empty_directory_yields_the_built_in_theme() {
    assert_eq!(load_themes(Vec::new()), vec![eclipse()]);
}

#[test]
fn only_malformed_templates_yield_the_built_in_theme() {
    assert_eq!(
        load_themes(vec![template("Broken", "red"), template("Also", "#12345")]),
        vec![eclipse()]
    );
}

#[test]
fn catalogue_is_sorted_by_name_and_skips_malformed_templates() {
    let themes = load_themes(vec![
        template("Nord", "#2e3440"),
        template("Broken", "#zzzzzz"),
        template("Ayu", "#0a0e14"),
        template("Nord", "#ffffff"),
        template("Dracula", "#282a36"),
    ]);
    assert_eq!(
        themes,
        vec![
            plain("Ayu", rgb(0x0a, 0x0e, 0x14)),
            plain("Dracula", rgb(0x28, 0x2a, 0x36)),
            plain("Nord", rgb(0x2e, 0x34, 0x40)),
            plain("Nord", rgb(0xff, 0xff, 0xff)),
        ]
    );
}

#[test]
fn theme_is_found_by_name() {
    let themes = load_themes(vec![
        template("Nord", "#2e3440"),
        template("Ayu", "#0a0e14"),
        template("Nord", "#ffffff"),
    ]);
    assert_eq!(find_theme(&themes, "Ayu"), Some(0));
    assert_eq!(find_theme(&themes, "Nord"), Some(1));
    assert_eq!(find_theme(&themes, "Eclipse"), None);
    assert_eq!(find_theme(&load_themes(Vec::new()), "Eclipse"), Some(0));
}

#[test]
fn theme_files_end_with_json() {
    assert!(is_theme_file("eclipse.json"));
    assert!(is_theme_file("Eclipse.JSON"));
    assert!(!is_theme_file("eclipse.json.bak"));
    assert!(!is_theme_file("themes"));
}
