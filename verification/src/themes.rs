//! Themes: colour palettes read from theme files, and the theme catalogue.

use crate::sorting::{
    sort_by_key, sorted_by_key, stable_sort, stable_sort_commutes, stable_sort_keeps_members,
    stable_sort_sorts, KeyText, Keyed,
};
use crate::text::{ends_with_extension, has_extension, str_eq, to_chars};
use vstd::prelude::*;

verus! {

/// A colour as its red, green and blue channels.
#[derive(Clone, Copy, Debug, PartialEq, Eq, Structural)]
pub struct Rgb {
    pub r: u8,
    pub g: u8,
    pub b: u8,
}

/// The thirteen named colours of a theme, each held as a `C`.
#[derive(Clone, Copy, Debug, PartialEq, Eq)]
pub struct ThemeColors<C> {
    pub focus_round: C,
    pub short_break: C,
    pub long_break: C,
    pub background: C,
    pub background_light: C,
    pub background_lightest: C,
    pub foreground: C,
    pub foreground_darker: C,
    pub foreground_darkest: C,
    pub accent: C,
    pub nav: C,
    pub text_clr_primary: C,
    pub text_clr_secondary: C,
}

/// A theme as a theme file holds it: a name, and each colour as `#RRGGBB`
/// text.
#[derive(Clone, Debug, PartialEq, Eq)]
pub struct JsonThemeTemplate {
    pub name: String,
    pub colors: ThemeColors<String>,
}

/// A theme ready for the view: a name and its palette.
#[derive(Clone, Debug, PartialEq, Eq)]
pub struct JsonTheme {
    pub name: String,
    pub colors: ThemeColors<Rgb>,
}

/// Mathematical model of a [`JsonThemeTemplate`].
pub struct TemplateView {
    pub name: Seq<char>,
    pub colors: ThemeColors<Seq<char>>,
}

/// Mathematical model of a [`JsonTheme`].
pub struct ThemeView {
    pub name: Seq<char>,
    pub colors: ThemeColors<Rgb>,
}

impl View for JsonThemeTemplate {
    type V = TemplateView;

    open spec fn view(&self) -> TemplateView {
        TemplateView {
            name: self.name@,
            colors: ThemeColors {
                focus_round: self.colors.focus_round@,
                short_break: self.colors.short_break@,
                long_break: self.colors.long_break@,
                background: self.colors.background@,
                background_light: self.colors.background_light@,
                background_lightest: self.colors.background_lightest@,
                foreground: self.colors.foreground@,
                foreground_darker: self.colors.foreground_darker@,
                foreground_darkest: self.colors.foreground_darkest@,
                accent: self.colors.accent@,
                nav: self.colors.nav@,
                text_clr_primary: self.colors.text_clr_primary@,
                text_clr_secondary: self.colors.text_clr_secondary@,
            },
        }
    }
}

impl View for JsonTheme {
    type V = ThemeView;

    open spec fn view(&self) -> ThemeView {
        ThemeView { name: self.name@, colors: self.colors }
    }
}

impl Keyed for ThemeView {
    open spec fn key(&self) -> Seq<char> {
        self.name
    }
}

impl Keyed for JsonTheme {
    open spec fn key(&self) -> Seq<char> {
        self.name@
    }
}

impl KeyText for JsonTheme {
    fn key_str(&self) -> (k: &str) {
        self.name.as_str()
    }
}

/// The models of the themes of `v`.
pub open spec fn theme_views(v: Seq<JsonTheme>) -> Seq<ThemeView> {
    v.map_values(|t: JsonTheme| t@)
}

/// The models of the templates of `v`.
pub open spec fn template_views(v: Seq<JsonThemeTemplate>) -> Seq<TemplateView> {
    v.map_values(|t: JsonThemeTemplate| t@)
}

/// The value of a hexadecimal digit of either case.
pub open spec fn hex_digit(c: char) -> Option<int> {
    let u = c as u32;
    if 0x30 <= u <= 0x39 {
        Some(u - 0x30)
    } else if 0x61 <= u <= 0x66 {
        Some(u - 0x61 + 10)
    } else if 0x41 <= u <= 0x46 {
        Some(u - 0x41 + 10)
    } else {
        None
    }
}

/// Whether `s` has the form `#RRGGBB`: a number sign and six hexadecimal
/// digits.
pub open spec fn is_hex_triplet(s: Seq<char>) -> bool {
    &&& s.len() == 7
    &&& s[0] == '#'
    &&& forall|i: int| 1 <= i < 7 ==> hex_digit(#[trigger] s[i]) is Some
}

/// The channel that the two digits at `at` and `at + 1` stand for.
pub open spec fn channel(s: Seq<char>, at: int) -> u8 {
    (16 * hex_digit(s[at])->0 + hex_digit(s[at + 1])->0) as u8
}

/// The colour that `s` stands for, if it has the form `#RRGGBB`.
pub open spec fn hex_rgb(s: Seq<char>) -> Option<Rgb> {
    if is_hex_triplet(s) {
        Some(Rgb { r: channel(s, 1), g: channel(s, 3), b: channel(s, 5) })
    } else {
        None
    }
}

/// Whether each of the thirteen colours has the form `#RRGGBB`.
pub open spec fn colors_are_hex(c: ThemeColors<Seq<char>>) -> bool {
    &&& is_hex_triplet(c.focus_round)
    &&& is_hex_triplet(c.short_break)
    &&& is_hex_triplet(c.long_break)
    &&& is_hex_triplet(c.background)
    &&& is_hex_triplet(c.background_light)
    &&& is_hex_triplet(c.background_lightest)
    &&& is_hex_triplet(c.foreground)
    &&& is_hex_triplet(c.foreground_darker)
    &&& is_hex_triplet(c.foreground_darkest)
    &&& is_hex_triplet(c.accent)
    &&& is_hex_triplet(c.nav)
    &&& is_hex_triplet(c.text_clr_primary)
    &&& is_hex_triplet(c.text_clr_secondary)
}

/// The theme a template stands for: its name with each colour parsed. A
/// template with a colour that is not of the form `#RRGGBB` is malformed and
/// stands for none.
pub open spec fn theme_of(t: TemplateView) -> Option<ThemeView> {
    if colors_are_hex(t.colors) {
        Some(
            ThemeView {
                name: t.name,
                colors: ThemeColors {
                    focus_round: hex_rgb(t.colors.focus_round)->0,
                    short_break: hex_rgb(t.colors.short_break)->0,
                    long_break: hex_rgb(t.colors.long_break)->0,
                    background: hex_rgb(t.colors.background)->0,
                    background_light: hex_rgb(t.colors.background_light)->0,
                    background_lightest: hex_rgb(t.colors.background_lightest)->0,
                    foreground: hex_rgb(t.colors.foreground)->0,
                    foreground_darker: hex_rgb(t.colors.foreground_darker)->0,
                    foreground_darkest: hex_rgb(t.colors.foreground_darkest)->0,
                    accent: hex_rgb(t.colors.accent)->0,
                    nav: hex_rgb(t.colors.nav)->0,
                    text_clr_primary: hex_rgb(t.colors.text_clr_primary)->0,
                    text_clr_secondary: hex_rgb(t.colors.text_clr_secondary)->0,
                },
            },
        )
    } else {
        None
    }
}

/// Runtime form of [`hex_digit`], as a test.
fn is_hex_digit(c: char) -> (ok: bool)
    ensures
        ok == hex_digit(c) is Some,
{
    let u: u32 = c as u32;
    (0x30 <= u && u <= 0x39) || (0x61 <= u && u <= 0x66) || (0x41 <= u && u <= 0x46)
}

/// Whether `s` has the form `#RRGGBB`.
pub fn is_hex_color(s: &str) -> (ok: bool)
    ensures
        ok == is_hex_triplet(s@),
{
    let chars: Vec<char> = to_chars(s);
    if chars.len() != 7 || chars[0] != '#' {
        return false;
    }
    let mut i: usize = 1;
    while i < 7
        invariant
            1 <= i <= 7,
            chars@ == s@,
            chars.len() == 7,
            forall|k: int| 1 <= k < i ==> hex_digit(#[trigger] s@[k]) is Some,
        decreases 7 - i,
    {
        if !is_hex_digit(chars[i]) {
            assert(hex_digit(s@[i as int]) is None);
            return false;
        }
        i = i + 1;
    }
    true
}

/// Calls `hex_color::HexColor::parse` and hands out the red, green and blue
/// channels of the colour it returns. For a text made of `#` and six
/// hexadecimal digits that parser reads each pair of digits, in either case,
/// as one channel with the first digit weighing sixteen, and does not fail.
/// Other texts are not handed to it.
#[verifier::external_body]
fn parse_hex_channels(s: &str) -> (channels: Option<(u8, u8, u8)>)
    requires
        is_hex_triplet(s@),
    ensures
        channels == Some((channel(s@, 1), channel(s@, 3), channel(s@, 5))),
{
    match hex_color::HexColor::parse(s) {
        Ok(color) => Some((color.r, color.g, color.b)),
        Err(_) => None,
    }
}

/// Parses a colour of the form `#RRGGBB`; any other text is refused.
pub fn parse_color(s: &str) -> (color: Option<Rgb>)
    ensures
        color == hex_rgb(s@),
{
    if !is_hex_color(s) {
        return None;
    }
    match parse_hex_channels(s) {
        Some((r, g, b)) => Some(Rgb { r, g, b }),
        None => None,
    }
}

impl JsonThemeTemplate {
    /// Turns the template into a theme by parsing each of its colours.
    /// `None` marks a malformed template: one with a colour that is not of
    /// the form `#RRGGBB`.
    pub fn into_theme(self) -> (theme: Option<JsonTheme>)
        ensures
            match theme {
                Some(t) => theme_of(self@) == Some(t@),
                None => theme_of(self@) is None,
            },
    {
        let c = &self.colors;
        let focus_round: Rgb = match parse_color(c.focus_round.as_str()) {
            Some(color) => color,
            None => {
                return None;
            },
        };
        let short_break: Rgb = match parse_color(c.short_break.as_str()) {
            Some(color) => color,
            None => {
                return None;
            },
        };
        let long_break: Rgb = match parse_color(c.long_break.as_str()) {
            Some(color) => color,
            None => {
                return None;
            },
        };
        let background: Rgb = match parse_color(c.background.as_str()) {
            Some(color) => color,
            None => {
                return None;
            },
        };
        let background_light: Rgb = match parse_color(c.background_light.as_str()) {
            Some(color) => color,
            None => {
                return None;
            },
        };
        let background_lightest: Rgb = match parse_color(c.background_lightest.as_str()) {
            Some(color) => color,
            None => {
                return None;
            },
        };
        let foreground: Rgb = match parse_color(c.foreground.as_str()) {
            Some(color) => color,
            None => {
                return None;
            },
        };
        let foreground_darker: Rgb = match parse_color(c.foreground_darker.as_str()) {
            Some(color) => color,
            None => {
                return None;
            },
        };
        let foreground_darkest: Rgb = match parse_color(c.foreground_darkest.as_str()) {
            Some(color) => color,
            None => {
                return None;
            },
        };
        let accent: Rgb = match parse_color(c.accent.as_str()) {
            Some(color) => color,
            None => {
                return None;
            },
        };
        let nav: Rgb = match parse_color(c.nav.as_str()) {
            Some(color) => color,
            None => {
                return None;
            },
        };
        let text_clr_primary: Rgb = match parse_color(c.text_clr_primary.as_str()) {
            Some(color) => color,
            None => {
                return None;
            },
        };
        let text_clr_secondary: Rgb = match parse_color(c.text_clr_secondary.as_str()) {
            Some(color) => color,
            None => {
                return None;
            },
        };
        Some(
            JsonTheme {
                name: self.name,
                colors: ThemeColors {
                    focus_round,
                    short_break,
                    long_break,
                    background,
                    background_light,
                    background_lightest,
                    foreground,
                    foreground_darker,
                    foreground_darkest,
                    accent,
                    nav,
                    text_clr_primary,
                    text_clr_secondary,
                },
            },
        )
    }
}

/// The built-in theme, as a theme file would hold it.
pub open spec fn default_template_view() -> TemplateView {
    TemplateView {
        name: "Eclipse"@,
        colors: ThemeColors {
            focus_round: "#eebc7f"@,
            short_break: "#c3cffb"@,
            long_break: "#af486d"@,
            background: "#0c0912"@,
            background_light: "#343132"@,
            background_lightest: "#837c7e"@,
            foreground: "#dfdfd7"@,
            foreground_darker: "#bec0c0"@,
            foreground_darkest: "#adadae"@,
            accent: "#7147f0"@,
            nav: "#1d2545"@,
            text_clr_primary: "#b4a3f8"@,
            text_clr_secondary: "#cbc5db"@,
        },
    }
}

/// The built-in theme.
pub open spec fn default_theme_view() -> ThemeView {
    ThemeView {
        name: "Eclipse"@,
        colors: ThemeColors {
            focus_round: Rgb { r: 0xee, g: 0xbc, b: 0x7f },
            short_break: Rgb { r: 0xc3, g: 0xcf, b: 0xfb },
            long_break: Rgb { r: 0xaf, g: 0x48, b: 0x6d },
            background: Rgb { r: 0x0c, g: 0x09, b: 0x12 },
            background_light: Rgb { r: 0x34, g: 0x31, b: 0x32 },
            background_lightest: Rgb { r: 0x83, g: 0x7c, b: 0x7e },
            foreground: Rgb { r: 0xdf, g: 0xdf, b: 0xd7 },
            foreground_darker: Rgb { r: 0xbe, g: 0xc0, b: 0xc0 },
            foreground_darkest: Rgb { r: 0xad, g: 0xad, b: 0xae },
            accent: Rgb { r: 0x71, g: 0x47, b: 0xf0 },
            nav: Rgb { r: 0x1d, g: 0x25, b: 0x45 },
            text_clr_primary: Rgb { r: 0xb4, g: 0xa3, b: 0xf8 },
            text_clr_secondary: Rgb { r: 0xcb, g: 0xc5, b: 0xdb },
        },
    }
}

/// The built-in template is well formed and stands for the built-in theme.
pub proof fn default_template_is_well_formed()
    ensures
        theme_of(default_template_view()) == Some(default_theme_view()),
{
    reveal_strlit("#eebc7f");
    reveal_strlit("#c3cffb");
    reveal_strlit("#af486d");
    reveal_strlit("#0c0912");
    reveal_strlit("#343132");
    reveal_strlit("#837c7e");
    reveal_strlit("#dfdfd7");
    reveal_strlit("#bec0c0");
    reveal_strlit("#adadae");
    reveal_strlit("#7147f0");
    reveal_strlit("#1d2545");
    reveal_strlit("#b4a3f8");
    reveal_strlit("#cbc5db");
}

/// The built-in theme, as a theme file would hold it.
pub fn default_theme() -> (template: JsonThemeTemplate)
    ensures
        template@ == default_template_view(),
{
    JsonThemeTemplate {
        name: "Eclipse".to_owned(),
        colors: ThemeColors {
            focus_round: "#eebc7f".to_owned(),
            short_break: "#c3cffb".to_owned(),
            long_break: "#af486d".to_owned(),
            background: "#0c0912".to_owned(),
            background_light: "#343132".to_owned(),
            background_lightest: "#837c7e".to_owned(),
            foreground: "#dfdfd7".to_owned(),
            foreground_darker: "#bec0c0".to_owned(),
            foreground_darkest: "#adadae".to_owned(),
            accent: "#7147f0".to_owned(),
            nav: "#1d2545".to_owned(),
            text_clr_primary: "#b4a3f8".to_owned(),
            text_clr_secondary: "#cbc5db".to_owned(),
        },
    }
}

/// The themes that the templates stand for, in the order of the templates;
/// malformed templates are skipped.
pub open spec fn themes_of(templates: Seq<TemplateView>) -> Seq<ThemeView>
    decreases templates.len(),
{
    if templates.len() == 0 {
        Seq::empty()
    } else {
        match theme_of(templates.last()) {
            Some(theme) => themes_of(templates.drop_last()).push(theme),
            None => themes_of(templates.drop_last()),
        }
    }
}

/// The catalogue for these templates: their themes in lexicographic order of
/// their names, themes of one name in the order of the templates; or the
/// built-in theme alone where no template is well formed.
pub open spec fn theme_catalogue(templates: Seq<TemplateView>) -> Seq<ThemeView> {
    let found = themes_of(templates);
    stable_sort(
        if found.len() == 0 {
            seq![default_theme_view()]
        } else {
            found
        },
    )
}

/// Whether a file of this name is read as a theme file: the name ends with
/// `.json`, in any case.
pub fn is_theme_file(file_name: &str) -> (ok: bool)
    ensures
        ok == has_extension(file_name@, ".json"@),
{
    ends_with_extension(file_name, ".json")
}

/// Builds the theme catalogue from the templates that the theme files held.
pub fn load_themes(templates: Vec<JsonThemeTemplate>) -> (themes: Vec<JsonTheme>)
    ensures
        theme_views(themes@) == theme_catalogue(template_views(templates@)),
        sorted_by_key(themes@),
        themes@.len() > 0,
{
    let ghost all = template_views(templates@);
    let mut found: Vec<JsonTheme> = Vec::new();
    for template in it: templates
        invariant
            it.seq() == templates@,
            all == template_views(templates@),
            theme_views(found@) == themes_of(all.take(it.index() as int)),
    {
        let ghost i = it.index() as int;
        let ghost before = found@;
        proof {
            assert(all.take(i + 1).drop_last() =~= all.take(i));
            assert(all.take(i + 1).last() == template@);
        }
        match template.into_theme() {
            Some(theme) => {
                found.push(theme);
                assert(theme_views(found@) =~= theme_views(before).push(theme@));
            },
            None => {},
        }
    }
    proof {
        assert(all.take(all.len() as int) =~= all);
    }
    if found.len() == 0 {
        proof {
            default_template_is_well_formed();
        }
        match default_theme().into_theme() {
            Some(theme) => {
                found.push(theme);
            },
            None => {},
        }
        assert(theme_views(found@) =~= seq![default_theme_view()]);
    }
    let themes: Vec<JsonTheme> = sort_by_key(found);
    proof {
        stable_sort_commutes(found@, |t: JsonTheme| t@);
        stable_sort_sorts(found@);
    }
    themes
}

/// The position of the theme called `name` in the catalogue: the first entry
/// with that name, or `None` where the catalogue has no such entry.
pub fn find_theme(themes: &Vec<JsonTheme>, name: &str) -> (found: Option<usize>)
    ensures
        match found {
            Some(i) => i < themes.len() && themes@[i as int].name@ == name@ && forall|j: int|
                0 <= j < i ==> themes@[j].name@ != name@,
            None => forall|j: int| 0 <= j < themes.len() ==> themes@[j].name@ != name@,
        },
{
    let mut i: usize = 0;
    while i < themes.len()
        invariant
            i <= themes.len(),
            forall|j: int| 0 <= j < i ==> themes@[j].name@ != name@,
        decreases themes.len() - i,
    {
        if str_eq(themes[i].name.as_str(), name) {
            return Some(i);
        }
        i = i + 1;
    }
    None
}

/// Every theme found is the theme of a well-formed template.
pub proof fn themes_come_from_templates(templates: Seq<TemplateView>, n: int)
    requires
        0 <= n < themes_of(templates).len(),
    ensures
        exists|k: int|
            0 <= k < templates.len() && theme_of(#[trigger] templates[k]) == Some(
                themes_of(templates)[n],
            ),
    decreases templates.len(),
{
    let rest = templates.drop_last();
    if n < themes_of(rest).len() {
        themes_come_from_templates(rest, n);
        let k = choose|k: int|
            0 <= k < rest.len() && theme_of(#[trigger] rest[k]) == Some(themes_of(rest)[n]);
        assert(templates[k] == rest[k]);
    } else {
        assert(templates[templates.len() - 1] == templates.last());
    }
}

/// The theme of every well-formed template is found.
pub proof fn templates_are_found(templates: Seq<TemplateView>, k: int)
    requires
        0 <= k < templates.len(),
        theme_of(templates[k]) is Some,
    ensures
        themes_of(templates).contains(theme_of(templates[k])->0),
    decreases templates.len(),
{
    let rest = templates.drop_last();
    let all = themes_of(templates);
    if k < templates.len() - 1 {
        assert(rest[k] == templates[k]);
        templates_are_found(rest, k);
        let n = choose|n: int|
            0 <= n < themes_of(rest).len() && themes_of(rest)[n] == theme_of(templates[k])->0;
        assert(all[n] == themes_of(rest)[n]);
    } else {
        assert(templates.last() == templates[k]);
        assert(all[all.len() - 1] == theme_of(templates[k])->0);
    }
}

/// The catalogue is never empty, it is sorted by name, and each of its
/// themes is the theme of a well-formed template, or the built-in theme where
/// no template is well formed.
pub proof fn theme_catalogue_is_sound(templates: Seq<TemplateView>, i: int)
    requires
        0 <= i < theme_catalogue(templates).len(),
    ensures
        theme_catalogue(templates).len() > 0,
        sorted_by_key(theme_catalogue(templates)),
        themes_of(templates).len() == 0 ==> theme_catalogue(templates)[i] == default_theme_view(),
        themes_of(templates).len() > 0 ==> exists|k: int|
            0 <= k < templates.len() && theme_of(#[trigger] templates[k]) == Some(
                theme_catalogue(templates)[i],
            ),
{
    let found = themes_of(templates);
    let catalogue = theme_catalogue(templates);
    let entry = catalogue[i];
    assert(catalogue.contains(entry));
    if found.len() == 0 {
        let only = seq![default_theme_view()];
        stable_sort_sorts(only);
        stable_sort_keeps_members(only, entry);
        assert(only.contains(entry));
    } else {
        stable_sort_sorts(found);
        stable_sort_keeps_members(found, entry);
        let n = choose|n: int| 0 <= n < found.len() && found[n] == entry;
        themes_come_from_templates(templates, n);
    }
}

/// The catalogue holds the theme of every well-formed template.
pub proof fn theme_catalogue_is_complete(templates: Seq<TemplateView>, k: int)
    requires
        0 <= k < templates.len(),
        theme_of(templates[k]) is Some,
    ensures
        theme_catalogue(templates).contains(theme_of(templates[k])->0),
{
    templates_are_found(templates, k);
    stable_sort_keeps_members(themes_of(templates), theme_of(templates[k])->0);
}

} // verus!
