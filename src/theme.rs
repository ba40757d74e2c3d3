//! Themes of the shell: their colours, light or dark variant, and the
//! selection of a built-in or custom theme.
use vstd::prelude::*;
use vstd::string::StringExecFns;

use crate::builtin_themes::{
    catppuccin_frappe, catppuccin_latte, catppuccin_macchiato, catppuccin_mocha,
    is_catppuccin_frappe, is_catppuccin_latte, is_catppuccin_macchiato, is_catppuccin_mocha,
};

verus! {

/// The colour variables of a theme, as CSS colour strings. They follow the
/// Catppuccin palette's names.
#[derive(Debug, Clone, PartialEq, Eq)]
pub struct ThemeColors {
    pub pink: String,
    pub orange: String,
    pub red: String,
    pub yellow: String,
    pub green: String,
    pub blue: String,
    pub purple: String,
    pub text: String,
    pub subtext_1: String,
    pub subtext_0: String,
    pub overlay_2: String,
    pub overlay_1: String,
    pub overlay_0: String,
    pub surface_2: String,
    pub surface_1: String,
    pub surface_0: String,
    /// Background colour of the lowest layer of an application.
    pub bg_0: String,
    /// Background colour of the middle layer of an application.
    pub bg_1: String,
    /// Background colour of the top layer of an application.
    pub bg_2: String,
}

/// The colours of a theme, in the order of `ThemeColors`' fields.
pub open spec fn colors_view(c: ThemeColors) -> Seq<Seq<char>> {
    seq![
        c.pink@,
        c.orange@,
        c.red@,
        c.yellow@,
        c.green@,
        c.blue@,
        c.purple@,
        c.text@,
        c.subtext_1@,
        c.subtext_0@,
        c.overlay_2@,
        c.overlay_1@,
        c.overlay_0@,
        c.surface_2@,
        c.surface_1@,
        c.surface_0@,
        c.bg_0@,
        c.bg_1@,
        c.bg_2@,
    ]
}

/// One SCSS variable definition: `$name: value;`.
pub open spec fn scss_variable(name: Seq<char>, value: Seq<char>) -> Seq<char> {
    "$"@ + name + ": "@ + value + ";"@
}

/// The SCSS variable definitions of a theme's colours, one per line, in
/// groups parted by empty lines.
pub open spec fn colors_scss(c: ThemeColors) -> Seq<char> {
    scss_variable("pink"@, c.pink@) + "\n"@
        + scss_variable("orange"@, c.orange@) + "\n"@
        + scss_variable("red"@, c.red@) + "\n"@
        + scss_variable("yellow"@, c.yellow@) + "\n"@
        + scss_variable("green"@, c.green@) + "\n"@
        + scss_variable("blue"@, c.blue@) + "\n"@
        + scss_variable("blue"@, c.blue@) + "\n"@
        + scss_variable("purple"@, c.purple@) + "\n\n"@
        + scss_variable("text"@, c.text@) + "\n"@
        + scss_variable("subtext-1"@, c.subtext_1@) + "\n"@
        + scss_variable("subtext-0"@, c.subtext_0@) + "\n\n"@
        + scss_variable("overlay-2"@, c.overlay_2@) + "\n"@
        + scss_variable("overlay-1"@, c.overlay_1@) + "\n"@
        + scss_variable("overlay-0"@, c.overlay_0@) + "\n\n"@
        + scss_variable("surface-2"@, c.surface_2@) + "\n"@
        + scss_variable("surface-1"@, c.surface_1@) + "\n"@
        + scss_variable("surface-0"@, c.surface_0@) + "\n\n"@
        + scss_variable("bg_0"@, c.bg_0@) + "\n"@
        + scss_variable("bg_1"@, c.bg_1@) + "\n"@
        + scss_variable("bg_2"@, c.bg_2@)
}

/// Appends the definition of one SCSS variable, then `sep`.
fn push_variable(out: &mut String, name: &str, value: &String, sep: &str)
    ensures
        final(out)@ == old(out)@ + scss_variable(name@, value@) + sep@,
{
    let ghost start = out@;
    out.append("$");
    out.append(name);
    out.append(": ");
    out.append(value.as_str());
    out.append(";");
    out.append(sep);
    assert(out@ =~= start + scss_variable(name@, value@) + sep@);
}

impl ThemeColors {
    /// The colours as SCSS variable definitions.
    pub fn as_scss(&self) -> (r: String)
        ensures
            r@ == colors_scss(*self),
    {
        let mut out = String::new();
        push_variable(&mut out, "pink", &self.pink, "\n");
        assert(out@ =~= scss_variable("pink"@, self.pink@) + "\n"@);
        push_variable(&mut out, "orange", &self.orange, "\n");
        push_variable(&mut out, "red", &self.red, "\n");
        push_variable(&mut out, "yellow", &self.yellow, "\n");
        push_variable(&mut out, "green", &self.green, "\n");
        push_variable(&mut out, "blue", &self.blue, "\n");
        push_variable(&mut out, "blue", &self.blue, "\n");
        push_variable(&mut out, "purple", &self.purple, "\n\n");
        push_variable(&mut out, "text", &self.text, "\n");
        push_variable(&mut out, "subtext-1", &self.subtext_1, "\n");
        push_variable(&mut out, "subtext-0", &self.subtext_0, "\n\n");
        push_variable(&mut out, "overlay-2", &self.overlay_2, "\n");
        push_variable(&mut out, "overlay-1", &self.overlay_1, "\n");
        push_variable(&mut out, "overlay-0", &self.overlay_0, "\n\n");
        push_variable(&mut out, "surface-2", &self.surface_2, "\n");
        push_variable(&mut out, "surface-1", &self.surface_1, "\n");
        push_variable(&mut out, "surface-0", &self.surface_0, "\n\n");
        push_variable(&mut out, "bg_0", &self.bg_0, "\n");
        push_variable(&mut out, "bg_1", &self.bg_1, "\n");
        push_variable(&mut out, "bg_2", &self.bg_2, "");
        proof {
            reveal_strlit("");
        }
        assert(out@ =~= colors_scss(*self));
        out
    }
}

/// Whether a theme is light or dark.
#[derive(Debug, Clone, Copy, PartialEq, Eq, Structural)]
pub enum ThemeVariant {
    Light,
    Dark,
}

impl ThemeVariant {
    /// Whether the variant is the light one.
    pub fn is_light(&self) -> (r: bool)
        ensures
            r == (*self == ThemeVariant::Light),
    {
        match self {
            ThemeVariant::Light => true,
            ThemeVariant::Dark => false,
        }
    }

    /// Whether the variant is the dark one.
    pub fn is_dark(&self) -> (r: bool)
        ensures
            r == (*self == ThemeVariant::Dark),
    {
        !self.is_light()
    }
}

/// A theme: its colours, name, variant, and the GTK theme that goes with it.
#[derive(Debug, Clone, PartialEq, Eq)]
pub struct Theme {
    pub colors: ThemeColors,
    pub name: String,
    pub variant: ThemeVariant,
    pub gtk_theme: Option<String>,
}

impl Theme {
    /// Whether the theme is light.
    pub fn is_light(&self) -> (r: bool)
        ensures
            r == (self.variant == ThemeVariant::Light),
    {
        self.variant.is_light()
    }

    /// Whether the theme is dark.
    pub fn is_dark(&self) -> (r: bool)
        ensures
            r == (self.variant == ThemeVariant::Dark),
    {
        self.variant.is_dark()
    }
}

/// A copy of a theme's colours.
fn clone_colors(c: &ThemeColors) -> (r: ThemeColors)
    ensures
        r == *c,
{
    ThemeColors {
        pink: c.pink.clone(),
        orange: c.orange.clone(),
        red: c.red.clone(),
        yellow: c.yellow.clone(),
        green: c.green.clone(),
        blue: c.blue.clone(),
        purple: c.purple.clone(),
        text: c.text.clone(),
        subtext_1: c.subtext_1.clone(),
        subtext_0: c.subtext_0.clone(),
        overlay_2: c.overlay_2.clone(),
        overlay_1: c.overlay_1.clone(),
        overlay_0: c.overlay_0.clone(),
        surface_2: c.surface_2.clone(),
        surface_1: c.surface_1.clone(),
        surface_0: c.surface_0.clone(),
        bg_0: c.bg_0.clone(),
        bg_1: c.bg_1.clone(),
        bg_2: c.bg_2.clone(),
    }
}

/// A copy of a theme.
fn clone_theme(t: &Theme) -> (r: Theme)
    ensures
        r == *t,
{
    let gtk_theme = match &t.gtk_theme {
        Some(g) => Some(g.clone()),
        None => None,
    };
    Theme { colors: clone_colors(&t.colors), name: t.name.clone(), variant: t.variant, gtk_theme }
}

/// The first theme of `themes` whose name is `name`.
pub open spec fn find_theme(themes: Seq<Theme>, name: Seq<char>) -> Option<Theme>
    decreases themes.len(),
{
    if themes.len() == 0 {
        None
    } else if themes[0].name@ == name {
        Some(themes[0])
    } else {
        find_theme(themes.drop_first(), name)
    }
}

/// The theme that the shell uses: a built-in one, or a custom theme named in
/// the configuration.
#[derive(Debug, Clone, PartialEq, Eq)]
pub enum ThemeSelection {
    CatppuccinFrappe,
    CatppuccinMacchiato,
    CatppuccinMocha,
    CatppuccinLatte,
    Custom(String),
}

impl Default for ThemeSelection {
    fn default() -> (r: ThemeSelection)
        ensures
            r == ThemeSelection::CatppuccinMacchiato,
    {
        ThemeSelection::CatppuccinMacchiato
    }
}

/// Whether the selection is light, where it names a theme that exists.
pub open spec fn selection_is_light(sel: ThemeSelection, custom_themes: Seq<Theme>) -> Option<bool> {
    match sel {
        ThemeSelection::CatppuccinLatte => Some(true),
        ThemeSelection::Custom(name) => match find_theme(custom_themes, name@) {
            Some(t) => Some(t.variant == ThemeVariant::Light),
            None => None,
        },
        _ => Some(false),
    }
}

/// The selections offered: the built-in themes, then each custom theme.
pub open spec fn all_selections(custom_themes: Seq<Theme>) -> Seq<ThemeSelection> {
    seq![
        ThemeSelection::CatppuccinFrappe,
        ThemeSelection::CatppuccinMacchiato,
        ThemeSelection::CatppuccinMocha,
        ThemeSelection::CatppuccinLatte,
    ] + custom_themes.map_values(|t: Theme| ThemeSelection::Custom(t.name))
}

impl ThemeSelection {
    /// The custom theme that the selection names, among `custom_themes`.
    fn try_read_custom_theme(&self, custom_themes: &Vec<Theme>) -> (r: Option<Theme>)
        requires
            self is Custom,
        ensures
            r == find_theme(custom_themes@, self->Custom_0@),
    {
        let name = match self {
            ThemeSelection::Custom(name) => name,
            _ => {
                return None;
            },
        };
        let n = custom_themes.len();
        let mut i: usize = 0;
        assert(custom_themes@.subrange(0, n as int) =~= custom_themes@);
        while i < n
            invariant
                i <= n,
                n == custom_themes@.len(),
                *name == self->Custom_0,
                find_theme(custom_themes@, name@) == find_theme(
                    custom_themes@.subrange(i as int, n as int),
                    name@,
                ),
            decreases n - i,
        {
            let rest = Ghost(custom_themes@.subrange(i as int, n as int));
            assert(rest@.drop_first() =~= custom_themes@.subrange(i + 1, n as int));
            if custom_themes[i].name == *name {
                return Some(clone_theme(&custom_themes[i]));
            }
            i = i + 1;
        }
        None
    }

    /// Whether the selected theme is light; `None` where it names a custom
    /// theme that `custom_themes` does not hold.
    pub fn is_light(&self, custom_themes: &Vec<Theme>) -> (r: Option<bool>)
        ensures
            r == selection_is_light(*self, custom_themes@),
    {
        match self {
            ThemeSelection::CatppuccinLatte => Some(true),
            ThemeSelection::Custom(_) => match self.try_read_custom_theme(custom_themes) {
                Some(theme) => Some(theme.variant.is_light()),
                None => None,
            },
            _ => Some(false),
        }
    }

    /// Whether the selected theme is dark; `None` where it names a custom
    /// theme that `custom_themes` does not hold.
    pub fn is_dark(&self, custom_themes: &Vec<Theme>) -> (r: Option<bool>)
        ensures
            r == match selection_is_light(*self, custom_themes@) {
                Some(light) => Some(!light),
                None => None,
            },
    {
        match self.is_light(custom_themes) {
            Some(light) => Some(!light),
            None => None,
        }
    }

    /// The selected theme; `None` where it names a custom theme that
    /// `custom_themes` does not hold.
    pub fn theme(&self, custom_themes: &Vec<Theme>) -> (r: Option<Theme>)
        ensures
            match self {
                ThemeSelection::CatppuccinFrappe => r matches Some(t) && is_catppuccin_frappe(t),
                ThemeSelection::CatppuccinMacchiato => r matches Some(t) && is_catppuccin_macchiato(t),
                ThemeSelection::CatppuccinMocha => r matches Some(t) && is_catppuccin_mocha(t),
                ThemeSelection::CatppuccinLatte => r matches Some(t) && is_catppuccin_latte(t),
                ThemeSelection::Custom(name) => r == find_theme(custom_themes@, name@),
            },
    {
        match self {
            ThemeSelection::CatppuccinFrappe => Some(catppuccin_frappe()),
            ThemeSelection::CatppuccinMacchiato => Some(catppuccin_macchiato()),
            ThemeSelection::CatppuccinMocha => Some(catppuccin_mocha()),
            ThemeSelection::CatppuccinLatte => Some(catppuccin_latte()),
            ThemeSelection::Custom(_) => self.try_read_custom_theme(custom_themes),
        }
    }
}

/// Every theme selection on offer: the built-in themes, then one for each
/// custom theme of the configuration, in its order.
pub fn get_or_init_all_theme_selections(custom_themes: &Vec<Theme>) -> (r: Vec<ThemeSelection>)
    ensures
        r@ == all_selections(custom_themes@),
{
    let mut themes = vec![
        ThemeSelection::CatppuccinFrappe,
        ThemeSelection::CatppuccinMacchiato,
        ThemeSelection::CatppuccinMocha,
        ThemeSelection::CatppuccinLatte,
    ];
    let ghost builtins = themes@;
    let n = custom_themes.len();
    let mut i: usize = 0;
    while i < n
        invariant
            i <= n,
            n == custom_themes@.len(),
            themes@ == builtins + custom_themes@.take(i as int).map_values(
                |t: Theme| ThemeSelection::Custom(t.name),
            ),
        decreases n - i,
    {
        themes.push(ThemeSelection::Custom(custom_themes[i].name.clone()));
        i = i + 1;
        assert(custom_themes@.take(i as int).map_values(|t: Theme| ThemeSelection::Custom(t.name))
            =~= custom_themes@.take(i - 1).map_values(|t: Theme| ThemeSelection::Custom(t.name))
            .push(ThemeSelection::Custom(custom_themes@[i - 1].name)));
        assert(themes@ =~= builtins + custom_themes@.take(i as int).map_values(
            |t: Theme| ThemeSelection::Custom(t.name),
        ));
    }
    assert(custom_themes@.take(n as int) =~= custom_themes@);
    assert(themes@ =~= all_selections(custom_themes@));
    themes
}

} // verus!
