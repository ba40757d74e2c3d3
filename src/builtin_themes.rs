//! The built-in Catppuccin themes.
use vstd::prelude::*;
use vstd::string::StringExecFns;

use crate::theme::{Theme, ThemeColors, ThemeVariant, colors_view};

verus! {
/// Whether `t` is the Catppuccin Latte theme.
pub open spec fn is_catppuccin_latte(t: Theme) -> bool {
    &&& t.name@ == "Catppuccin Latte"@
    &&& t.variant == ThemeVariant::Light
    &&& t.gtk_theme matches Some(g) && g@ == "catppuccin-latte-sky-standard"@
    &&& colors_view(t.colors) == seq![
            "#ea76cb"@,
            "#fe640b"@,
            "#d20f39"@,
            "#df8e1d"@,
            "#40a02b"@,
            "#04a5e5"@,
            "#7287fd"@,
            "#4c4f69"@,
            "#5c5f77"@,
            "#6c6f85"@,
            "#7c7f93"@,
            "#8c8fa1"@,
            "#9ca0b0"@,
            "#acb0be"@,
            "#bcc0cc"@,
            "#ccd0da"@,
            "#eff1f5"@,
            "#e6e9ef"@,
            "#dce0e8"@,
        ]
}

/// The Catppuccin Latte theme.
pub fn catppuccin_latte() -> (r: Theme)
    ensures
        is_catppuccin_latte(r),
{
    let colors = ThemeColors {
        pink: String::from_str("#ea76cb"),
        orange: String::from_str("#fe640b"),
        red: String::from_str("#d20f39"),
        yellow: String::from_str("#df8e1d"),
        green: String::from_str("#40a02b"),
        blue: String::from_str("#04a5e5"),
        purple: String::from_str("#7287fd"),
        text: String::from_str("#4c4f69"),
        subtext_1: String::from_str("#5c5f77"),
        subtext_0: String::from_str("#6c6f85"),
        overlay_2: String::from_str("#7c7f93"),
        overlay_1: String::from_str("#8c8fa1"),
        overlay_0: String::from_str("#9ca0b0"),
        surface_2: String::from_str("#acb0be"),
        surface_1: String::from_str("#bcc0cc"),
        surface_0: String::from_str("#ccd0da"),
        bg_0: String::from_str("#eff1f5"),
        bg_1: String::from_str("#e6e9ef"),
        bg_2: String::from_str("#dce0e8"),
    };
    assert(colors_view(colors) =~= seq![
            "#ea76cb"@,
            "#fe640b"@,
            "#d20f39"@,
            "#df8e1d"@,
            "#40a02b"@,
            "#04a5e5"@,
            "#7287fd"@,
            "#4c4f69"@,
            "#5c5f77"@,
            "#6c6f85"@,
            "#7c7f93"@,
            "#8c8fa1"@,
            "#9ca0b0"@,
            "#acb0be"@,
            "#bcc0cc"@,
            "#ccd0da"@,
            "#eff1f5"@,
            "#e6e9ef"@,
            "#dce0e8"@,
    ]);
    Theme {
        colors,
        name: String::from_str("Catppuccin Latte"),
        variant: ThemeVariant::Light,
        gtk_theme: Some(String::from_str("catppuccin-latte-sky-standard")),
    }
}

/// Whether `t` is the Catppuccin Frappe theme.
pub open spec fn is_catppuccin_frappe(t: Theme) -> bool {
    &&& t.name@ == "Catppuccin Frapp\u{c3}\u{a9}"@
    &&& t.variant == ThemeVariant::Dark
    &&& t.gtk_theme matches Some(g) && g@ == "catppuccin-frappe-sky-standard"@
    &&& colors_view(t.colors) == seq![
            "#f4b8e4"@,
            "#ef9f76"@,
            "#e78284"@,
            "#e5c890"@,
            "#a6d189"@,
            "#99d1db"@,
            "#babbf1"@,
            "#c6d0f5"@,
            "#b5bfe2"@,
            "#a5adce"@,
            "#949cbb"@,
            "#838ba7"@,
            "#737994"@,
            "#626880"@,
            "#51576d"@,
            "#414559"@,
            "#303446"@,
            "#292c3c"@,
            "#232634"@,
        ]
}

/// The Catppuccin Frappe theme.
pub fn catppuccin_frappe() -> (r: Theme)
    ensures
        is_catppuccin_frappe(r),
{
    let colors = ThemeColors {
        pink: String::from_str("#f4b8e4"),
        orange: String::from_str("#ef9f76"),
        red: String::from_str("#e78284"),
        yellow: String::from_str("#e5c890"),
        green: String::from_str("#a6d189"),
        blue: String::from_str("#99d1db"),
        purple: String::from_str("#babbf1"),
        text: String::from_str("#c6d0f5"),
        subtext_1: String::from_str("#b5bfe2"),
        subtext_0: String::from_str("#a5adce"),
        overlay_2: String::from_str("#949cbb"),
        overlay_1: String::from_str("#838ba7"),
        overlay_0: String::from_str("#737994"),
        surface_2: String::from_str("#626880"),
        surface_1: String::from_str("#51576d"),
        surface_0: String::from_str("#414559"),
        bg_0: String::from_str("#303446"),
        bg_1: String::from_str("#292c3c"),
        bg_2: String::from_str("#232634"),
    };
    assert(colors_view(colors) =~= seq![
            "#f4b8e4"@,
            "#ef9f76"@,
            "#e78284"@,
            "#e5c890"@,
            "#a6d189"@,
            "#99d1db"@,
            "#babbf1"@,
            "#c6d0f5"@,
            "#b5bfe2"@,
            "#a5adce"@,
            "#949cbb"@,
            "#838ba7"@,
            "#737994"@,
            "#626880"@,
            "#51576d"@,
            "#414559"@,
            "#303446"@,
            "#292c3c"@,
            "#232634"@,
    ]);
    Theme {
        colors,
        name: String::from_str("Catppuccin Frapp\u{c3}\u{a9}"),
        variant: ThemeVariant::Dark,
        gtk_theme: Some(String::from_str("catppuccin-frappe-sky-standard")),
    }
}

/// Whether `t` is the Catppuccin Macchiato theme.
pub open spec fn is_catppuccin_macchiato(t: Theme) -> bool {
    &&& t.name@ == "Catppuccin Macchiato"@
    &&& t.variant == ThemeVariant::Dark
    &&& t.gtk_theme matches Some(g) && g@ == "catppuccin-macchiato-sky-standard"@
    &&& colors_view(t.colors) == seq![
            "#f5bde6"@,
            "#f5a97f"@,
            "#ed8796"@,
            "#eed49f"@,
            "#a6da95"@,
            "#91d7e3"@,
            "#b7bdf8"@,
            "#cad3f5"@,
            "#b8c0e0"@,
            "#a5adcb"@,
            "#939ab7"@,
            "#8087a2"@,
            "#6e738d"@,
            "#5b6078"@,
            "#494d64"@,
            "#363a4f"@,
            "#24273a"@,
            "#1e2030"@,
            "#181926"@,
        ]
}

/// The Catppuccin Macchiato theme.
pub fn catppuccin_macchiato() -> (r: Theme)
    ensures
        is_catppuccin_macchiato(r),
{
    let colors = ThemeColors {
        pink: String::from_str("#f5bde6"),
        orange: String::from_str("#f5a97f"),
        red: String::from_str("#ed8796"),
        yellow: String::from_str("#eed49f"),
        green: String::from_str("#a6da95"),
        blue: String::from_str("#91d7e3"),
        purple: String::from_str("#b7bdf8"),
        text: String::from_str("#cad3f5"),
        subtext_1: String::from_str("#b8c0e0"),
        subtext_0: String::from_str("#a5adcb"),
        overlay_2: String::from_str("#939ab7"),
        overlay_1: String::from_str("#8087a2"),
        overlay_0: String::from_str("#6e738d"),
        surface_2: String::from_str("#5b6078"),
        surface_1: String::from_str("#494d64"),
        surface_0: String::from_str("#363a4f"),
        bg_0: String::from_str("#24273a"),
        bg_1: String::from_str("#1e2030"),
        bg_2: String::from_str("#181926"),
    };
    assert(colors_view(colors) =~= seq![
            "#f5bde6"@,
            "#f5a97f"@,
            "#ed8796"@,
            "#eed49f"@,
            "#a6da95"@,
            "#91d7e3"@,
            "#b7bdf8"@,
            "#cad3f5"@,
            "#b8c0e0"@,
            "#a5adcb"@,
            "#939ab7"@,
            "#8087a2"@,
            "#6e738d"@,
            "#5b6078"@,
            "#494d64"@,
            "#363a4f"@,
            "#24273a"@,
            "#1e2030"@,
            "#181926"@,
    ]);
    Theme {
        colors,
        name: String::from_str("Catppuccin Macchiato"),
        variant: ThemeVariant::Dark,
        gtk_theme: Some(String::from_str("catppuccin-macchiato-sky-standard")),
    }
}

/// Whether `t` is the Catppuccin Mocha theme.
pub open spec fn is_catppuccin_mocha(t: Theme) -> bool {
    &&& t.name@ == "Catppuccin Mocha"@
    &&& t.variant == ThemeVariant::Dark
    &&& t.gtk_theme matches Some(g) && g@ == "catppuccin-mocha-sky-standard"@
    &&& colors_view(t.colors) == seq![
            "#f5c2e7"@,
            "#fab387"@,
            "#f38ba8"@,
            "#f9e2af"@,
            "#a6e3a1"@,
            "#89dceb"@,
            "#b4befe"@,
            "#cdd6f4"@,
            "#bac2de"@,
            "#a6adc8"@,
            "#9399b2"@,
            "#7f849c"@,
            "#6c7086"@,
            "#585b70"@,
            "#45475a"@,
            "#313244"@,
            "#1e1e2e"@,
            "#181825"@,
            "#11111b"@,
        ]
}

/// The Catppuccin Mocha theme.
pub fn catppuccin_mocha() -> (r: Theme)
    ensures
        is_catppuccin_mocha(r),
{
    let colors = ThemeColors {
        pink: String::from_str("#f5c2e7"),
        orange: String::from_str("#fab387"),
        red: String::from_str("#f38ba8"),
        yellow: String::from_str("#f9e2af"),
        green: String::from_str("#a6e3a1"),
        blue: String::from_str("#89dceb"),
        purple: String::from_str("#b4befe"),
        text: String::from_str("#cdd6f4"),
        subtext_1: String::from_str("#bac2de"),
        subtext_0: String::from_str("#a6adc8"),
        overlay_2: String::from_str("#9399b2"),
        overlay_1: String::from_str("#7f849c"),
        overlay_0: String::from_str("#6c7086"),
        surface_2: String::from_str("#585b70"),
        surface_1: String::from_str("#45475a"),
        surface_0: String::from_str("#313244"),
        bg_0: String::from_str("#1e1e2e"),
        bg_1: String::from_str("#181825"),
        bg_2: String::from_str("#11111b"),
    };
    assert(colors_view(colors) =~= seq![
            "#f5c2e7"@,
            "#fab387"@,
            "#f38ba8"@,
            "#f9e2af"@,
            "#a6e3a1"@,
            "#89dceb"@,
            "#b4befe"@,
            "#cdd6f4"@,
            "#bac2de"@,
            "#a6adc8"@,
            "#9399b2"@,
            "#7f849c"@,
            "#6c7086"@,
            "#585b70"@,
            "#45475a"@,
            "#313244"@,
            "#1e1e2e"@,
            "#181825"@,
            "#11111b"@,
    ]);
    Theme {
        colors,
        name: String::from_str("Catppuccin Mocha"),
        variant: ThemeVariant::Dark,
        gtk_theme: Some(String::from_str("catppuccin-mocha-sky-standard")),
    }
}

} // verus!
