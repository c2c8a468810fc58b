use vstd::prelude::*;

verus! {

/// The colour themes the application offers.
#[derive(Debug, Clone, Copy, PartialEq, Eq, Structural)]
pub enum MyTheme {
    Light,
    Dark,
    Dracula,
    Nord,
    SolarizedLight,
    SolarizedDark,
    GruvboxLight,
    GruvboxDark,
    CatppuccinLatte,
    CatppuccinFrappe,
    CatppuccinMacchiato,
    CatppuccinMocha,
    TokyoNight,
    TokyoNightStorm,
    TokyoNightLight,
    KanagawaWave,
    KanagawaDragon,
    KanagawaLotus,
    Moonfly,
    Nightfly,
    Oxocarbon,
    Ferra,
}

/// The name a theme is shown under.
pub open spec fn theme_label(t: MyTheme) -> Seq<char> {
    match t {
        MyTheme::Light => "Light"@,
        MyTheme::Dark => "Dark"@,
        MyTheme::Dracula => "Dracula"@,
        MyTheme::Nord => "Nord"@,
        MyTheme::SolarizedLight => "Solarized Light"@,
        MyTheme::SolarizedDark => "Solarized Dark"@,
        MyTheme::GruvboxLight => "Gruvbox Light"@,
        MyTheme::GruvboxDark => "Gruvbox Dark"@,
        MyTheme::CatppuccinLatte => "Catppuccin Latte"@,
        MyTheme::CatppuccinFrappe => "Catppuccin Frappé"@,
        MyTheme::CatppuccinMacchiato => "Catppuccin Macchiato"@,
        MyTheme::CatppuccinMocha => "Catppuccin Mocha"@,
        MyTheme::TokyoNight => "Tokyo Night"@,
        MyTheme::TokyoNightStorm => "Tokyo Night Storm"@,
        MyTheme::TokyoNightLight => "Tokyo Night Light"@,
        MyTheme::KanagawaWave => "Kanagawa Wave"@,
        MyTheme::KanagawaDragon => "Kanagawa Dragon"@,
        MyTheme::KanagawaLotus => "Kanagawa Lotus"@,
        MyTheme::Moonfly => "Moonfly"@,
        MyTheme::Nightfly => "Nightfly"@,
        MyTheme::Oxocarbon => "Oxocarbon"@,
        MyTheme::Ferra => "Ferra"@,
    }
}

impl MyTheme {
    /// The name this theme is shown under.
    pub fn label(&self) -> (r: &'static str)
        ensures
            r@ == theme_label(*self),
    {
        match self {
            MyTheme::Light => "Light",
            MyTheme::Dark => "Dark",
            MyTheme::Dracula => "Dracula",
            MyTheme::Nord => "Nord",
            MyTheme::SolarizedLight => "Solarized Light",
            MyTheme::SolarizedDark => "Solarized Dark",
            MyTheme::GruvboxLight => "Gruvbox Light",
            MyTheme::GruvboxDark => "Gruvbox Dark",
            MyTheme::CatppuccinLatte => "Catppuccin Latte",
            MyTheme::CatppuccinFrappe => "Catppuccin Frappé",
            MyTheme::CatppuccinMacchiato => "Catppuccin Macchiato",
            MyTheme::CatppuccinMocha => "Catppuccin Mocha",
            MyTheme::TokyoNight => "Tokyo Night",
            MyTheme::TokyoNightStorm => "Tokyo Night Storm",
            MyTheme::TokyoNightLight => "Tokyo Night Light",
            MyTheme::KanagawaWave => "Kanagawa Wave",
            MyTheme::KanagawaDragon => "Kanagawa Dragon",
            MyTheme::KanagawaLotus => "Kanagawa Lotus",
            MyTheme::Moonfly => "Moonfly",
            MyTheme::Nightfly => "Nightfly",
            MyTheme::Oxocarbon => "Oxocarbon",
            MyTheme::Ferra => "Ferra",
        }
    }
}

} // verus!
