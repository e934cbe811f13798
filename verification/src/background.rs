//! The background behind a page.

use crate::text::texts;
use vstd::prelude::*;

verus! {

/// A background mode.
#[derive(Clone, Copy, Debug, PartialEq, Eq, Structural)]
pub enum PdfBackground {
    SystemTheme,
    Dark,
    Light,
    White,
}

/// A colour, each part in tenths of its full intensity.
#[derive(Clone, Copy, Debug, PartialEq, Eq, Structural)]
pub struct Color {
    pub red: u8,
    pub green: u8,
    pub blue: u8,
}

impl PdfBackground {
    /// Whether the page is read dark on this background.
    pub open spec fn is_dark_mode(self, is_dark: bool) -> bool {
        self == PdfBackground::Dark || self == PdfBackground::SystemTheme && is_dark
    }

    /// The colour painted behind a page: nearly black where it is read dark, else white.
    pub open spec fn color(self, is_dark: bool) -> Color {
        if self.is_dark_mode(is_dark) {
            Color { red: 1, green: 1, blue: 1 }
        } else {
            Color { red: 10, green: 10, blue: 10 }
        }
    }

    /// The colour painted behind a page.
    pub fn to_color(self, is_dark: bool) -> (color: Color)
        ensures
            color == self.color(is_dark),
    {
        match self {
            PdfBackground::SystemTheme => {
                if is_dark {
                    Color { red: 1, green: 1, blue: 1 }
                } else {
                    Color { red: 10, green: 10, blue: 10 }
                }
            },
            PdfBackground::Dark => Color { red: 1, green: 1, blue: 1 },
            PdfBackground::Light => Color { red: 10, green: 10, blue: 10 },
            PdfBackground::White => Color { red: 10, green: 10, blue: 10 },
        }
    }

    /// Whether this background mode inverts PDF content colors for dark reading.
    pub fn inverts_content(self, is_dark: bool) -> (inverts: bool)
        ensures
            inverts == self.is_dark_mode(is_dark),
    {
        match self {
            PdfBackground::SystemTheme => is_dark,
            PdfBackground::Dark => true,
            _ => false,
        }
    }

    /// The modes in the order in which they are offered.
    pub open spec fn offered() -> Seq<PdfBackground> {
        seq![
            PdfBackground::SystemTheme,
            PdfBackground::White,
            PdfBackground::Light,
            PdfBackground::Dark,
        ]
    }

    /// The modes in the order in which they are offered.
    pub fn all() -> (all: Vec<PdfBackground>)
        ensures
            all@ == Self::offered(),
    {
        let all = vec![
            PdfBackground::SystemTheme,
            PdfBackground::White,
            PdfBackground::Light,
            PdfBackground::Dark,
        ];
        assert(all@ =~= Self::offered());
        all
    }

    /// The place of a mode among those offered.
    pub open spec fn place(self) -> int {
        match self {
            PdfBackground::SystemTheme => 0,
            PdfBackground::White => 1,
            PdfBackground::Light => 2,
            PdfBackground::Dark => 3,
        }
    }

    /// The place of a mode among those offered. Every mode is offered.
    pub fn position(self) -> (position: Option<usize>)
        ensures
            position is Some,
            position->0 == self.place(),
            Self::offered()[position->0 as int] == self,
    {
        let all = Self::all();
        let mut i: usize = 0;
        while i < all.len()
            invariant
                all@ == Self::offered(),
                i <= self.place(),
            decreases all.len() - i,
        {
            if all[i] == self {
                return Some(i);
            }
            i += 1;
        }
        None
    }

    /// The name of a mode.
    pub open spec fn name(self) -> Seq<char> {
        match self {
            PdfBackground::SystemTheme => "System"@,
            PdfBackground::Dark => "Dark"@,
            PdfBackground::Light => "Light"@,
            PdfBackground::White => "White"@,
        }
    }

    /// The name of a mode.
    pub fn to_string(&self) -> (name: String)
        ensures
            name@ == self.name(),
    {
        match self {
            PdfBackground::SystemTheme => "System".to_owned(),
            PdfBackground::Dark => "Dark".to_owned(),
            PdfBackground::Light => "Light".to_owned(),
            PdfBackground::White => "White".to_owned(),
        }
    }

    /// The names of the modes offered.
    pub open spec fn offered_names() -> Seq<Seq<char>> {
        Self::offered().map_values(|mode: PdfBackground| mode.name())
    }

    /// The names of the modes offered.
    pub fn names() -> (names: Vec<String>)
        ensures
            texts(names@) == Self::offered_names(),
    {
        let all = Self::all();
        let mut names: Vec<String> = Vec::new();
        let mut i: usize = 0;
        while i < all.len()
            invariant
                all@ == Self::offered(),
                i <= all.len(),
                names.len() == i,
                forall|j: int| 0 <= j < i ==> (#[trigger] names@[j])@ == all@[j].name(),
            decreases all.len() - i,
        {
            names.push(all[i].to_string());
            i += 1;
        }
        assert(texts(names@) =~= Self::offered_names());
        names
    }
}

/// A page is painted on near black exactly where its content is inverted.
pub proof fn dark_background_goes_with_inversion(mode: PdfBackground, is_dark: bool)
    ensures
        mode.color(is_dark) == (Color { red: 1, green: 1, blue: 1 }) <==> mode.is_dark_mode(
            is_dark,
        ),
{
}

/// Only the mode that follows the system looks at the system's theme.
pub proof fn explicit_modes_ignore_the_theme(mode: PdfBackground, one: bool, other: bool)
    requires
        mode != PdfBackground::SystemTheme,
    ensures
        mode.color(one) == mode.color(other),
        mode.is_dark_mode(one) == mode.is_dark_mode(other),
{
}

/// No mode is offered twice.
pub proof fn offered_modes_differ(i: int, j: int)
    requires
        0 <= i < j < PdfBackground::offered().len(),
    ensures
        PdfBackground::offered()[i] != PdfBackground::offered()[j],
{
}

/// A page is read dark on the dark background, and on the system's where the system is dark.
/// There it is inverted and painted on near black; elsewhere it is left and painted on white.
pub proof fn darkness_decides(mode: PdfBackground, is_dark: bool, color: Color, inverts: bool)
    requires
        call_ensures(PdfBackground::to_color, (mode, is_dark), color),
        call_ensures(PdfBackground::inverts_content, (mode, is_dark), inverts),
    ensures
        mode == PdfBackground::Dark ==> inverts,
        mode == PdfBackground::SystemTheme ==> inverts == is_dark,
        mode == PdfBackground::Light || mode == PdfBackground::White ==> !inverts,
        inverts ==> color.red == 1 && color.green == 1 && color.blue == 1,
        !inverts ==> color.red == 10 && color.green == 10 && color.blue == 10,
        inverts == mode.is_dark_mode(is_dark),
        color == mode.color(is_dark),
{
}

/// The menu offers the system's background, then white, light and dark.
pub proof fn offered_modes(all: Vec<PdfBackground>)
    requires
        call_ensures(PdfBackground::all, (), all),
    ensures
        all@ == PdfBackground::offered(),
        all@.len() == 4,
        all@[0] == PdfBackground::SystemTheme,
        all@[1] == PdfBackground::White,
        all@[2] == PdfBackground::Light,
        all@[3] == PdfBackground::Dark,
{
}

/// Each mode is found at the place at which it is offered.
pub proof fn mode_is_found_at_its_place(
    mode: PdfBackground,
    position: Option<usize>,
    all: Vec<PdfBackground>,
)
    requires
        call_ensures(PdfBackground::position, (mode,), position),
        call_ensures(PdfBackground::all, (), all),
    ensures
        position matches Some(i) && i < all@.len() && all@[i as int] == mode,
{
}

/// Each mode is named by what it is, and the menu shows these names in its order.
pub proof fn mode_names(mode: PdfBackground, name: String, names: Vec<String>)
    requires
        call_ensures(PdfBackground::to_string, (&mode,), name),
        call_ensures(PdfBackground::names, (), names),
    ensures
        mode == PdfBackground::SystemTheme ==> name@ == "System"@ && name@ == names@[0]@,
        mode == PdfBackground::White ==> name@ == "White"@ && name@ == names@[1]@,
        mode == PdfBackground::Light ==> name@ == "Light"@ && name@ == names@[2]@,
        mode == PdfBackground::Dark ==> name@ == "Dark"@ && name@ == names@[3]@,
        names@.len() == 4,
{
    assert(texts(names@).len() == names@.len());
    assert(texts(names@)[0] == names@[0]@);
    assert(texts(names@)[1] == names@[1]@);
    assert(texts(names@)[2] == names@[2]@);
    assert(texts(names@)[3] == names@[3]@);
}

} // verus!
