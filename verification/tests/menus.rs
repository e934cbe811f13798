use cosmic_reader::background::{Color, PdfBackground};
use cosmic_reader::text::{append_decimal, signed_numeral, single_char};
use cosmic_reader::zoom::Zoom;

const BLACK: Color = Color { red: 1, green: 1, blue: 1 };
const WHITE: Color = Color { red: 10, green: 10, blue: 10 };

#[test]
fn backgrounds_have_their_colours() {
    assert_eq!(PdfBackground::SystemTheme.to_color(true), BLACK);
    assert_eq!(PdfBackground::SystemTheme.to_color(false), WHITE);
    for is_dark in [true, false] {
        assert_eq!(PdfBackground::Dark.to_color(is_dark), BLACK);
        assert_eq!(PdfBackground::Light.to_color(is_dark), WHITE);
        assert_eq!(PdfBackground::White.to_color(is_dark), WHITE);
    }
}

#[test]
fn tenths_are_the_toolkit_s_intensities() {
    assert_eq!(BLACK.red as f32 / 10.0, 0.1);
    assert_eq!(WHITE.red as f32 / 10.0, 1.0);
}

#[test]
fn dark_backgrounds_invert_the_content() {
    assert!(PdfBackground::SystemTheme.inverts_content(true));
    assert!(!PdfBackground::SystemTheme.inverts_content(false));
    assert!(PdfBackground::Dark.inverts_content(false));
    assert!(!PdfBackground::Light.inverts_content(true));
    assert!(!PdfBackground::White.inverts_content(true));
}

#[test]
fn backgrounds_are_listed_with_their_names() {
    assert_eq!(
        PdfBackground::all(),
        vec![
            PdfBackground::SystemTheme,
            PdfBackground::White,
            PdfBackground::Light,
            PdfBackground::Dark,
        ]
    );
    assert_eq!(PdfBackground::names(), vec!["System", "White", "Light", "Dark"]);
    for (i, mode) in PdfBackground::all().into_iter().enumerate() {
        assert_eq!(mode.position(), Some(i));
        assert_eq!(mode.to_string(), PdfBackground::names()[i]);
    }
}

#[test]
fn zoom_levels_are_listed_with_their_names() {
    let all = Zoom::all();
    assert_eq!(all.len(), 23);
    assert_eq!(all[0], Zoom::FitBoth);
    assert_eq!(all[1], Zoom::FitHeight);
    assert_eq!(all[2], Zoom::FitWidth);
    assert_eq!(all[3], Zoom::Percent(25));
    assert_eq!(all[6], Zoom::Percent(100));
    assert_eq!(all[22], Zoom::Percent(500));
    let names = Zoom::names();
    assert_eq!(names.len(), 23);
    assert_eq!(names[0], "Fit width and height");
    assert_eq!(names[1], "Fit height");
    assert_eq!(names[2], "Fit width");
    assert_eq!(names[3], "25%");
    assert_eq!(names[22], "500%");
    for (i, zoom) in all.into_iter().enumerate() {
        assert_eq!(zoom.position(), Some(i));
    }
}

#[test]
fn a_level_off_the_list_has_no_place() {
    assert_eq!(Zoom::Percent(30).position(), None);
    assert_eq!(Zoom::Percent(525).position(), None);
    assert_eq!(Zoom::Percent(0).position(), None);
    assert_eq!(Zoom::Percent(-25).to_string(), "-25%");
}

#[test]
fn zoom_steps_are_clamped() {
    assert_eq!(Zoom::Percent(100).step(1), Zoom::Percent(125));
    assert_eq!(Zoom::Percent(100).step(-2), Zoom::Percent(50));
    assert_eq!(Zoom::Percent(500).step(1), Zoom::Percent(500));
    assert_eq!(Zoom::Percent(25).step(-1), Zoom::Percent(25));
    assert_eq!(Zoom::Percent(475).step(40), Zoom::Percent(500));
    assert_eq!(Zoom::Percent(30).step(0), Zoom::Percent(30));
}

#[test]
fn a_fitted_page_zooms_from_its_full_size() {
    for fitted in [Zoom::FitBoth, Zoom::FitHeight, Zoom::FitWidth] {
        assert_eq!(fitted.percent(), 100);
        assert_eq!(fitted.step(1), Zoom::Percent(125));
        assert_eq!(fitted.step(-1), Zoom::Percent(75));
        assert_eq!(fitted.step(0), Zoom::Percent(100));
    }
}

#[test]
fn steps_out_of_bounds_are_told_apart() {
    assert!(Zoom::Percent(100).can_step(1306));
    assert!(!Zoom::Percent(100).can_step(1307));
    assert!(Zoom::Percent(100).can_step(-1314));
    assert!(!Zoom::Percent(100).can_step(-1315));
    assert!(!Zoom::FitBoth.can_step(i32::MAX));
    assert!(!Zoom::FitBoth.can_step(i32::MIN));
    assert_eq!(Zoom::Percent(100).step(1306), Zoom::Percent(500));
}

#[test]
fn in_and_out_cancel_between_the_limits() {
    for percent in [50, 75, 100, 475] {
        let zoom = Zoom::Percent(percent);
        assert_eq!(zoom.step(1).step(-1), zoom);
        assert_eq!(zoom.step(-1).step(1), zoom);
    }
}

#[test]
fn numerals_are_plain_decimal() {
    for n in [0i32, 7, 10, 99, 100, 12345, i32::MAX, -1, -10, i32::MIN] {
        assert_eq!(signed_numeral(n), n.to_string());
    }
    let mut text = "n=".to_string();
    append_decimal(&mut text, u64::MAX);
    assert_eq!(text, format!("n={}", u64::MAX));
}

#[test]
fn only_one_character_is_a_single_character() {
    assert_eq!(single_char("s"), Some('s'));
    assert_eq!(single_char("ß"), Some('ß'));
    assert_eq!(single_char(""), None);
    assert_eq!(single_char("ss"), None);
}
