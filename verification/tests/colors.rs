use landscape_settings::error::ColorSlot;
use landscape_settings::error::ValidationError;
use landscape_settings::pattern::ColorPattern;
use landscape_settings::pattern::RGBA_PATTERN;
use landscape_settings::settings::Colors;
use landscape_settings::settings::LandscapeSettings;
use landscape_settings::validate::slot_result;

const BLUE: &str = "rgba(0, 107, 204, 1)";

const SLOTS: [ColorSlot; 6] = [
    ColorSlot::Color1,
    ColorSlot::Color2,
    ColorSlot::Color3,
    ColorSlot::Color4,
    ColorSlot::Color5,
    ColorSlot::Color6,
];

fn pattern() -> ColorPattern {
    ColorPattern::new().expect("the colour pattern compiles")
}

fn colors() -> Colors {
    Colors {
        color1: BLUE.to_string(),
        color2: BLUE.to_string(),
        color3: BLUE.to_string(),
        color4: BLUE.to_string(),
        color5: BLUE.to_string(),
        color6: BLUE.to_string(),
    }
}

fn with_slot(slot: ColorSlot, value: &str) -> Colors {
    let mut colors = colors();
    let value = value.to_string();
    match slot {
        ColorSlot::Color1 => colors.color1 = value,
        ColorSlot::Color2 => colors.color2 = value,
        ColorSlot::Color3 => colors.color3 = value,
        ColorSlot::Color4 => colors.color4 = value,
        ColorSlot::Color5 => colors.color5 = value,
        ColorSlot::Color6 => colors.color6 = value,
    }
    colors
}

fn settings(colors: Option<Colors>) -> LandscapeSettings {
    LandscapeSettings {
        foundation: "Foundation".to_string(),
        colors,
        ..LandscapeSettings::default()
    }
}

#[test]
fn the_pattern_compiles() {
    assert!(ColorPattern::new().is_some());
}

#[test]
fn the_pattern_is_what_the_engine_is_given() {
    let engine = regex::Regex::new(RGBA_PATTERN).expect("the colour pattern compiles");
    let pattern = pattern();
    for value in [
        "rgb(0, 0, 0)",
        "rgba(0, 107, 204, 1)",
        "rgba(0, 0, 0, 1.5)",
        "red",
        "",
        "x rgb(0, 0, 0)",
    ] {
        assert_eq!(pattern.is_match(value), engine.is_match(value));
    }
}

#[test]
fn rgba_colours_match() {
    let pattern = pattern();
    assert!(pattern.is_match("rgba(0, 107, 204, 1)"));
    assert!(pattern.is_match("rgba(0,107,204,1)"));
    assert!(pattern.is_match("rgba(255, 255, 255, 0.5)"));
    assert!(pattern.is_match("rgba(0, 0, 0, 0)"));
    assert!(pattern.is_match("rgba(1, 22, 199, 0.25)"));
    assert!(pattern.is_match("rgba(250, 249, 200, 1.0)"));
}

#[test]
fn rgb_colours_match() {
    let pattern = pattern();
    assert!(pattern.is_match("rgb(255, 255, 255)"));
    assert!(pattern.is_match("rgb(0, 0, 0)"));
    assert!(pattern.is_match("rgb(0,0,0)"));
    assert!(pattern.is_match("rgb(0, 107, 204)"));
    assert!(pattern.is_match("rgb(0, 107, 5)"));
    assert!(pattern.is_match("rgb(9, 99, 100)"));
}

#[test]
fn channels_run_from_0_to_255() {
    let pattern = pattern();
    for channel in 0..=255u32 {
        assert!(pattern.is_match(&format!("rgb({channel}, 0, 0)")));
        assert!(pattern.is_match(&format!("rgb(0, {channel}, 0)")));
        assert!(pattern.is_match(&format!("rgb(0, 0, {channel})")));
        assert!(pattern.is_match(&format!("rgba(0, 0, {channel}, 1)")));
    }
    for channel in 256..=1100u32 {
        assert!(!pattern.is_match(&format!("rgb({channel}, 0, 0)")));
        assert!(!pattern.is_match(&format!("rgb(0, {channel}, 0)")));
        assert!(!pattern.is_match(&format!("rgb(0, 0, {channel})")));
        assert!(!pattern.is_match(&format!("rgba(0, 0, {channel}, 1)")));
    }
}

#[test]
fn channels_are_whole_numbers_without_leading_zeros() {
    let pattern = pattern();
    assert!(!pattern.is_match("rgb(00, 0, 0)"));
    assert!(!pattern.is_match("rgb(0, 07, 0)"));
    assert!(!pattern.is_match("rgb(0,0,01)"));
    assert!(!pattern.is_match("rgb(007, 0, 0)"));
    assert!(!pattern.is_match("rgb(-1, 0, 0)"));
    assert!(!pattern.is_match("rgb(1.5, 0, 0)"));
    assert!(!pattern.is_match("rgb(, 0, 0)"));
    assert!(!pattern.is_match("rgb(a, 0, 0)"));
    assert!(!pattern.is_match("rgb(\u{663}, 0, 0)"));
}

#[test]
fn alpha_runs_from_0_to_1() {
    let pattern = pattern();
    assert!(pattern.is_match("rgba(0, 0, 0, 0)"));
    assert!(pattern.is_match("rgba(0, 0, 0, 1)"));
    assert!(pattern.is_match("rgba(0, 0, 0, 0.0)"));
    assert!(pattern.is_match("rgba(0, 0, 0, 0.5)"));
    assert!(pattern.is_match("rgba(0, 0, 0, .5)"));
    assert!(pattern.is_match("rgba(0, 0, 0, 0.999)"));
    assert!(pattern.is_match("rgba(0, 0, 0, 1.0)"));
    assert!(pattern.is_match("rgba(0, 0, 0, 1.000)"));
}

#[test]
fn alpha_above_1_does_not_match() {
    let pattern = pattern();
    assert!(!pattern.is_match("rgba(0, 0, 0, 1.5)"));
    assert!(!pattern.is_match("rgba(0, 0, 0, 1.01)"));
    assert!(!pattern.is_match("rgba(0, 0, 0, 1.9)"));
    assert!(!pattern.is_match("rgba(0,0,0,2)"));
    assert!(!pattern.is_match("rgba(0, 0, 0, 10)"));
    assert!(!pattern.is_match("rgba(0, 0, 0, 11)"));
}

#[test]
fn alpha_is_a_plain_decimal_number() {
    let pattern = pattern();
    assert!(!pattern.is_match("rgba(0, 0, 0, )"));
    assert!(!pattern.is_match("rgba(0, 0, 0, .)"));
    assert!(!pattern.is_match("rgba(0, 0, 0, 1.)"));
    assert!(!pattern.is_match("rgba(0, 0, 0, 0.)"));
    assert!(!pattern.is_match("rgba(0, 0, 0, 01)"));
    assert!(!pattern.is_match("rgba(0, 0, 0, 00.5)"));
    assert!(!pattern.is_match("rgba(0, 0, 0, -0.5)"));
    assert!(!pattern.is_match("rgba(0, 0, 0, 0.5.5)"));
    assert!(!pattern.is_match("rgba(0, 0, 0, 50%)"));
}

#[test]
fn alpha_goes_with_rgba_and_only_with_it() {
    let pattern = pattern();
    assert!(!pattern.is_match("rgb(0, 0, 0, 1)"));
    assert!(!pattern.is_match("rgb(0, 0, 0, 0.5)"));
    assert!(!pattern.is_match("rgba(0, 0, 0)"));
    assert!(!pattern.is_match("rgba(0, 0, 1)"));
    assert!(!pattern.is_match("rgb(0, 0)"));
    assert!(!pattern.is_match("rgba(0, 0, 0, 1, 1)"));
}

#[test]
fn the_whole_value_has_to_be_a_colour() {
    let pattern = pattern();
    assert!(!pattern.is_match("x rgb(0, 0, 0)"));
    assert!(!pattern.is_match("rgb(0, 0, 0) x"));
    assert!(!pattern.is_match(" rgb(0, 0, 0)"));
    assert!(!pattern.is_match("rgb(0, 0, 0) "));
    assert!(!pattern.is_match("rgb(0, 0, 0)\n"));
    assert!(!pattern.is_match("\nrgb(0, 0, 0)"));
    assert!(!pattern.is_match("color: rgba(0, 107, 204, 1);"));
    assert!(!pattern.is_match("rgba(0, 0, 0, 1)rgba(0, 0, 0, 1)"));
    assert!(!pattern.is_match("rgb(0, 0, 0)\nrgb(0, 0, 0)"));
}

#[test]
fn white_space_goes_round_commas_only() {
    let pattern = pattern();
    assert!(pattern.is_match("rgb(0 , 0 , 0)"));
    assert!(pattern.is_match("rgb(0,\t0,  0)"));
    assert!(pattern.is_match("rgba(0 ,0 ,0 ,1)"));
    assert!(!pattern.is_match("rgb( 0, 0, 0)"));
    assert!(!pattern.is_match("rgb(0, 0, 0 )"));
    assert!(!pattern.is_match("rgb (0, 0, 0)"));
    assert!(!pattern.is_match("rgb(0 0 0)"));
    assert!(!pattern.is_match("rgb(2 5, 0, 0)"));
}

#[test]
fn other_text_does_not_match() {
    let pattern = pattern();
    assert!(!pattern.is_match(""));
    assert!(!pattern.is_match("red"));
    assert!(!pattern.is_match("#006bcc"));
    assert!(!pattern.is_match("rgba(999,0,0,1)"));
    assert!(!pattern.is_match("rgba(256, 0, 0, 1)"));
    assert!(!pattern.is_match("rgba 0, 0, 0, 1"));
    assert!(!pattern.is_match("RGB(0, 0, 0)"));
    assert!(!pattern.is_match("Rgba(0, 0, 0, 1)"));
    assert!(!pattern.is_match("hsl(0, 0, 0)"));
    assert!(!pattern.is_match("rgb[0, 0, 0]"));
    assert!(!pattern.is_match("rgb(0, 0, 0"));
    assert!(!pattern.is_match("rgb0, 0, 0)"));
}

#[test]
fn is_match_tells_values_apart() {
    let pattern = pattern();
    assert_ne!(pattern.is_match(BLUE), pattern.is_match("red"));
}

#[test]
fn absent_colors_pass() {
    let pattern = pattern();
    assert_eq!(settings(None).validate_colors(&pattern), Ok(()));
    assert_eq!(settings(None).validate(&pattern), Ok(()));
}

#[test]
fn six_colours_pass() {
    let pattern = pattern();
    assert_eq!(settings(Some(colors())).validate_colors(&pattern), Ok(()));
    assert_eq!(settings(Some(colors())).validate(&pattern), Ok(()));
}

#[test]
fn six_colours_without_alpha_pass() {
    let pattern = pattern();
    let white = "rgb(255, 255, 255)".to_string();
    let colors = Colors {
        color1: white.clone(),
        color2: white.clone(),
        color3: white.clone(),
        color4: white.clone(),
        color5: white.clone(),
        color6: white,
    };
    assert_eq!(settings(Some(colors.clone())).validate_colors(&pattern), Ok(()));
    assert_eq!(settings(Some(colors)).validate(&pattern), Ok(()));
}

#[test]
fn an_alpha_between_1_and_2_fails_in_every_slot() {
    let pattern = pattern();
    for slot in SLOTS {
        let settings = settings(Some(with_slot(slot, "rgba(0, 0, 0, 1.5)")));
        assert_eq!(
            settings.validate_colors(&pattern),
            Err(ValidationError::InvalidColor { slot })
        );
        assert_eq!(
            settings.validate(&pattern),
            Err(ValidationError::InvalidColor { slot })
        );
    }
}

#[test]
fn text_around_a_colour_fails_in_every_slot() {
    let pattern = pattern();
    for slot in SLOTS {
        let settings = settings(Some(with_slot(slot, "see rgba(0, 107, 204, 1)")));
        assert_eq!(
            settings.validate_colors(&pattern),
            Err(ValidationError::InvalidColor { slot })
        );
    }
}

#[test]
fn a_colour_name_fails_in_every_slot() {
    let pattern = pattern();
    for slot in SLOTS {
        let settings = settings(Some(with_slot(slot, "red")));
        assert_eq!(
            settings.validate_colors(&pattern),
            Err(ValidationError::InvalidColor { slot })
        );
        assert_eq!(
            settings.validate(&pattern),
            Err(ValidationError::InvalidColor { slot })
        );
    }
}

#[test]
fn a_channel_out_of_range_fails_in_every_slot() {
    let pattern = pattern();
    for slot in SLOTS {
        let settings = settings(Some(with_slot(slot, "rgba(999,0,0,1)")));
        assert_eq!(
            settings.validate_colors(&pattern),
            Err(ValidationError::InvalidColor { slot })
        );
    }
}

#[test]
fn an_alpha_out_of_range_fails_in_every_slot() {
    let pattern = pattern();
    for slot in SLOTS {
        let settings = settings(Some(with_slot(slot, "rgba(0,0,0,2)")));
        assert_eq!(
            settings.validate_colors(&pattern),
            Err(ValidationError::InvalidColor { slot })
        );
    }
}

#[test]
fn an_empty_slot_fails() {
    let pattern = pattern();
    assert_eq!(
        settings(Some(Colors::default())).validate_colors(&pattern),
        Err(ValidationError::InvalidColor {
            slot: ColorSlot::Color1
        })
    );
}

#[test]
fn the_first_bad_slot_is_named() {
    let pattern = pattern();
    let mut colors = colors();
    colors.color5 = "red".to_string();
    colors.color3 = "green".to_string();
    assert_eq!(
        settings(Some(colors)).validate_colors(&pattern),
        Err(ValidationError::InvalidColor {
            slot: ColorSlot::Color3
        })
    );
}

#[test]
fn a_slot_holds_its_value() {
    let mut colors = colors();
    colors.color1 = "one".to_string();
    colors.color2 = "two".to_string();
    colors.color3 = "three".to_string();
    colors.color4 = "four".to_string();
    colors.color5 = "five".to_string();
    colors.color6 = "six".to_string();
    let values: Vec<&str> = SLOTS.iter().map(|slot| colors.value(*slot).as_str()).collect();
    assert_eq!(values, vec!["one", "two", "three", "four", "five", "six"]);
}

#[test]
fn slot_names() {
    let names: Vec<&str> = SLOTS.iter().map(|slot| slot.name()).collect();
    assert_eq!(
        names,
        vec!["color1", "color2", "color3", "color4", "color5", "color6"]
    );
}

#[test]
fn slot_result_follows_the_match() {
    for slot in SLOTS {
        assert_eq!(slot_result(slot, true), Ok(()));
        assert_eq!(
            slot_result(slot, false),
            Err(ValidationError::InvalidColor { slot })
        );
    }
}

#[test]
fn invalid_color_message_shows_the_format() {
    let error = ValidationError::InvalidColor {
        slot: ColorSlot::Color2,
    };
    assert_eq!(
        error.message(),
        "color2 is not valid (format: \"rgba(0, 107, 204, 1)\")"
    );
    assert_eq!(error.cause(), None);
    assert_eq!(
        error.chain(),
        vec!["color2 is not valid (format: \"rgba(0, 107, 204, 1)\")".to_string()]
    );
}
