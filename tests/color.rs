use pokedex::{Color, PokedexError};

fn rgb(r: u8, g: u8, b: u8) -> Color {
    Color { r, g, b }
}

#[test]
fn long_form_parses_each_pair() {
    assert_eq!(Color::from_str("#FF8030"), Ok(rgb(255, 128, 48)));
    assert_eq!(Color::from_str("#000000"), Ok(rgb(0, 0, 0)));
    assert_eq!(Color::from_str("#a0b0c0"), Ok(rgb(160, 176, 192)));
}

#[test]
fn long_form_round_trip_text() {
    let c = Color::from_str("#0A10FF").unwrap();
    assert_eq!(c.to_string(), "10;16;255");
    let c = Color::from_str("#70c050").unwrap();
    assert_eq!(c.to_string(), "112;192;80");
}

#[test]
fn short_form_replicates_nibbles() {
    assert_eq!(Color::from_str("#F81"), Ok(rgb(255, 136, 17)));
    assert_eq!(Color::from_str("#fff"), Ok(rgb(255, 255, 255)));
    assert_eq!(Color::from_str("#000"), Ok(rgb(0, 0, 0)));
    assert_eq!(Color::from_str("#aBc"), Ok(rgb(170, 187, 204)));
}

#[test]
fn text_form_has_no_padding() {
    assert_eq!(rgb(0, 7, 255).to_string(), "0;7;255");
    assert_eq!(rgb(100, 10, 1).to_string(), "100;10;1");
}

#[test]
fn malformed_colors_are_rejected() {
    for s in ["", "FFF", "FF8030", "#", "#F", "#FF", "#FFFF", "#FFFFF", "#FFFFFFF", "#GGG", "#12345G", "#+1+2+3", " #FFF", "#FFF "] {
        assert_eq!(
            Color::from_str(s),
            Err(PokedexError::InvalidColorFormat(s.to_string())),
            "input {:?}",
            s
        );
    }
}

#[test]
fn non_ascii_input_is_rejected() {
    assert!(Color::from_str("#é1").is_err());
    assert!(Color::from_str("#ÿÿÿ").is_err());
}

#[test]
fn parse_through_from_str_trait() {
    let c: Color = "#3090F0".parse().unwrap();
    assert_eq!(c, rgb(48, 144, 240));
    assert!("#30".parse::<Color>().is_err());
}
