use pokedex::{Color, PokedexError, Type, TypingList};

fn table() -> Vec<(Type, &'static str, u8, u8, u8)> {
    vec![
        (Type::Fire, "Fire", 255, 129, 48),
        (Type::Grass, "Grass", 112, 192, 80),
        (Type::Water, "Water", 48, 144, 240),
        (Type::Poison, "Poison", 160, 80, 144),
        (Type::Bug, "Bug", 160, 176, 32),
        (Type::Normal, "Normal", 160, 160, 144),
        (Type::Flying, "Flying", 128, 144, 240),
        (Type::Dark, "Dark", 112, 80, 64),
        (Type::Dragon, "Dragon", 112, 96, 224),
        (Type::Rock, "Rock", 176, 160, 96),
        (Type::Ground, "Ground", 208, 176, 80),
        (Type::Ice, "Ice", 96, 192, 240),
        (Type::Psychic, "Psychic", 240, 80, 144),
        (Type::Fairy, "Fairy", 224, 144, 224),
        (Type::GhostType, "Ghost", 96, 96, 176),
        (Type::Fighting, "Fighting", 176, 80, 64),
        (Type::Electric, "Electric", 240, 192, 48),
        (Type::Steel, "Steel", 160, 160, 176),
    ]
}

#[test]
fn every_type_has_its_chip() {
    for (t, name, r, g, b) in table() {
        assert_eq!(t.background(), Color { r, g, b });
        let expected = format!("\x1b[48;2;{};{};{};38;2;255;255;255m {} \x1b[0m", r, g, b, name);
        assert_eq!(t.to_string(), expected);
        assert_eq!(t.to_string(), t.to_string());
    }
}

#[test]
fn every_type_decodes_from_its_lowercase_name() {
    for (t, name, _, _, _) in table() {
        let key = name.to_lowercase();
        assert_eq!(t.key(), key);
        assert_eq!(Type::from_name(&key), Ok(t));
    }
}

#[test]
fn unknown_type_names_are_rejected() {
    for s in ["", "Fire", "FIRE", "fire ", "shadow", "ghosttype"] {
        assert_eq!(Type::from_name(s), Err(PokedexError::UnknownTypeTag(s.to_string())));
    }
}

#[test]
fn fire_chip_exact() {
    assert_eq!(Type::Fire.to_string(), "\x1b[48;2;255;129;48;38;2;255;255;255m Fire \x1b[0m");
}

#[test]
fn typing_list_lengths() {
    assert_eq!(TypingList::from_types(&vec![]), Err(PokedexError::MalformedTypingList(0)));
    assert_eq!(
        TypingList::from_types(&vec![Type::Fire, Type::Water, Type::Ice]),
        Err(PokedexError::MalformedTypingList(3))
    );
    assert_eq!(
        TypingList::from_types(&vec![Type::Bug; 5]),
        Err(PokedexError::MalformedTypingList(5))
    );
    assert_eq!(
        TypingList::from_types(&vec![Type::Fire]),
        Ok(TypingList { primary: Type::Fire, secondary: None })
    );
    assert_eq!(
        TypingList::from_types(&vec![Type::Grass, Type::Poison]),
        Ok(TypingList { primary: Type::Grass, secondary: Some(Type::Poison) })
    );
    assert_eq!(
        TypingList::from_types(&vec![Type::Dark, Type::Dark]),
        Ok(TypingList { primary: Type::Dark, secondary: Some(Type::Dark) })
    );
}

#[test]
fn typing_list_text() {
    let one = TypingList { primary: Type::Ice, secondary: None };
    assert_eq!(one.to_string(), Type::Ice.to_string());
    let two = TypingList { primary: Type::Grass, secondary: Some(Type::Poison) };
    assert_eq!(two.to_string(), format!("{} {}", Type::Grass.to_string(), Type::Poison.to_string()));
}
