use pokedex::{PokedexError, Pokemon, Type};

fn names(v: &[&str]) -> Vec<String> {
    v.iter().map(|s| s.to_string()).collect()
}

#[test]
fn charmander_renders_one_fire_chip() {
    let p = Pokemon::from_parts(5, "charmander".to_string(), &names(&["fire"])).unwrap();
    let text = p.to_string();
    let fire = "\x1b[48;2;255;129;48;38;2;255;255;255m Fire \x1b[0m";
    assert_eq!(text, format!("Id: 5\nName: charmander\nTyping: {}", fire));
    let typing = text.lines().nth(2).unwrap();
    assert!(typing.contains("48;2;255;129;48"));
    assert_eq!(typing.matches("\x1b[48;2;").count(), 1);
}

#[test]
fn two_types_render_in_order() {
    let p = Pokemon::from_parts(1, "bulbasaur".to_string(), &names(&["grass", "poison"])).unwrap();
    assert_eq!(
        p.to_string(),
        format!(
            "Id: 1\nName: bulbasaur\nTyping: {} {}",
            Type::Grass.to_string(),
            Type::Poison.to_string()
        )
    );
}

#[test]
fn large_ids_render_in_decimal() {
    let p = Pokemon::from_parts(u32::MAX, "x".to_string(), &names(&["steel"])).unwrap();
    assert!(p.to_string().starts_with("Id: 4294967295\nName: x\n"));
    let p = Pokemon::from_parts(0, "y".to_string(), &names(&["ice"])).unwrap();
    assert!(p.to_string().starts_with("Id: 0\n"));
}

#[test]
fn record_with_bad_typing_fails() {
    assert!(matches!(
        Pokemon::from_parts(5, "a".to_string(), &names(&[])),
        Err(PokedexError::MalformedTypingList(0))
    ));
    assert!(matches!(
        Pokemon::from_parts(5, "a".to_string(), &names(&["fire", "water", "nope"])),
        Err(PokedexError::MalformedTypingList(3))
    ));
    assert!(matches!(
        Pokemon::from_parts(5, "a".to_string(), &names(&["fire", "plasma"])),
        Err(PokedexError::UnknownTypeTag(s)) if s == "plasma"
    ));
    assert!(matches!(
        Pokemon::from_parts(5, "a".to_string(), &names(&["aa", "bb"])),
        Err(PokedexError::UnknownTypeTag(s)) if s == "aa"
    ));
}
