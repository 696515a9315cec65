//! The elemental type tags, their chip rendering, and typing lists.
use vstd::prelude::*;

use crate::color::{rgb_text, Color};
use crate::error::PokedexError;
use crate::paint::{esc, lemma_paint_both, painted, reset_seq, TermColor};
use crate::text::str_eq;

verus! {

/// One of the elemental types a Pokemon can have.
#[derive(Clone, Copy, Debug, PartialEq, Eq, Structural)]
pub enum Type {
    Fire,
    Grass,
    Water,
    Poison,
    Bug,
    Normal,
    Flying,
    Dark,
    Dragon,
    Rock,
    Ground,
    Ice,
    Psychic,
    Fairy,
    GhostType,
    Fighting,
    Electric,
    Steel,
}

/// The fixed background color of each type's chip.
pub open spec fn type_background(t: Type) -> Color {
    match t {
        Type::Fire => Color { r: 255, g: 129, b: 48 },
        Type::Grass => Color { r: 112, g: 192, b: 80 },
        Type::Water => Color { r: 48, g: 144, b: 240 },
        Type::Poison => Color { r: 160, g: 80, b: 144 },
        Type::Bug => Color { r: 160, g: 176, b: 32 },
        Type::Normal => Color { r: 160, g: 160, b: 144 },
        Type::Flying => Color { r: 128, g: 144, b: 240 },
        Type::Dark => Color { r: 112, g: 80, b: 64 },
        Type::Dragon => Color { r: 112, g: 96, b: 224 },
        Type::Rock => Color { r: 176, g: 160, b: 96 },
        Type::Ground => Color { r: 208, g: 176, b: 80 },
        Type::Ice => Color { r: 96, g: 192, b: 240 },
        Type::Psychic => Color { r: 240, g: 80, b: 144 },
        Type::Fairy => Color { r: 224, g: 144, b: 224 },
        Type::GhostType => Color { r: 96, g: 96, b: 176 },
        Type::Fighting => Color { r: 176, g: 80, b: 64 },
        Type::Electric => Color { r: 240, g: 192, b: 48 },
        Type::Steel => Color { r: 160, g: 160, b: 176 },
    }
}

/// The light foreground color shared by every chip.
pub open spec fn chip_foreground() -> Color {
    Color { r: 255, g: 255, b: 255 }
}

/// The chip label: the capitalized type name with one space on each side.
pub open spec fn type_label(t: Type) -> Seq<char> {
    match t {
        Type::Fire => " Fire "@,
        Type::Grass => " Grass "@,
        Type::Water => " Water "@,
        Type::Poison => " Poison "@,
        Type::Bug => " Bug "@,
        Type::Normal => " Normal "@,
        Type::Flying => " Flying "@,
        Type::Dark => " Dark "@,
        Type::Dragon => " Dragon "@,
        Type::Rock => " Rock "@,
        Type::Ground => " Ground "@,
        Type::Ice => " Ice "@,
        Type::Psychic => " Psychic "@,
        Type::Fairy => " Fairy "@,
        Type::GhostType => " Ghost "@,
        Type::Fighting => " Fighting "@,
        Type::Electric => " Electric "@,
        Type::Steel => " Steel "@,
    }
}

/// The lowercase name by which input data names the type.
pub open spec fn type_key(t: Type) -> Seq<char> {
    match t {
        Type::Fire => "fire"@,
        Type::Grass => "grass"@,
        Type::Water => "water"@,
        Type::Poison => "poison"@,
        Type::Bug => "bug"@,
        Type::Normal => "normal"@,
        Type::Flying => "flying"@,
        Type::Dark => "dark"@,
        Type::Dragon => "dragon"@,
        Type::Rock => "rock"@,
        Type::Ground => "ground"@,
        Type::Ice => "ice"@,
        Type::Psychic => "psychic"@,
        Type::Fairy => "fairy"@,
        Type::GhostType => "ghost"@,
        Type::Fighting => "fighting"@,
        Type::Electric => "electric"@,
        Type::Steel => "steel"@,
    }
}

/// The painted chip of a type.
pub open spec fn chip(t: Type) -> Seq<char> {
    painted(Some(type_background(t)), Some(chip_foreground()), type_label(t))
}

/// Whether some type has the lowercase name `s`.
pub open spec fn is_type_key(s: Seq<char>) -> bool {
    exists|t: Type| type_key(t) == s
}

impl Type {
    /// The background color of this type's chip.
    pub fn background(&self) -> (c: Color)
        ensures
            c == type_background(*self),
    {
        match self {
            Type::Fire => Color { r: 255, g: 129, b: 48 },
            Type::Grass => Color { r: 112, g: 192, b: 80 },
            Type::Water => Color { r: 48, g: 144, b: 240 },
            Type::Poison => Color { r: 160, g: 80, b: 144 },
            Type::Bug => Color { r: 160, g: 176, b: 32 },
            Type::Normal => Color { r: 160, g: 160, b: 144 },
            Type::Flying => Color { r: 128, g: 144, b: 240 },
            Type::Dark => Color { r: 112, g: 80, b: 64 },
            Type::Dragon => Color { r: 112, g: 96, b: 224 },
            Type::Rock => Color { r: 176, g: 160, b: 96 },
            Type::Ground => Color { r: 208, g: 176, b: 80 },
            Type::Ice => Color { r: 96, g: 192, b: 240 },
            Type::Psychic => Color { r: 240, g: 80, b: 144 },
            Type::Fairy => Color { r: 224, g: 144, b: 224 },
            Type::GhostType => Color { r: 96, g: 96, b: 176 },
            Type::Fighting => Color { r: 176, g: 80, b: 64 },
            Type::Electric => Color { r: 240, g: 192, b: 48 },
            Type::Steel => Color { r: 160, g: 160, b: 176 },
        }
    }

    /// The foreground color of every chip.
    pub fn foreground() -> (c: Color)
        ensures
            c == chip_foreground(),
    {
        Color { r: 255, g: 255, b: 255 }
    }

    /// The label painted on this type's chip.
    pub fn label(&self) -> (r: &'static str)
        ensures
            r@ == type_label(*self),
    {
        match self {
            Type::Fire => " Fire ",
            Type::Grass => " Grass ",
            Type::Water => " Water ",
            Type::Poison => " Poison ",
            Type::Bug => " Bug ",
            Type::Normal => " Normal ",
            Type::Flying => " Flying ",
            Type::Dark => " Dark ",
            Type::Dragon => " Dragon ",
            Type::Rock => " Rock ",
            Type::Ground => " Ground ",
            Type::Ice => " Ice ",
            Type::Psychic => " Psychic ",
            Type::Fairy => " Fairy ",
            Type::GhostType => " Ghost ",
            Type::Fighting => " Fighting ",
            Type::Electric => " Electric ",
            Type::Steel => " Steel ",
        }
    }

    /// The lowercase name of this type.
    pub fn key(&self) -> (r: &'static str)
        ensures
            r@ == type_key(*self),
    {
        match self {
            Type::Fire => "fire",
            Type::Grass => "grass",
            Type::Water => "water",
            Type::Poison => "poison",
            Type::Bug => "bug",
            Type::Normal => "normal",
            Type::Flying => "flying",
            Type::Dark => "dark",
            Type::Dragon => "dragon",
            Type::Rock => "rock",
            Type::Ground => "ground",
            Type::Ice => "ice",
            Type::Psychic => "psychic",
            Type::Fairy => "fairy",
            Type::GhostType => "ghost",
            Type::Fighting => "fighting",
            Type::Electric => "electric",
            Type::Steel => "steel",
        }
    }

    /// Decodes a type from its lowercase name; any other text, including
    /// other capitalizations, is an unknown tag.
    pub fn from_name(name: &str) -> (r: Result<Type, PokedexError>)
        ensures
            r matches Ok(t) ==> type_key(t) == name@,
            r is Err <==> !is_type_key(name@),
            r matches Err(e) ==> e matches PokedexError::UnknownTypeTag(s) && s@ == name@,
    {
        if str_eq(name, "fire") {
            assert(type_key(Type::Fire) == name@);
            return Ok(Type::Fire);
        }
        if str_eq(name, "grass") {
            assert(type_key(Type::Grass) == name@);
            return Ok(Type::Grass);
        }
        if str_eq(name, "water") {
            assert(type_key(Type::Water) == name@);
            return Ok(Type::Water);
        }
        if str_eq(name, "poison") {
            assert(type_key(Type::Poison) == name@);
            return Ok(Type::Poison);
        }
        if str_eq(name, "bug") {
            assert(type_key(Type::Bug) == name@);
            return Ok(Type::Bug);
        }
        if str_eq(name, "normal") {
            assert(type_key(Type::Normal) == name@);
            return Ok(Type::Normal);
        }
        if str_eq(name, "flying") {
            assert(type_key(Type::Flying) == name@);
            return Ok(Type::Flying);
        }
        if str_eq(name, "dark") {
            assert(type_key(Type::Dark) == name@);
            return Ok(Type::Dark);
        }
        if str_eq(name, "dragon") {
            assert(type_key(Type::Dragon) == name@);
            return Ok(Type::Dragon);
        }
        if str_eq(name, "rock") {
            assert(type_key(Type::Rock) == name@);
            return Ok(Type::Rock);
        }
        if str_eq(name, "ground") {
            assert(type_key(Type::Ground) == name@);
            return Ok(Type::Ground);
        }
        if str_eq(name, "ice") {
            assert(type_key(Type::Ice) == name@);
            return Ok(Type::Ice);
        }
        if str_eq(name, "psychic") {
            assert(type_key(Type::Psychic) == name@);
            return Ok(Type::Psychic);
        }
        if str_eq(name, "fairy") {
            assert(type_key(Type::Fairy) == name@);
            return Ok(Type::Fairy);
        }
        if str_eq(name, "ghost") {
            assert(type_key(Type::GhostType) == name@);
            return Ok(Type::GhostType);
        }
        if str_eq(name, "fighting") {
            assert(type_key(Type::Fighting) == name@);
            return Ok(Type::Fighting);
        }
        if str_eq(name, "electric") {
            assert(type_key(Type::Electric) == name@);
            return Ok(Type::Electric);
        }
        if str_eq(name, "steel") {
            assert(type_key(Type::Steel) == name@);
            return Ok(Type::Steel);
        }
        Err(PokedexError::UnknownTypeTag(String::from_str(name)))
    }

    /// The chip of this type: its label painted on its background in the
    /// shared foreground color.
    pub fn to_string(&self) -> (r: String)
        ensures
            r@ == chip(*self),
    {
        let mut term_color = TermColor::new(None, Some(Type::foreground()));
        term_color.with_bg(self.background()).paint(self.label())
    }
}

/// Every chip sets its type's background first and the shared light
/// foreground second, then holds the label and the reset.
pub proof fn lemma_chip_layout(t: Type)
    ensures
        chip(t) == seq![esc(), '[', '4', '8', ';', '2', ';'] + rgb_text(type_background(t))
            + seq![';', '3', '8', ';', '2', ';'] + rgb_text(chip_foreground()) + seq!['m']
            + type_label(t) + reset_seq(),
{
    lemma_paint_both(type_background(t), chip_foreground(), type_label(t));
}

} // verus!
