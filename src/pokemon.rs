//! Typing lists and Pokemon records, decoded from plain values and rendered
//! as text.
use vstd::prelude::*;

use crate::error::PokedexError;
use crate::text::{decimal, push_char, push_decimal};
use crate::types::{chip, is_type_key, type_key, Type};

verus! {

/// The one or two types of a Pokemon, primary first.
#[derive(Clone, Copy, Debug, PartialEq, Eq, Structural)]
pub struct TypingList {
    pub primary: Type,
    pub secondary: Option<Type>,
}

impl View for TypingList {
    type V = Seq<Type>;

    open spec fn view(&self) -> Seq<Type> {
        match self.secondary {
            Some(s) => seq![self.primary, s],
            None => seq![self.primary],
        }
    }
}

/// The chips of a typing list, joined by a single space.
pub open spec fn typing_text(l: TypingList) -> Seq<char> {
    match l.secondary {
        Some(s) => chip(l.primary) + seq![' '] + chip(s),
        None => chip(l.primary),
    }
}

impl TypingList {
    /// A typing list of the given types, which must number one or two.
    pub fn from_types(types: &Vec<Type>) -> (r: Result<TypingList, PokedexError>)
        ensures
            r is Ok <==> 1 <= types@.len() <= 2,
            r matches Ok(l) ==> l@ == types@,
            r is Err ==> (r matches Err(PokedexError::MalformedTypingList(n)) && n
                == types@.len()),
    {
        let n = types.len();
        if n == 1 {
            let l = TypingList { primary: types[0], secondary: None };
            assert(l@ =~= types@);
            Ok(l)
        } else if n == 2 {
            let l = TypingList { primary: types[0], secondary: Some(types[1]) };
            assert(l@ =~= types@);
            Ok(l)
        } else {
            Err(PokedexError::MalformedTypingList(n))
        }
    }

    /// The chips of the types, in order, separated by one space.
    pub fn to_string(&self) -> (r: String)
        ensures
            r@ == typing_text(*self),
    {
        let mut out = self.primary.to_string();
        if let Some(s) = self.secondary {
            push_char(&mut out, ' ');
            let second = s.to_string();
            out.append(second.as_str());
        }
        out
    }
}

/// A Pokemon: its number, its name, and its typing.
pub struct Pokemon {
    pub id: u32,
    pub name: String,
    pub types: TypingList,
}

/// The display block of a record: an `Id:` line, a `Name:` line and a
/// `Typing:` line.
pub open spec fn record_text(id: u32, name: Seq<char>, types: TypingList) -> Seq<char> {
    "Id: "@ + decimal(id as nat) + "\nName: "@ + name + "\nTyping: "@ + typing_text(types)
}

impl Pokemon {
    /// Decodes a record from its number, its name and the lowercase names of
    /// its types. A list that does not hold one or two names is malformed;
    /// otherwise the first name that is no type is reported.
    pub fn from_parts(id: u32, name: String, type_names: &Vec<String>) -> (r: Result<
        Pokemon,
        PokedexError,
    >)
        ensures
            !(1 <= type_names@.len() <= 2) ==> (r matches Err(
                PokedexError::MalformedTypingList(n),
            ) && n == type_names@.len()),
            1 <= type_names@.len() <= 2 ==> (r is Ok <==> forall|i: int|
                0 <= i < type_names@.len() ==> is_type_key(#[trigger] type_names@[i]@)),
            r matches Ok(p) ==> {
                &&& p.id == id
                &&& p.name@ == name@
                &&& p.types@.len() == type_names@.len()
                &&& forall|i: int|
                    0 <= i < type_names@.len() ==> type_key(#[trigger] p.types@[i])
                        == type_names@[i]@
            },
            r matches Err(PokedexError::UnknownTypeTag(s)) ==> exists|k: int|
                0 <= k < type_names@.len() && s@ == type_names@[k]@ && !is_type_key(
                    type_names@[k]@,
                ) && forall|j: int| 0 <= j < k ==> is_type_key(#[trigger] type_names@[j]@),
    {
        let n = type_names.len();
        if n == 0 || n > 2 {
            return Err(PokedexError::MalformedTypingList(n));
        }
        let mut decoded: Vec<Type> = Vec::new();
        let mut i: usize = 0;
        while i < n
            invariant
                i <= n,
                n == type_names@.len(),
                1 <= n <= 2,
                decoded@.len() == i,
                forall|j: int| 0 <= j < i ==> is_type_key(#[trigger] type_names@[j]@),
                forall|j: int| 0 <= j < i ==> type_key(#[trigger] decoded@[j]) == type_names@[j]@,
            decreases n - i,
        {
            match Type::from_name(type_names[i].as_str()) {
                Ok(t) => decoded.push(t),
                Err(e) => {
                    assert(!is_type_key(type_names@[i as int]@));
                    return Err(e);
                },
            }
            i = i + 1;
        }
        match TypingList::from_types(&decoded) {
            Ok(types) => Ok(Pokemon { id, name, types }),
            Err(e) => Err(e),
        }
    }

    /// The display block: `Id: <id>`, `Name: <name>` and `Typing: <chips>`
    /// on three lines.
    pub fn to_string(&self) -> (r: String)
        ensures
            r@ == record_text(self.id, self.name@, self.types),
    {
        let mut out = String::new();
        out.append("Id: ");
        push_decimal(&mut out, self.id);
        out.append("\nName: ");
        out.append(self.name.as_str());
        out.append("\nTyping: ");
        let typing = self.types.to_string();
        out.append(typing.as_str());
        assert(out@ =~= record_text(self.id, self.name@, self.types));
        out
    }
}

} // verus!
