//! Names of types, as fields refer to them.

use crate::token::{LocalizedToken, LocalizedTokenView};
use vstd::prelude::*;

verus! {

/// The type of a field: the identifier that names it, whether the field is an
/// array of it, the array's fixed size if it has one, and the declaration the
/// name was resolved to, which no pass fills in yet.
#[derive(Debug)]
pub struct TypeName {
    pub token: LocalizedToken,
    pub is_array: bool,
    pub array_size: Option<LocalizedToken>,
    pub resolved: Option<String>,
}

/// The mathematical value of a [`TypeName`].
pub struct TypeNameView {
    pub token: LocalizedTokenView,
    pub is_array: bool,
    pub array_size: Option<LocalizedTokenView>,
    pub resolved: Option<Seq<char>>,
}

impl View for TypeName {
    type V = TypeNameView;

    open spec fn view(&self) -> TypeNameView {
        TypeNameView {
            token: self.token@,
            is_array: self.is_array,
            array_size: match self.array_size {
                Some(size) => Some(size@),
                None => None,
            },
            resolved: match self.resolved {
                Some(name) => Some(name@),
                None => None,
            },
        }
    }
}

/// The primitive types that every target language spells in its own way.
#[derive(Debug, Clone, Copy, PartialEq, Eq, Structural)]
pub enum BuiltinTypeName {
    Uint8,
    Uint16,
    Uint32,
    Uint64,
    Uint128,
    Int8,
    Int16,
    Int32,
    Int64,
    Int128,
    Float32,
    Float64,
    Bool,
    String,
}

impl BuiltinTypeName {
    /// The primitive type that a name of the schema language stands for, if
    /// it is one of the fourteen.
    pub open spec fn from_name(name: Seq<char>) -> Option<BuiltinTypeName> {
        if name == "uint8"@ {
            Some(BuiltinTypeName::Uint8)
        } else if name == "uint16"@ {
            Some(BuiltinTypeName::Uint16)
        } else if name == "uint32"@ {
            Some(BuiltinTypeName::Uint32)
        } else if name == "uint64"@ {
            Some(BuiltinTypeName::Uint64)
        } else if name == "uint128"@ {
            Some(BuiltinTypeName::Uint128)
        } else if name == "int8"@ {
            Some(BuiltinTypeName::Int8)
        } else if name == "int16"@ {
            Some(BuiltinTypeName::Int16)
        } else if name == "int32"@ {
            Some(BuiltinTypeName::Int32)
        } else if name == "int64"@ {
            Some(BuiltinTypeName::Int64)
        } else if name == "int128"@ {
            Some(BuiltinTypeName::Int128)
        } else if name == "float"@ {
            Some(BuiltinTypeName::Float32)
        } else if name == "float64"@ {
            Some(BuiltinTypeName::Float64)
        } else if name == "bool"@ {
            Some(BuiltinTypeName::Bool)
        } else if name == "string"@ {
            Some(BuiltinTypeName::String)
        } else {
            None
        }
    }

    /// Recognises the name of a primitive type.
    pub fn parse(string: &str) -> (builtin: Option<Self>)
        ensures
            builtin == Self::from_name(string@),
    {
        if *string == *"uint8" {
            Some(BuiltinTypeName::Uint8)
        } else if *string == *"uint16" {
            Some(BuiltinTypeName::Uint16)
        } else if *string == *"uint32" {
            Some(BuiltinTypeName::Uint32)
        } else if *string == *"uint64" {
            Some(BuiltinTypeName::Uint64)
        } else if *string == *"uint128" {
            Some(BuiltinTypeName::Uint128)
        } else if *string == *"int8" {
            Some(BuiltinTypeName::Int8)
        } else if *string == *"int16" {
            Some(BuiltinTypeName::Int16)
        } else if *string == *"int32" {
            Some(BuiltinTypeName::Int32)
        } else if *string == *"int64" {
            Some(BuiltinTypeName::Int64)
        } else if *string == *"int128" {
            Some(BuiltinTypeName::Int128)
        } else if *string == *"float" {
            Some(BuiltinTypeName::Float32)
        } else if *string == *"float64" {
            Some(BuiltinTypeName::Float64)
        } else if *string == *"bool" {
            Some(BuiltinTypeName::Bool)
        } else if *string == *"string" {
            Some(BuiltinTypeName::String)
        } else {
            None
        }
    }
}

} // verus!
