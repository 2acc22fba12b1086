//! What a caller can choose about the generated code.

use crate::casing::NameCase;
use vstd::prelude::*;

verus! {

/// The languages that code can be generated in.
#[derive(Debug, Clone, Copy, PartialEq, Eq, Structural)]
pub enum TargetLanguage {
    Rust,
    Csharp,
}

impl Default for TargetLanguage {
    fn default() -> (language: Self)
        ensures
            language == TargetLanguage::Rust,
    {
        TargetLanguage::Rust
    }
}

/// Choices that only the Rust generator reads.
#[derive(Debug)]
pub struct RustCodeGenOptions {
    /// Derive `Debug` for structures and enumerations.
    pub with_debug: bool,
    /// Derive serialization for structures and enumerations.
    pub with_serde: bool,
    /// The case in which serialized data names fields and variants.
    pub serde_struct_field_name_case: NameCase,
    /// The integer type as which a plain enumeration is serialized, if it is
    /// to be serialized as a number.
    pub serde_enum_repr: Option<String>,
}

/// The mathematical value of [`RustCodeGenOptions`].
pub struct RustCodeGenOptionsView {
    pub with_debug: bool,
    pub with_serde: bool,
    pub serde_struct_field_name_case: NameCase,
    pub serde_enum_repr: Option<Seq<char>>,
}

impl View for RustCodeGenOptions {
    type V = RustCodeGenOptionsView;

    open spec fn view(&self) -> RustCodeGenOptionsView {
        RustCodeGenOptionsView {
            with_debug: self.with_debug,
            with_serde: self.with_serde,
            serde_struct_field_name_case: self.serde_struct_field_name_case,
            serde_enum_repr: match self.serde_enum_repr {
                Some(repr) => Some(repr@),
                None => None,
            },
        }
    }
}

impl Default for RustCodeGenOptions {
    fn default() -> (options: Self)
        ensures
            options@ == (RustCodeGenOptionsView {
                with_debug: false,
                with_serde: false,
                serde_struct_field_name_case: NameCase::Unchanged,
                serde_enum_repr: None,
            }),
    {
        RustCodeGenOptions {
            with_debug: false,
            with_serde: false,
            serde_struct_field_name_case: NameCase::Unchanged,
            serde_enum_repr: None,
        }
    }
}

/// Choices that only the C# generator reads.
#[derive(Debug)]
pub struct CSharpCodeGenOptions {
    /// The namespace that holds the generated types.
    pub namespace: String,
    /// Generate a JSON converter for the tags of tagged unions.
    pub with_json_convert_for_union_tags: bool,
}

/// The mathematical value of [`CSharpCodeGenOptions`].
pub struct CSharpCodeGenOptionsView {
    pub namespace: Seq<char>,
    pub with_json_convert_for_union_tags: bool,
}

impl View for CSharpCodeGenOptions {
    type V = CSharpCodeGenOptionsView;

    open spec fn view(&self) -> CSharpCodeGenOptionsView {
        CSharpCodeGenOptionsView {
            namespace: self.namespace@,
            with_json_convert_for_union_tags: self.with_json_convert_for_union_tags,
        }
    }
}

impl Default for CSharpCodeGenOptions {
    fn default() -> (options: Self)
        ensures
            options@ == (CSharpCodeGenOptionsView {
                namespace: "MyNamespace"@,
                with_json_convert_for_union_tags: true,
            }),
    {
        CSharpCodeGenOptions {
            namespace: "MyNamespace".to_string(),
            with_json_convert_for_union_tags: true,
        }
    }
}

/// Everything a caller can choose: the language, the case of each kind of
/// name, and what each generator reads for itself.
#[derive(Debug)]
pub struct CodeGenOptions {
    pub target_language: TargetLanguage,
    pub field_name_case: NameCase,
    pub type_name_case: NameCase,
    pub enum_item_name_case: NameCase,
    pub rust: RustCodeGenOptions,
    pub csharp: CSharpCodeGenOptions,
}

/// The mathematical value of [`CodeGenOptions`].
pub struct CodeGenOptionsView {
    pub target_language: TargetLanguage,
    pub field_name_case: NameCase,
    pub type_name_case: NameCase,
    pub enum_item_name_case: NameCase,
    pub rust: RustCodeGenOptionsView,
    pub csharp: CSharpCodeGenOptionsView,
}

impl View for CodeGenOptions {
    type V = CodeGenOptionsView;

    open spec fn view(&self) -> CodeGenOptionsView {
        CodeGenOptionsView {
            target_language: self.target_language,
            field_name_case: self.field_name_case,
            type_name_case: self.type_name_case,
            enum_item_name_case: self.enum_item_name_case,
            rust: self.rust@,
            csharp: self.csharp@,
        }
    }
}

impl Default for CodeGenOptions {
    fn default() -> (options: Self)
        ensures
            options@.target_language == TargetLanguage::Rust,
            options@.field_name_case == NameCase::Unchanged,
            options@.type_name_case == NameCase::Unchanged,
            options@.enum_item_name_case == NameCase::Unchanged,
            options@.rust == (RustCodeGenOptionsView {
                with_debug: false,
                with_serde: false,
                serde_struct_field_name_case: NameCase::Unchanged,
                serde_enum_repr: None,
            }),
            options@.csharp == (CSharpCodeGenOptionsView {
                namespace: "MyNamespace"@,
                with_json_convert_for_union_tags: true,
            }),
    {
        CodeGenOptions {
            target_language: TargetLanguage::Rust,
            field_name_case: NameCase::Unchanged,
            type_name_case: NameCase::Unchanged,
            enum_item_name_case: NameCase::Unchanged,
            rust: RustCodeGenOptions::default(),
            csharp: CSharpCodeGenOptions::default(),
        }
    }
}

} // verus!
