//! The closed item-kind taxonomy shared by the search-index decoder and the
//! documentation location resolver, together with its numeric and string
//! codecs, and the decoded per-crate model.

use vstd::prelude::*;

use crate::strutil::str_eq;

verus! {

/// The categorical type of a documented item.
#[derive(Debug, PartialEq, Eq, Clone, Copy, Structural)]
pub enum ItemType {
    Module,
    ExternCrate,
    Import,
    Struct,
    Enum,
    Function,
    Typedef,
    Static,
    Trait,
    Impl,
    TyMethod,
    Method,
    StructField,
    Variant,
    Macro,
    Primitive,
    AssocType,
    Constant,
    AssocConst,
    Union,
    ForeignType,
    Keyword,
    OpaqueTy,
    ProcAttribute,
    ProcDerive,
    TraitAlias,
    Generic,
}

/// Failure to decode an item-kind string.
#[derive(Debug, PartialEq, Eq, Clone, Copy, Structural)]
pub struct ParseItemTypeError;

/// The canonical lowercase string code of an item kind.
pub open spec fn kind_str(t: ItemType) -> Seq<char> {
    match t {
        ItemType::Module => "mod"@,
        ItemType::ExternCrate => "externcrate"@,
        ItemType::Import => "import"@,
        ItemType::Struct => "struct"@,
        ItemType::Enum => "enum"@,
        ItemType::Function => "fn"@,
        ItemType::Typedef => "type"@,
        ItemType::Static => "static"@,
        ItemType::Trait => "trait"@,
        ItemType::Impl => "impl"@,
        ItemType::TyMethod => "tymethod"@,
        ItemType::Method => "method"@,
        ItemType::StructField => "structfield"@,
        ItemType::Variant => "variant"@,
        ItemType::Macro => "macro"@,
        ItemType::Primitive => "primitive"@,
        ItemType::AssocType => "associatedtype"@,
        ItemType::Constant => "constant"@,
        ItemType::AssocConst => "associatedconstant"@,
        ItemType::Union => "union"@,
        ItemType::ForeignType => "foreigntype"@,
        ItemType::Keyword => "keyword"@,
        ItemType::OpaqueTy => "opaque"@,
        ItemType::ProcAttribute => "attr"@,
        ItemType::ProcDerive => "derive"@,
        ItemType::TraitAlias => "traitalias"@,
        ItemType::Generic => "generic"@,
    }
}

/// The item kind encoded by a string code, if the code is recognized.
pub open spec fn kind_of_str(s: Seq<char>) -> Option<ItemType> {
    if s == "mod"@ {
        Some(ItemType::Module)
    } else if s == "externcrate"@ {
        Some(ItemType::ExternCrate)
    } else if s == "import"@ {
        Some(ItemType::Import)
    } else if s == "struct"@ {
        Some(ItemType::Struct)
    } else if s == "enum"@ {
        Some(ItemType::Enum)
    } else if s == "fn"@ {
        Some(ItemType::Function)
    } else if s == "type"@ {
        Some(ItemType::Typedef)
    } else if s == "static"@ {
        Some(ItemType::Static)
    } else if s == "trait"@ {
        Some(ItemType::Trait)
    } else if s == "impl"@ {
        Some(ItemType::Impl)
    } else if s == "tymethod"@ {
        Some(ItemType::TyMethod)
    } else if s == "method"@ {
        Some(ItemType::Method)
    } else if s == "structfield"@ {
        Some(ItemType::StructField)
    } else if s == "variant"@ {
        Some(ItemType::Variant)
    } else if s == "macro"@ {
        Some(ItemType::Macro)
    } else if s == "primitive"@ {
        Some(ItemType::Primitive)
    } else if s == "associatedtype"@ {
        Some(ItemType::AssocType)
    } else if s == "constant"@ {
        Some(ItemType::Constant)
    } else if s == "associatedconstant"@ {
        Some(ItemType::AssocConst)
    } else if s == "union"@ {
        Some(ItemType::Union)
    } else if s == "foreigntype"@ {
        Some(ItemType::ForeignType)
    } else if s == "keyword"@ {
        Some(ItemType::Keyword)
    } else if s == "opaque"@ {
        Some(ItemType::OpaqueTy)
    } else if s == "attr"@ {
        Some(ItemType::ProcAttribute)
    } else if s == "derive"@ {
        Some(ItemType::ProcDerive)
    } else if s == "traitalias"@ {
        Some(ItemType::TraitAlias)
    } else if s == "generic"@ {
        Some(ItemType::Generic)
    } else {
        None
    }
}

/// The numeric code of an item kind.
pub open spec fn kind_code(t: ItemType) -> u64 {
    match t {
        ItemType::Module => 0,
        ItemType::ExternCrate => 1,
        ItemType::Import => 2,
        ItemType::Struct => 3,
        ItemType::Enum => 4,
        ItemType::Function => 5,
        ItemType::Typedef => 6,
        ItemType::Static => 7,
        ItemType::Trait => 8,
        ItemType::Impl => 9,
        ItemType::TyMethod => 10,
        ItemType::Method => 11,
        ItemType::StructField => 12,
        ItemType::Variant => 13,
        ItemType::Macro => 14,
        ItemType::Primitive => 15,
        ItemType::AssocType => 16,
        ItemType::Constant => 17,
        ItemType::AssocConst => 18,
        ItemType::Union => 19,
        ItemType::ForeignType => 20,
        ItemType::Keyword => 21,
        ItemType::OpaqueTy => 22,
        ItemType::ProcAttribute => 23,
        ItemType::ProcDerive => 24,
        ItemType::TraitAlias => 25,
        ItemType::Generic => 26,
    }
}

/// The item kind encoded by a numeric code, if the code is recognized.
pub open spec fn kind_of_code(c: u64) -> Option<ItemType> {
    if c == 0 {
        Some(ItemType::Module)
    } else if c == 1 {
        Some(ItemType::ExternCrate)
    } else if c == 2 {
        Some(ItemType::Import)
    } else if c == 3 {
        Some(ItemType::Struct)
    } else if c == 4 {
        Some(ItemType::Enum)
    } else if c == 5 {
        Some(ItemType::Function)
    } else if c == 6 {
        Some(ItemType::Typedef)
    } else if c == 7 {
        Some(ItemType::Static)
    } else if c == 8 {
        Some(ItemType::Trait)
    } else if c == 9 {
        Some(ItemType::Impl)
    } else if c == 10 {
        Some(ItemType::TyMethod)
    } else if c == 11 {
        Some(ItemType::Method)
    } else if c == 12 {
        Some(ItemType::StructField)
    } else if c == 13 {
        Some(ItemType::Variant)
    } else if c == 14 {
        Some(ItemType::Macro)
    } else if c == 15 {
        Some(ItemType::Primitive)
    } else if c == 16 {
        Some(ItemType::AssocType)
    } else if c == 17 {
        Some(ItemType::Constant)
    } else if c == 18 {
        Some(ItemType::AssocConst)
    } else if c == 19 {
        Some(ItemType::Union)
    } else if c == 20 {
        Some(ItemType::ForeignType)
    } else if c == 21 {
        Some(ItemType::Keyword)
    } else if c == 22 {
        Some(ItemType::OpaqueTy)
    } else if c == 23 {
        Some(ItemType::ProcAttribute)
    } else if c == 24 {
        Some(ItemType::ProcDerive)
    } else if c == 25 {
        Some(ItemType::TraitAlias)
    } else if c == 26 {
        Some(ItemType::Generic)
    } else {
        None
    }
}

impl ItemType {
    /// The canonical lowercase string code of this kind.
    pub fn as_str(&self) -> (r: &'static str)
        ensures
            r@ == kind_str(*self),
    {
        match *self {
            ItemType::Module => "mod",
            ItemType::ExternCrate => "externcrate",
            ItemType::Import => "import",
            ItemType::Struct => "struct",
            ItemType::Enum => "enum",
            ItemType::Function => "fn",
            ItemType::Typedef => "type",
            ItemType::Static => "static",
            ItemType::Trait => "trait",
            ItemType::Impl => "impl",
            ItemType::TyMethod => "tymethod",
            ItemType::Method => "method",
            ItemType::StructField => "structfield",
            ItemType::Variant => "variant",
            ItemType::Macro => "macro",
            ItemType::Primitive => "primitive",
            ItemType::AssocType => "associatedtype",
            ItemType::Constant => "constant",
            ItemType::AssocConst => "associatedconstant",
            ItemType::Union => "union",
            ItemType::ForeignType => "foreigntype",
            ItemType::Keyword => "keyword",
            ItemType::OpaqueTy => "opaque",
            ItemType::ProcAttribute => "attr",
            ItemType::ProcDerive => "derive",
            ItemType::TraitAlias => "traitalias",
            ItemType::Generic => "generic",
        }
    }

    /// Decodes a string code into an item kind.
    pub fn from_str(s: &str) -> (r: Result<ItemType, ParseItemTypeError>)
        ensures
            match kind_of_str(s@) {
                Some(t) => r == Ok::<ItemType, ParseItemTypeError>(t),
                None => r == Err::<ItemType, ParseItemTypeError>(ParseItemTypeError),
            },
    {
        if str_eq(s, "mod") {
            Ok(ItemType::Module)
        } else if str_eq(s, "externcrate") {
            Ok(ItemType::ExternCrate)
        } else if str_eq(s, "import") {
            Ok(ItemType::Import)
        } else if str_eq(s, "struct") {
            Ok(ItemType::Struct)
        } else if str_eq(s, "enum") {
            Ok(ItemType::Enum)
        } else if str_eq(s, "fn") {
            Ok(ItemType::Function)
        } else if str_eq(s, "type") {
            Ok(ItemType::Typedef)
        } else if str_eq(s, "static") {
            Ok(ItemType::Static)
        } else if str_eq(s, "trait") {
            Ok(ItemType::Trait)
        } else if str_eq(s, "impl") {
            Ok(ItemType::Impl)
        } else if str_eq(s, "tymethod") {
            Ok(ItemType::TyMethod)
        } else if str_eq(s, "method") {
            Ok(ItemType::Method)
        } else if str_eq(s, "structfield") {
            Ok(ItemType::StructField)
        } else if str_eq(s, "variant") {
            Ok(ItemType::Variant)
        } else if str_eq(s, "macro") {
            Ok(ItemType::Macro)
        } else if str_eq(s, "primitive") {
            Ok(ItemType::Primitive)
        } else if str_eq(s, "associatedtype") {
            Ok(ItemType::AssocType)
        } else if str_eq(s, "constant") {
            Ok(ItemType::Constant)
        } else if str_eq(s, "associatedconstant") {
            Ok(ItemType::AssocConst)
        } else if str_eq(s, "union") {
            Ok(ItemType::Union)
        } else if str_eq(s, "foreigntype") {
            Ok(ItemType::ForeignType)
        } else if str_eq(s, "keyword") {
            Ok(ItemType::Keyword)
        } else if str_eq(s, "opaque") {
            Ok(ItemType::OpaqueTy)
        } else if str_eq(s, "attr") {
            Ok(ItemType::ProcAttribute)
        } else if str_eq(s, "derive") {
            Ok(ItemType::ProcDerive)
        } else if str_eq(s, "traitalias") {
            Ok(ItemType::TraitAlias)
        } else if str_eq(s, "generic") {
            Ok(ItemType::Generic)
        } else {
            Err(ParseItemTypeError)
        }
    }

    /// Decodes a numeric code into an item kind.
    pub fn from_code(c: u64) -> (r: Option<ItemType>)
        ensures
            r == kind_of_code(c),
    {
        if c == 0 {
            Some(ItemType::Module)
        } else if c == 1 {
            Some(ItemType::ExternCrate)
        } else if c == 2 {
            Some(ItemType::Import)
        } else if c == 3 {
            Some(ItemType::Struct)
        } else if c == 4 {
            Some(ItemType::Enum)
        } else if c == 5 {
            Some(ItemType::Function)
        } else if c == 6 {
            Some(ItemType::Typedef)
        } else if c == 7 {
            Some(ItemType::Static)
        } else if c == 8 {
            Some(ItemType::Trait)
        } else if c == 9 {
            Some(ItemType::Impl)
        } else if c == 10 {
            Some(ItemType::TyMethod)
        } else if c == 11 {
            Some(ItemType::Method)
        } else if c == 12 {
            Some(ItemType::StructField)
        } else if c == 13 {
            Some(ItemType::Variant)
        } else if c == 14 {
            Some(ItemType::Macro)
        } else if c == 15 {
            Some(ItemType::Primitive)
        } else if c == 16 {
            Some(ItemType::AssocType)
        } else if c == 17 {
            Some(ItemType::Constant)
        } else if c == 18 {
            Some(ItemType::AssocConst)
        } else if c == 19 {
            Some(ItemType::Union)
        } else if c == 20 {
            Some(ItemType::ForeignType)
        } else if c == 21 {
            Some(ItemType::Keyword)
        } else if c == 22 {
            Some(ItemType::OpaqueTy)
        } else if c == 23 {
            Some(ItemType::ProcAttribute)
        } else if c == 24 {
            Some(ItemType::ProcDerive)
        } else if c == 25 {
            Some(ItemType::TraitAlias)
        } else if c == 26 {
            Some(ItemType::Generic)
        } else {
            None
        }
    }

    /// The numeric code of this kind; the inverse of `from_code`.
    pub fn code(&self) -> (r: u64)
        ensures
            r == kind_code(*self),
    {
        match *self {
            ItemType::Module => 0,
            ItemType::ExternCrate => 1,
            ItemType::Import => 2,
            ItemType::Struct => 3,
            ItemType::Enum => 4,
            ItemType::Function => 5,
            ItemType::Typedef => 6,
            ItemType::Static => 7,
            ItemType::Trait => 8,
            ItemType::Impl => 9,
            ItemType::TyMethod => 10,
            ItemType::Method => 11,
            ItemType::StructField => 12,
            ItemType::Variant => 13,
            ItemType::Macro => 14,
            ItemType::Primitive => 15,
            ItemType::AssocType => 16,
            ItemType::Constant => 17,
            ItemType::AssocConst => 18,
            ItemType::Union => 19,
            ItemType::ForeignType => 20,
            ItemType::Keyword => 21,
            ItemType::OpaqueTy => 22,
            ItemType::ProcAttribute => 23,
            ItemType::ProcDerive => 24,
            ItemType::TraitAlias => 25,
            ItemType::Generic => 26,
        }
    }
}

/// The kind of an enclosing type or trait in a crate's parent table.
#[derive(Debug, PartialEq, Eq, Clone, Copy, Structural)]
pub enum ParentType {
    Struct,
    Enum,
    Typedef,
    Trait,
    Variant,
    Primitive,
    Union,
}

/// The parent kind encoded by a numeric code, if the code is recognized.
pub open spec fn parent_of_code(c: u64) -> Option<ParentType> {
    if c == 3 {
        Some(ParentType::Struct)
    } else if c == 4 {
        Some(ParentType::Enum)
    } else if c == 6 {
        Some(ParentType::Typedef)
    } else if c == 8 {
        Some(ParentType::Trait)
    } else if c == 13 {
        Some(ParentType::Variant)
    } else if c == 15 {
        Some(ParentType::Primitive)
    } else if c == 19 {
        Some(ParentType::Union)
    } else {
        None
    }
}

impl ParentType {
    /// Decodes a numeric code into a parent kind.
    pub fn from_code(c: u64) -> (r: Option<ParentType>)
        ensures
            r == parent_of_code(c),
    {
        if c == 3 {
            Some(ParentType::Struct)
        } else if c == 4 {
            Some(ParentType::Enum)
        } else if c == 6 {
            Some(ParentType::Typedef)
        } else if c == 8 {
            Some(ParentType::Trait)
        } else if c == 13 {
            Some(ParentType::Variant)
        } else if c == 15 {
            Some(ParentType::Primitive)
        } else if c == 19 {
            Some(ParentType::Union)
        } else {
            None
        }
    }
}

/// The file-bearing kinds, in the fixed order in which candidate files are
/// probed; this order is the tie-break when a name is ambiguous across kinds.
pub open spec fn file_kind_order() -> Seq<ItemType> {
    seq![
        ItemType::Struct,
        ItemType::Union,
        ItemType::Enum,
        ItemType::Typedef,
        ItemType::Function,
        ItemType::Static,
        ItemType::Trait,
        ItemType::Macro,
        ItemType::Primitive,
        ItemType::Constant,
        ItemType::Keyword,
        ItemType::ProcAttribute,
        ItemType::ProcDerive,
        ItemType::TraitAlias,
    ]
}

/// Whether an item of this kind gets a generated file of its own.
pub open spec fn is_file_kind(t: ItemType) -> bool {
    file_kind_order().contains(t)
}

/// The file-bearing kinds in probe priority order.
pub fn file_kinds() -> (r: Vec<ItemType>)
    ensures
        r@ == file_kind_order(),
{
    let mut v: Vec<ItemType> = Vec::new();
    v.push(ItemType::Struct);
    v.push(ItemType::Union);
    v.push(ItemType::Enum);
    v.push(ItemType::Typedef);
    v.push(ItemType::Function);
    v.push(ItemType::Static);
    v.push(ItemType::Trait);
    v.push(ItemType::Macro);
    v.push(ItemType::Primitive);
    v.push(ItemType::Constant);
    v.push(ItemType::Keyword);
    v.push(ItemType::ProcAttribute);
    v.push(ItemType::ProcDerive);
    v.push(ItemType::TraitAlias);
    proof {
        assert(v@ =~= file_kind_order());
    }
    v
}

/// Whether an item of this kind gets a generated file of its own.
pub fn is_file_bearing(t: ItemType) -> (r: bool)
    ensures
        r == is_file_kind(t),
{
    let r = match t {
        ItemType::Struct => true,
        ItemType::Union => true,
        ItemType::Enum => true,
        ItemType::Typedef => true,
        ItemType::Function => true,
        ItemType::Static => true,
        ItemType::Trait => true,
        ItemType::Macro => true,
        ItemType::Primitive => true,
        ItemType::Constant => true,
        ItemType::Keyword => true,
        ItemType::ProcAttribute => true,
        ItemType::ProcDerive => true,
        ItemType::TraitAlias => true,
        _ => false,
    };
    proof {
        if r {
            match t {
                ItemType::Struct => assert(file_kind_order()[0] == t),
                ItemType::Union => assert(file_kind_order()[1] == t),
                ItemType::Enum => assert(file_kind_order()[2] == t),
                ItemType::Typedef => assert(file_kind_order()[3] == t),
                ItemType::Function => assert(file_kind_order()[4] == t),
                ItemType::Static => assert(file_kind_order()[5] == t),
                ItemType::Trait => assert(file_kind_order()[6] == t),
                ItemType::Macro => assert(file_kind_order()[7] == t),
                ItemType::Primitive => assert(file_kind_order()[8] == t),
                ItemType::Constant => assert(file_kind_order()[9] == t),
                ItemType::Keyword => assert(file_kind_order()[10] == t),
                ItemType::ProcAttribute => assert(file_kind_order()[11] == t),
                ItemType::ProcDerive => assert(file_kind_order()[12] == t),
                ItemType::TraitAlias => assert(file_kind_order()[13] == t),
                _ => (),
            }
        } else {
            assert(!file_kind_order().contains(t)) by {
                assert forall|k: int| 0 <= k < file_kind_order().len() implies file_kind_order()[k]
                    != t by {}
            }
        }
    }
    r
}

/// The recognized primitive-type names of the standard library.
pub open spec fn std_primitive_names() -> Seq<Seq<char>> {
    seq![
        "array"@,
        "bool"@,
        "char"@,
        "f32"@,
        "f64"@,
        "fn"@,
        "i128"@,
        "i16"@,
        "i32"@,
        "i64"@,
        "i8"@,
        "isize"@,
        "never"@,
        "pointer"@,
        "reference"@,
        "slice"@,
        "str"@,
        "tuple"@,
        "u128"@,
        "u16"@,
        "u32"@,
        "u64"@,
        "u8"@,
        "unit"@,
        "usize"@,
    ]
}

/// Whether a name is a recognized standard-library primitive name.
pub open spec fn is_std_primitive_name(s: Seq<char>) -> bool {
    std_primitive_names().contains(s)
}

/// Whether a name is a recognized standard-library primitive name.
pub fn is_std_primitive(s: &str) -> (r: bool)
    ensures
        r == is_std_primitive_name(s@),
{
    let names: [&'static str; 25] = [
        "array",
        "bool",
        "char",
        "f32",
        "f64",
        "fn",
        "i128",
        "i16",
        "i32",
        "i64",
        "i8",
        "isize",
        "never",
        "pointer",
        "reference",
        "slice",
        "str",
        "tuple",
        "u128",
        "u16",
        "u32",
        "u64",
        "u8",
        "unit",
        "usize",
    ];
    let mut k: usize = 0;
    while k < 25
        invariant
            k <= 25,
            names@.len() == 25,
            forall|j: int| 0 <= j < 25 ==> names@[j]@ == std_primitive_names()[j],
            forall|j: int| 0 <= j < k ==> s@ != std_primitive_names()[j],
        decreases 25 - k,
    {
        if str_eq(s, names[k]) {
            proof {
                assert(std_primitive_names()[k as int] == s@);
            }
            return true;
        }
        k += 1;
    }
    proof {
        assert(!std_primitive_names().contains(s@)) by {
            assert forall|j: int|
                0 <= j < std_primitive_names().len() implies std_primitive_names()[j]
                != s@ by {}
        }
    }
    false
}

/// A decoded per-item signature field, in whichever of the three historical
/// encodings the artifact used. The field is retained but not consumed by
/// the catalog builder; it still must decode, since one malformed element
/// fails the whole crate record.
#[derive(Debug)]
pub enum F {
    V1_53_0(Vec<Option<Types>>),
    V1_55_0(Vec<Option<Types1_55_0>>),
    V1_58_0(Vec<Option<Types1_58_0>>),
}

/// A signature in the earliest encoding: argument names paired with numeric
/// kind codes, and an optional return.
#[derive(Debug)]
pub enum Types {
    OnlyArgs(Vec<(String, ItemType)>),
    WithResponse(Vec<(String, ItemType)>, ResponseType),
}

/// The return part of an earliest-encoding signature.
#[derive(Debug)]
pub enum ResponseType {
    Single((String, ItemType)),
    Complex(Vec<(String, ItemType)>),
}

/// A signature in the middle encoding: type references carry an optional
/// flat list of generic-argument names.
#[derive(Debug)]
pub enum Types1_55_0 {
    OnlyArgs(Vec<Type1_55_0>),
    WithMultiResponse(Vec<Type1_55_0>, Vec<Type1_55_0>),
    WithResponse(Vec<Type1_55_0>, Type1_55_0),
}

/// A type reference in the middle encoding.
#[derive(Debug)]
pub struct Type1_55_0 {
    pub name: String,
    pub generics: Option<Vec<String>>,
    pub kind: ItemType,
}

/// A signature in the latest encoding: generic arguments are themselves
/// full recursive type references.
#[derive(Debug)]
pub enum Types1_58_0 {
    OnlyArgs(Vec<Type1_58_0>),
    WithMultiResponse(Vec<Type1_58_0>, Vec<Type1_58_0>),
    WithResponse(Vec<Type1_58_0>, Type1_58_0),
}

/// A type reference in the latest encoding.
#[derive(Debug)]
pub struct Type1_58_0 {
    pub name: String,
    pub generics: Option<Vec<Type1_58_0>>,
    pub kind: ItemType,
}

/// A decoded crate record: the parent table and the co-indexed per-item
/// arrays (kind, name, signature, qualifying path, summary, parent index).
/// The summary array `d` is retained but ignored by the catalog builder.
#[derive(Debug)]
pub struct Crate {
    pub p: Vec<(ParentType, String)>,
    pub t: Vec<ItemType>,
    pub n: Vec<String>,
    pub f: F,
    pub q: Vec<String>,
    pub d: Vec<String>,
    pub i: Vec<usize>,
}

/// How many items the co-indexed arrays describe: the four catalog-relevant
/// arrays are read in lockstep, up to the shortest.
pub open spec fn n_records(c: Crate) -> int {
    vstd::math::min(
        vstd::math::min(c.t@.len() as int, c.n@.len() as int),
        vstd::math::min(c.q@.len() as int, c.i@.len() as int),
    )
}

/// The qualifying path in effect for item `k`: the crate name initially, and
/// from each item with a non-empty explicit qualifier on, that qualifier,
/// for the item itself and all following items until the next override.
///
/// The reconstruction is one sequential fold over the items in input order.
/// Generators emit items grouped under their qualifying path; on an
/// artifact that is not grouped this way, the historical encodings do not
/// agree on a reading, and this fold's reading is the one kept.
pub open spec fn sctx(c: Crate, krate: Seq<char>, k: int) -> Seq<char>
    decreases k + 1,
{
    if k < 0 {
        krate
    } else if c.q@[k]@.len() > 0 {
        c.q@[k]@
    } else {
        sctx(c, krate, k - 1)
    }
}

/// The catalog line of item `k`: its fully qualified path, a tab, and its
/// kind string. The path is the qualifying context, then the parent-table
/// name when the parent index is non-zero, then the item's own name.
pub open spec fn sline(c: Crate, krate: Seq<char>, k: int) -> Seq<char> {
    if c.i@[k] == 0 {
        sctx(c, krate, k) + "::"@ + c.n@[k]@ + "\t"@ + kind_str(c.t@[k])
    } else {
        sctx(c, krate, k) + "::"@ + c.p@[c.i@[k] - 1].1@ + "::"@ + c.n@[k]@ + "\t"@ + kind_str(
            c.t@[k],
        )
    }
}

impl Crate {
    /// Reconstructs the fully qualified path of every item, in input order,
    /// as `path<TAB>kindstring` lines. Fails with a decode error instead of
    /// reading out of the parent table's bounds on a malformed artifact.
    pub fn items(&self, krate: &str) -> (r: Result<Vec<String>, crate::Error>)
        ensures
            (r is Ok) == (forall|k: int|
                0 <= k < n_records(*self) ==> #[trigger] self.i@[k] <= self.p@.len()),
            r matches Ok(v) ==> {
                &&& v@.len() == n_records(*self)
                &&& forall|k: int|
                    0 <= k < v@.len() ==> (#[trigger] v@[k])@ == sline(*self, krate@, k)
            },
            r matches Err(e) ==> e matches crate::Error::Decode(nm, _) && nm@ == krate@,
    {
        let mut n = self.t.len();
        if self.n.len() < n {
            n = self.n.len();
        }
        if self.q.len() < n {
            n = self.q.len();
        }
        if self.i.len() < n {
            n = self.i.len();
        }
        let mut cd: String = String::from_str(krate);
        let mut out: Vec<String> = Vec::new();
        let mut k: usize = 0;
        while k < n
            invariant
                n == n_records(*self),
                n <= self.t@.len() && n <= self.n@.len() && n <= self.q@.len() && n
                    <= self.i@.len(),
                k <= n,
                out@.len() == k,
                cd@ == sctx(*self, krate@, k - 1),
                forall|m: int| 0 <= m < k ==> #[trigger] self.i@[m] <= self.p@.len(),
                forall|m: int| 0 <= m < k ==> (#[trigger] out@[m])@ == sline(*self, krate@, m),
            decreases n - k,
        {
            if !self.q[k].as_str().is_empty() {
                cd = self.q[k].clone();
            }
            let mut line: String = cd.clone();
            line.append("::");
            let pi = self.i[k];
            if pi == 0 {
                line.append(self.n[k].as_str());
            } else {
                if pi > self.p.len() {
                    return Err(
                        crate::Error::Decode(
                            String::from_str(krate),
                            String::from_str("parent index out of range"),
                        ),
                    );
                }
                line.append(self.p[pi - 1].1.as_str());
                line.append("::");
                line.append(self.n[k].as_str());
            }
            line.append("\t");
            line.append(self.t[k].as_str());
            proof {
                assert(line@ =~= sline(*self, krate@, k as int));
            }
            out.push(line);
            k += 1;
        }
        Ok(out)
    }
}

/// A crate with empty explicit qualifiers and parent index 0 everywhere
/// yields catalog lines exactly `<crate>::<name>`, tab, kind string, for
/// every item, in input order.
pub proof fn lemma_catalog_root_level(c: Crate, krate: Seq<char>, k: int)
    requires
        0 <= k < n_records(c),
        forall|m: int| 0 <= m < n_records(c) ==> (#[trigger] c.q@[m])@.len() == 0,
        forall|m: int| 0 <= m < n_records(c) ==> #[trigger] c.i@[m] == 0,
    ensures
        sline(c, krate, k) == krate + "::"@ + c.n@[k]@ + "\t"@ + kind_str(c.t@[k]),
{
    lemma_sctx_no_override(c, krate, k);
}

/// While no explicit qualifier has occurred, the qualifying context is the
/// crate name itself.
proof fn lemma_sctx_no_override(c: Crate, krate: Seq<char>, k: int)
    requires
        k < n_records(c),
        forall|m: int| 0 <= m < n_records(c) ==> (#[trigger] c.q@[m])@.len() == 0,
    ensures
        sctx(c, krate, k) == krate,
    decreases k + 1,
{
    if k >= 0 {
        lemma_sctx_no_override(c, krate, k - 1);
    }
}

/// Decoding the string code produced by `kind_str` always returns the
/// original kind: the string codec round-trips for every item kind.
pub proof fn lemma_kind_str_roundtrip(t: ItemType)
    ensures
        kind_of_str(kind_str(t)) == Some(t),
{
    broadcast use vstd::string::group_string_axioms;

    reveal_strlit("mod");
    reveal_strlit("externcrate");
    reveal_strlit("import");
    reveal_strlit("struct");
    reveal_strlit("enum");
    reveal_strlit("fn");
    reveal_strlit("type");
    reveal_strlit("static");
    reveal_strlit("trait");
    reveal_strlit("impl");
    reveal_strlit("tymethod");
    reveal_strlit("method");
    reveal_strlit("structfield");
    reveal_strlit("variant");
    reveal_strlit("macro");
    reveal_strlit("primitive");
    reveal_strlit("associatedtype");
    reveal_strlit("constant");
    reveal_strlit("associatedconstant");
    reveal_strlit("union");
    reveal_strlit("foreigntype");
    reveal_strlit("keyword");
    reveal_strlit("opaque");
    reveal_strlit("attr");
    reveal_strlit("derive");
    reveal_strlit("traitalias");
    reveal_strlit("generic");
    assert("mod"@.len() == 3 && "mod"@[0] == 'm');
    assert("externcrate"@.len() == 11 && "externcrate"@[0] == 'e');
    assert("import"@.len() == 6 && "import"@[0] == 'i');
    assert("struct"@.len() == 6 && "struct"@[0] == 's' && "struct"@[2] == 'r');
    assert("enum"@.len() == 4 && "enum"@[0] == 'e');
    assert("fn"@.len() == 2 && "fn"@[0] == 'f');
    assert("type"@.len() == 4 && "type"@[0] == 't');
    assert("static"@.len() == 6 && "static"@[0] == 's' && "static"@[2] == 'a');
    assert("trait"@.len() == 5 && "trait"@[0] == 't');
    assert("impl"@.len() == 4 && "impl"@[0] == 'i');
    assert("tymethod"@.len() == 8 && "tymethod"@[0] == 't');
    assert("method"@.len() == 6 && "method"@[0] == 'm');
    assert("structfield"@.len() == 11 && "structfield"@[0] == 's');
    assert("variant"@.len() == 7 && "variant"@[0] == 'v');
    assert("macro"@.len() == 5 && "macro"@[0] == 'm');
    assert("primitive"@.len() == 9 && "primitive"@[0] == 'p');
    assert("associatedtype"@.len() == 14 && "associatedtype"@[0] == 'a');
    assert("constant"@.len() == 8 && "constant"@[0] == 'c');
    assert("associatedconstant"@.len() == 18 && "associatedconstant"@[0] == 'a');
    assert("union"@.len() == 5 && "union"@[0] == 'u');
    assert("foreigntype"@.len() == 11 && "foreigntype"@[0] == 'f');
    assert("keyword"@.len() == 7 && "keyword"@[0] == 'k');
    assert("opaque"@.len() == 6 && "opaque"@[0] == 'o');
    assert("attr"@.len() == 4 && "attr"@[0] == 'a');
    assert("derive"@.len() == 6 && "derive"@[0] == 'd');
    assert("traitalias"@.len() == 10 && "traitalias"@[0] == 't');
    assert("generic"@.len() == 7 && "generic"@[0] == 'g');
}

/// Decoding the numeric code produced by `code` always returns the original
/// kind: the numeric codec round-trips for every item kind.
pub proof fn lemma_kind_code_roundtrip(t: ItemType)
    ensures
        kind_of_code(kind_code(t)) == Some(t),
{
}

} // verus!
