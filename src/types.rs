use vstd::prelude::*;

verus! {

/// The kind of a type as the frontend reports it.
#[derive(Clone, Copy, Debug, PartialEq, Eq, Structural)]
pub enum TypeKind {
    Void,
    Bool,
    CharS,
    CharU,
    SChar,
    UChar,
    Short,
    UShort,
    Int,
    UInt,
    Long,
    ULong,
    LongLong,
    ULongLong,
    Float,
    Double,
    Record,
    Other,
}

/// A type as it appears in the description of a class.
#[derive(Debug)]
pub struct FinchType {
    pub kind: TypeKind,
    /// Fully qualified name on the ABI side.
    pub display_name: String,
    /// The type this one is an alias of, if any.
    pub canonical_type: Option<Box<FinchType>>,
    /// Template arguments, for the generic wrapper records.
    pub template_argument_types: Vec<Option<FinchType>>,
}

/// An error that stops a whole generation run.
#[derive(Clone, Debug, PartialEq, Eq)]
pub enum GenError {
    /// A type that is neither primitive nor one of the reserved records.
    UnknownType(String),
}

/// How a type (with no alias left) crosses the ABI.
#[derive(Clone, Copy, Debug, PartialEq, Eq, Structural)]
pub enum TypeClass {
    Primitive,
    OwnedString,
    Optional,
    Fallible,
    Unknown,
}

pub open spec fn is_primitive_kind(k: TypeKind) -> bool {
    !(k is Record) && !(k is Other)
}

/// `finch::bindgen::<crate>::`
pub open spec fn ns(n: Seq<char>) -> Seq<char> {
    "finch::bindgen::"@ + n + "::"@
}

pub open spec fn string_name(n: Seq<char>) -> Seq<char> {
    ns(n) + "FinchString"@
}

pub open spec fn option_name(n: Seq<char>) -> Seq<char> {
    ns(n) + "FinchOption"@
}

pub open spec fn result_name(n: Seq<char>) -> Seq<char> {
    ns(n) + "FinchResult"@
}

/// Exactly one template argument, and it is present.
pub open spec fn has_single_arg(t: FinchType) -> bool {
    t.template_argument_types.len() == 1 && t.template_argument_types[0] is Some
}

pub open spec fn inner(t: FinchType) -> FinchType {
    t.template_argument_types[0]->Some_0
}

/// Classification of a type whose alias has been resolved.
pub open spec fn class_of(n: Seq<char>, t: FinchType) -> TypeClass {
    if is_primitive_kind(t.kind) {
        TypeClass::Primitive
    } else if t.kind is Record && t.display_name@ == string_name(n) {
        TypeClass::OwnedString
    } else if t.kind is Record && option_name(n).is_prefix_of(t.display_name@) && has_single_arg(t) {
        TypeClass::Optional
    } else if t.kind is Record && result_name(n).is_prefix_of(t.display_name@) && has_single_arg(t) {
        TypeClass::Fallible
    } else {
        TypeClass::Unknown
    }
}

/// The type at the end of the alias chain.
pub open spec fn resolved(t: FinchType) -> FinchType
    decreases t,
{
    match t.canonical_type {
        Some(c) => resolved(*c),
        None => t,
    }
}

/// Classification after alias resolution.
pub open spec fn classify(n: Seq<char>, t: FinchType) -> TypeClass {
    class_of(n, resolved(t))
}

/// Whether `p` is a prefix of `s`.
pub fn starts_with(s: &str, p: &str) -> (r: bool)
    ensures
        r == p@.is_prefix_of(s@),
{
    let sl = s.unicode_len();
    let pl = p.unicode_len();
    if pl > sl {
        return false;
    }
    let mut i: usize = 0;
    while i < pl
        invariant
            pl == p@.len(),
            sl == s@.len(),
            pl <= sl,
            i <= pl,
            forall|j: int| 0 <= j < i ==> p@[j] == s@[j],
        decreases pl - i,
    {
        if p.get_char(i) != s.get_char(i) {
            return false;
        }
        i += 1;
    }
    proof {
        assert(p@ =~= s@.subrange(0, p@.len() as int));
    }
    true
}

impl FinchType {
    /// Follows the alias chain to its end.
    pub fn resolve(&self) -> (r: &FinchType)
        ensures
            *r == resolved(*self),
        decreases self,
    {
        match &self.canonical_type {
            Some(c) => c.resolve(),
            None => self,
        }
    }
}

/// Classifies a type with no alias, for the crate namespace `n`.
pub fn class_of_resolved(n: &str, t: &FinchType) -> (r: TypeClass)
    ensures
        r == class_of(n@, *t),
{
    if t.kind != TypeKind::Record && t.kind != TypeKind::Other {
        return TypeClass::Primitive;
    }
    if t.kind == TypeKind::Other {
        return TypeClass::Unknown;
    }
    let mut prefix = String::from_str("finch::bindgen::");
    prefix.append(n);
    prefix.append("::");
    let sname = prefix.clone().concat("FinchString");
    let oname = prefix.clone().concat("FinchOption");
    let rname = prefix.concat("FinchResult");
    let single = t.template_argument_types.len() == 1 && t.template_argument_types[0].is_some();
    if t.display_name == sname {
        TypeClass::OwnedString
    } else if starts_with(t.display_name.as_str(), oname.as_str()) && single {
        TypeClass::Optional
    } else if starts_with(t.display_name.as_str(), rname.as_str()) && single {
        TypeClass::Fallible
    } else {
        TypeClass::Unknown
    }
}

} // verus!
