//! Row schema model: the ordered, named, typed, nullable shape of any row
//! produced by a projection or an aggregation.

use vstd::prelude::*;
use vstd::string::StringExecFns;

verus! {

/// Primitive data types that a scalar computation can yield.
#[derive(Clone, Copy, PartialEq, Eq, Structural, Debug)]
pub enum ScalarType {
    Bool,
    Int32,
    Int64,
    Float64,
    TimestampNanos,
}

/// A possibly-qualified field reference; identity is structural
/// (relation plus name).
#[derive(Clone, Debug)]
pub struct Column {
    pub relation: Option<String>,
    pub name: String,
}

/// The type of a value: either a primitive with its nullability, a composite
/// row type, or the nominal window-interval type carried by a synthesized
/// window field.
#[derive(Debug)]
pub enum TypeDef {
    Data(ScalarType, bool),
    Struct(StructDef, bool),
    Window,
}

/// One field of a row schema.
#[derive(Debug)]
pub struct StructField {
    pub name: String,
    pub alias: Option<String>,
    pub data_type: TypeDef,
}

/// An ordered row schema; constructed once at compile time and immutable
/// thereafter.
#[derive(Debug)]
pub struct StructDef {
    pub name: Option<String>,
    pub fields: Vec<StructField>,
}

/// The type given to a synthesized window field: a nominal
/// start/end interval.
pub fn window_type_def() -> (r: TypeDef)
    ensures
        r == TypeDef::Window,
{
    TypeDef::Window
}

impl TypeDef {
    /// A field type is flat when it is not itself a row: scalar computations
    /// yielding a composite where a scalar is required are an upstream
    /// type-checking violation and never reach this layer.
    pub open spec fn is_flat(self) -> bool {
        !(self is Struct)
    }
}

/// Copies a flat field type.
pub fn clone_flat_type(t: &TypeDef) -> (r: TypeDef)
    requires
        t.is_flat(),
    ensures
        r == *t,
{
    match t {
        TypeDef::Data(s, n) => TypeDef::Data(*s, *n),
        TypeDef::Window => TypeDef::Window,
        TypeDef::Struct(_, _) => {
            proof {
                assert(false);
            }
            TypeDef::Window
        },
    }
}

/// Copies a string, preserving its characters.
pub fn clone_string(s: &String) -> (r: String)
    ensures
        r@ == s@,
{
    String::from_str(s.as_str())
}

/// Copies an optional string, preserving its characters.
pub fn clone_opt_string(s: &Option<String>) -> (r: Option<String>)
    ensures
        match (s, &r) {
            (Some(a), Some(b)) => a@ == b@,
            (None, None) => true,
            _ => false,
        },
{
    match s {
        Some(a) => Some(clone_string(a)),
        None => None,
    }
}

impl StructField {
    pub open spec fn wf(self) -> bool {
        self.data_type.is_flat()
    }

    /// The deterministic identifier under which generated code refers to this
    /// field: the alias-qualified name. It must be injective over a schema's
    /// fields; a collision is a compile-time error in the surrounding system,
    /// not handled here.
    pub open spec fn spec_identifier(self) -> Seq<char> {
        match self.alias {
            Some(a) => a@ + seq!['_'] + self.name@,
            None => self.name@,
        }
    }

    /// Produces [`Self::spec_identifier`] as a string.
    pub fn field_identifier(&self) -> (r: String)
        ensures
            r@ == self.spec_identifier(),
    {
        match &self.alias {
            Some(a) => {
                let mut s = clone_string(a);
                s.append("_");
                proof {
                    reveal_strlit("_");
                    assert(s@ == a@ + seq!['_']);
                }
                s.append(self.name.as_str());
                s
            },
            None => clone_string(&self.name),
        }
    }

    /// Copies a flat field.
    pub fn clone_field(&self) -> (r: StructField)
        requires
            self.wf(),
        ensures
            r.name@ == self.name@,
            r.alias matches Some(a) ==> self.alias matches Some(b) && a@ == b@,
            r.alias is None <==> self.alias is None,
            r.data_type == self.data_type,
    {
        StructField {
            name: clone_string(&self.name),
            alias: clone_opt_string(&self.alias),
            data_type: clone_flat_type(&self.data_type),
        }
    }
}

impl StructDef {
    /// A schema is well formed when every field carries a flat type.
    pub open spec fn wf(self) -> bool {
        forall|i: int| 0 <= i < self.fields@.len() ==> (#[trigger] self.fields@[i]).wf()
    }

    /// The nominal composite type consumers use to build and destructure rows
    /// of this schema.
    pub fn as_type(self) -> (r: TypeDef)
        ensures
            r == TypeDef::Struct(self, false),
    {
        TypeDef::Struct(self, false)
    }
}

/// Whether two optional strings agree: both absent, or present with the
/// same characters.
pub open spec fn opt_string_eq(a: Option<String>, b: Option<String>) -> bool {
    match (a, b) {
        (Some(x), Some(y)) => x@ == y@,
        (None, None) => true,
        _ => false,
    }
}

/// Whether two fields describe the same column: same name, same alias,
/// same type.
pub open spec fn field_like(a: StructField, b: StructField) -> bool {
    &&& a.name@ == b.name@
    &&& opt_string_eq(a.alias, b.alias)
    &&& a.data_type == b.data_type
}

} // verus!
