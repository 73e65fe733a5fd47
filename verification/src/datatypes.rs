//! Primitive data types, schema fields and schemas.
//!
//! A [`DataType`] is one of a closed set of primitive types.  A [`Schema`] is
//! an ordered list of named, typed fields describing the output row shape of
//! a plan node.  The mathematical model of a schema is a `Seq<FieldV>`, and
//! column resolution is specified by [`spec_lookup_field`], a first-match
//! scan over that sequence.

use vstd::prelude::*;
use vstd::string::*;

use crate::error::{ErrorV, PlanError};

verus! {

/// A primitive type that an expression or a schema field can carry.
#[derive(Clone, Copy, Debug, PartialEq, Eq, Structural)]
pub enum DataType {
    Null,
    Boolean,
    Int8,
    Int16,
    Int32,
    Int64,
    UInt8,
    UInt16,
    UInt32,
    UInt64,
    Float32,
    Float64,
    Utf8,
    Date32,
    Date64,
}

/// One column of a schema: a name, a type and a nullability flag.
#[derive(Debug)]
pub struct Field {
    pub name: String,
    pub data_type: DataType,
    pub nullable: bool,
}

/// Mathematical model of a [`Field`]: the name as a sequence of characters.
#[verifier::ext_equal]
pub ghost struct FieldV {
    pub name: Seq<char>,
    pub data_type: DataType,
    pub nullable: bool,
}

impl View for Field {
    type V = FieldV;

    open spec fn view(&self) -> FieldV {
        FieldV { name: self.name@, data_type: self.data_type, nullable: self.nullable }
    }
}

impl Field {
    /// Build a field from a borrowed name.
    pub fn new(name: &str, data_type: DataType, nullable: bool) -> (f: Field)
        ensures
            f@ == (FieldV { name: name@, data_type, nullable }),
    {
        Field { name: String::from_str(name), data_type, nullable }
    }

    /// The declared type of the field.
    pub fn data_type(&self) -> (t: DataType)
        ensures
            t == self@.data_type,
    {
        self.data_type
    }

    /// An owned copy of the field.
    pub fn duplicate(&self) -> (f: Field)
        ensures
            f@ == self@,
    {
        Field { name: self.name.clone(), data_type: self.data_type, nullable: self.nullable }
    }
}

impl Clone for Field {
    fn clone(&self) -> (f: Field)
        ensures
            f@ == self@,
    {
        self.duplicate()
    }
}

/// The model of a sequence of fields.
pub open spec fn fields_view(fields: Seq<Field>) -> Seq<FieldV> {
    fields.map_values(|f: Field| f@)
}

/// First field of `s` named `name`, scanning front to back; `None` when the
/// name is absent.
pub open spec fn spec_lookup_field(s: Seq<FieldV>, name: Seq<char>) -> Option<FieldV>
    decreases s.len(),
{
    if s.len() == 0 {
        None
    } else if s[0].name == name {
        Some(s[0])
    } else {
        spec_lookup_field(s.drop_first(), name)
    }
}

/// An ordered list of uniquely named fields attached to a plan node.
#[derive(Debug)]
pub struct Schema {
    fields: Vec<Field>,
}

impl View for Schema {
    type V = Seq<FieldV>;

    closed spec fn view(&self) -> Seq<FieldV> {
        fields_view(self.fields@)
    }
}

impl Schema {
    /// Build a schema from its fields, in order.
    pub fn new(fields: Vec<Field>) -> (s: Schema)
        ensures
            s@ == fields_view(fields@),
    {
        Schema { fields }
    }

    /// The fields of the schema, in order.
    pub fn fields(&self) -> (fs: &Vec<Field>)
        ensures
            fields_view(fs@) == self@,
    {
        &self.fields
    }

    /// An owned copy of the schema.
    pub fn duplicate(&self) -> (s: Schema)
        ensures
            s@ == self@,
    {
        let mut out: Vec<Field> = Vec::new();
        let mut i: usize = 0;
        while i < self.fields.len()
            invariant
                i <= self.fields.len(),
                out@.len() == i,
                forall|j: int| 0 <= j < i ==> out@[j]@ == self.fields@[j]@,
            decreases self.fields.len() - i,
        {
            out.push(self.fields[i].duplicate());
            i = i + 1;
        }
        proof {
            assert(fields_view(out@) =~= fields_view(self.fields@));
        }
        Schema { fields: out }
    }

    /// Resolve a column name to its field, front to back; an
    /// [`PlanError::UnresolvedColumn`] error when the name is absent.
    pub fn field_with_name(&self, name: &String) -> (r: Result<&Field, PlanError>)
        ensures
            match r {
                Ok(f) => spec_lookup_field(self@, name@) == Some(f@),
                Err(e) => spec_lookup_field(self@, name@) is None && e@
                    == ErrorV::UnresolvedColumn(name@),
            },
    {
        let ghost whole: Seq<FieldV> = self@;
        proof {
            assert(fields_view(self.fields@).subrange(0, self.fields@.len() as int) =~= whole);
        }
        let mut i: usize = 0;
        while i < self.fields.len()
            invariant
                i <= self.fields.len(),
                whole == fields_view(self.fields@),
                spec_lookup_field(whole, name@) == spec_lookup_field(
                    fields_view(self.fields@).subrange(i as int, self.fields@.len() as int),
                    name@,
                ),
            decreases self.fields.len() - i,
        {
            let ghost rest: Seq<FieldV> = fields_view(self.fields@).subrange(
                i as int,
                self.fields@.len() as int,
            );
            if self.fields[i].name.eq(name) {
                proof {
                    assert(rest[0] == self.fields@[i as int]@);
                    assert(spec_lookup_field(rest, name@) == Some(rest[0]));
                }
                return Ok(&self.fields[i]);
            }
            proof {
                assert(rest[0] == self.fields@[i as int]@);
                assert(rest.drop_first() =~= fields_view(self.fields@).subrange(
                    i as int + 1,
                    self.fields@.len() as int,
                ));
            }
            i = i + 1;
        }
        proof {
            assert(fields_view(self.fields@).subrange(
                self.fields@.len() as int,
                self.fields@.len() as int,
            ) =~= Seq::<FieldV>::empty());
        }
        Err(PlanError::UnresolvedColumn(name.clone()))
    }
}

impl Clone for Schema {
    fn clone(&self) -> (s: Schema)
        ensures
            s@ == self@,
    {
        self.duplicate()
    }
}

} // verus!
