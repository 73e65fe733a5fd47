//! The scalar-function signature registry.
//!
//! The registry maps a function name to its metadata: the ordered list of
//! expected parameter fields and the declared return type.  It is read-only
//! input to the rewriter; absence of a name is an error, never a silent
//! pass-through.  Lookup is specified as a first-match scan, so a name
//! registered once resolves deterministically.

use vstd::prelude::*;
use vstd::string::*;

use crate::datatypes::{DataType, Field, FieldV, fields_view};

verus! {

/// Metadata of one registered scalar function.
#[derive(Debug)]
pub struct ScalarFunction {
    /// The name the function is called by.
    pub name: String,
    /// The expected parameter fields, in order.
    pub args: Vec<Field>,
    /// The declared return type.
    pub return_type: DataType,
}

/// Mathematical model of a [`ScalarFunction`].
#[verifier::ext_equal]
pub ghost struct ScalarFunctionV {
    pub name: Seq<char>,
    pub args: Seq<FieldV>,
    pub return_type: DataType,
}

impl View for ScalarFunction {
    type V = ScalarFunctionV;

    open spec fn view(&self) -> ScalarFunctionV {
        ScalarFunctionV {
            name: self.name@,
            args: fields_view(self.args@),
            return_type: self.return_type,
        }
    }
}

impl ScalarFunction {
    /// Build the metadata of a scalar function.
    pub fn new(name: &str, args: Vec<Field>, return_type: DataType) -> (f: ScalarFunction)
        ensures
            f@ == (ScalarFunctionV { name: name@, args: fields_view(args@), return_type }),
    {
        ScalarFunction { name: String::from_str(name), args, return_type }
    }
}

/// First function of `reg` named `name`, scanning front to back; `None`
/// when the name is absent.
pub open spec fn spec_lookup_function(reg: Seq<ScalarFunctionV>, name: Seq<char>) -> Option<
    ScalarFunctionV,
>
    decreases reg.len(),
{
    if reg.len() == 0 {
        None
    } else if reg[0].name == name {
        Some(reg[0])
    } else {
        spec_lookup_function(reg.drop_first(), name)
    }
}

/// A read-only collection of registered scalar functions.
#[derive(Debug)]
pub struct FunctionRegistry {
    functions: Vec<ScalarFunction>,
}

impl View for FunctionRegistry {
    type V = Seq<ScalarFunctionV>;

    closed spec fn view(&self) -> Seq<ScalarFunctionV> {
        self.functions@.map_values(|f: ScalarFunction| f@)
    }
}

impl FunctionRegistry {
    /// An empty registry.
    pub fn new() -> (r: FunctionRegistry)
        ensures
            r@ == Seq::<ScalarFunctionV>::empty(),
    {
        let r = FunctionRegistry { functions: Vec::new() };
        proof {
            assert(r@ =~= Seq::<ScalarFunctionV>::empty());
        }
        r
    }

    /// Add a function's metadata at the end of the registry.
    pub fn register(&mut self, f: ScalarFunction)
        ensures
            final(self)@ == old(self)@.push(f@),
    {
        let ghost fv: ScalarFunctionV = f@;
        self.functions.push(f);
        proof {
            assert(self@ =~= old(self)@.push(fv));
        }
    }

    /// Resolve a function name to its metadata, front to back; `None` when
    /// the name is absent.
    pub fn lookup(&self, name: &String) -> (r: Option<&ScalarFunction>)
        ensures
            match r {
                Some(f) => spec_lookup_function(self@, name@) == Some(f@),
                None => spec_lookup_function(self@, name@) is None,
            },
    {
        let ghost whole: Seq<ScalarFunctionV> = self@;
        proof {
            assert(whole.subrange(0, whole.len() as int) =~= whole);
        }
        let mut i: usize = 0;
        while i < self.functions.len()
            invariant
                i <= self.functions.len(),
                whole == self.functions@.map_values(|f: ScalarFunction| f@),
                whole == self@,
                spec_lookup_function(whole, name@) == spec_lookup_function(
                    whole.subrange(i as int, whole.len() as int),
                    name@,
                ),
            decreases self.functions.len() - i,
        {
            let ghost rest: Seq<ScalarFunctionV> = whole.subrange(i as int, whole.len() as int);
            proof {
                assert(rest[0] == whole[i as int]);
                assert(rest.drop_first() =~= whole.subrange(i as int + 1, whole.len() as int));
            }
            if self.functions[i].name.eq(name) {
                return Some(&self.functions[i]);
            }
            i = i + 1;
        }
        proof {
            assert(whole.subrange(whole.len() as int, whole.len() as int) =~= Seq::<
                ScalarFunctionV,
            >::empty());
        }
        None
    }
}

} // verus!
