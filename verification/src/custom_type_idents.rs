//! Every name that the transpiler derives from the name of a declared type.

use crate::text::{join, lower_text, snake_text, to_lower, to_snake_case, to_upper, upper_text};
use vstd::prelude::*;

verus! {

/// The short lower-case name by which a uniform is referred to.
pub open spec fn uniform_name(name: Seq<char>) -> Seq<char> {
    lower_text(name)
}

/// The constant that holds the length of an input array.
pub open spec fn input_array_length_name(name: Seq<char>) -> Seq<char> {
    upper_text(name) + "_INPUT_ARRAY_LENGTH"@
}

/// The buffer variable of an input array.
pub open spec fn input_array_name(name: Seq<char>) -> Seq<char> {
    lower_text(name) + "_input_array"@
}

/// The constant that holds the capacity of an output array.
pub open spec fn output_array_length_name(name: Seq<char>) -> Seq<char> {
    upper_text(name) + "_OUTPUT_ARRAY_LENGTH"@
}

/// The buffer variable of an output array.
pub open spec fn output_array_name(name: Seq<char>) -> Seq<char> {
    lower_text(name) + "_output_array"@
}

/// The atomic counter that goes with an output vector.
pub open spec fn counter_name(name: Seq<char>) -> Seq<char> {
    lower_text(name) + "_counter"@
}

/// The local variable that holds the slot claimed by a push.
pub open spec fn index_name(name: Seq<char>) -> Seq<char> {
    lower_text(name) + "_output_array_index"@
}

/// The name of the builder method that sets the value for a type.
pub open spec fn setter_name(name: Seq<char>) -> Seq<char> {
    "set_"@ + snake_text(name)
}

/// A declared name together with its snake-case, upper-case and lower-case
/// forms. The three forms are always those of the declared name.
#[derive(Debug)]
pub struct CustomTypeIdents {
    name: String,
    snake_case: String,
    upper: String,
    lower: String,
}

impl View for CustomTypeIdents {
    type V = Seq<char>;

    /// The declared name.
    closed spec fn view(&self) -> Seq<char> {
        self.name@
    }
}

impl Clone for CustomTypeIdents {
    /// A copy of the bundle.
    fn clone(&self) -> (copy: Self)
        ensures
            copy@ == self@,
    {
        proof {
            use_type_invariant(self);
        }
        CustomTypeIdents {
            name: self.name.clone(),
            snake_case: self.snake_case.clone(),
            upper: self.upper.clone(),
            lower: self.lower.clone(),
        }
    }
}

impl CustomTypeIdents {
    #[verifier::type_invariant]
    spec fn well_formed(&self) -> bool {
        &&& self.snake_case@ == snake_text(self.name@)
        &&& self.upper@ == upper_text(self.name@)
        &&& self.lower@ == lower_text(self.name@)
    }

    /// Derives all forms of a declared name.
    pub fn new(name: &str) -> (idents: Self)
        ensures
            idents@ == name@,
    {
        CustomTypeIdents {
            name: name.to_owned(),
            snake_case: to_snake_case(name),
            upper: to_upper(name),
            lower: to_lower(name),
        }
    }

    /// Whether `other` is the declared name.
    pub fn eq(&self, other: &str) -> (same: bool)
        ensures
            same == (self@ == other@),
    {
        self.name.as_str().eq(other)
    }

    /// The declared name.
    pub fn name(&self) -> (out: &str)
        ensures
            out@ == self@,
    {
        self.name.as_str()
    }

    /// The declared name in snake case.
    pub fn snake_case(&self) -> (out: &str)
        ensures
            out@ == snake_text(self@),
    {
        proof {
            use_type_invariant(self);
        }
        self.snake_case.as_str()
    }

    /// The declared name in upper case.
    pub fn upper(&self) -> (out: &str)
        ensures
            out@ == upper_text(self@),
    {
        proof {
            use_type_invariant(self);
        }
        self.upper.as_str()
    }

    /// The declared name in lower case.
    pub fn lower(&self) -> (out: &str)
        ensures
            out@ == lower_text(self@),
    {
        proof {
            use_type_invariant(self);
        }
        self.lower.as_str()
    }

    /// The name by which the shader refers to a uniform of this type.
    pub fn uniform(&self) -> (out: String)
        ensures
            out@ == uniform_name(self@),
    {
        self.lower().to_owned()
    }

    /// The constant that holds the length of the input array of this type.
    pub fn input_array_length(&self) -> (out: String)
        ensures
            out@ == input_array_length_name(self@),
    {
        join(self.upper(), "_INPUT_ARRAY_LENGTH")
    }

    /// The buffer variable of the input array of this type.
    pub fn input_array(&self) -> (out: String)
        ensures
            out@ == input_array_name(self@),
    {
        join(self.lower(), "_input_array")
    }

    /// The constant that holds the capacity of the output of this type.
    pub fn output_array_length(&self) -> (out: String)
        ensures
            out@ == output_array_length_name(self@),
    {
        join(self.upper(), "_OUTPUT_ARRAY_LENGTH")
    }

    /// The buffer variable of the output of this type.
    pub fn output_array(&self) -> (out: String)
        ensures
            out@ == output_array_name(self@),
    {
        join(self.lower(), "_output_array")
    }

    /// The atomic counter of the output vector of this type.
    pub fn counter(&self) -> (out: String)
        ensures
            out@ == counter_name(self@),
    {
        join(self.lower(), "_counter")
    }

    /// The local variable that holds the slot claimed by a push.
    pub fn index(&self) -> (out: String)
        ensures
            out@ == index_name(self@),
    {
        join(self.lower(), "_output_array_index")
    }

    /// The name of the builder method that sets the value for this type.
    pub fn setter(&self) -> (out: String)
        ensures
            out@ == setter_name(self@),
    {
        join("set_", self.snake_case())
    }
}

} // verus!
