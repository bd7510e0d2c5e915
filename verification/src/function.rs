//! The description of one function that a parser hands to the registry.

use crate::text::{check_c_text, is_c_text};
use crate::types::Type;
use vstd::prelude::*;

verus! {

/// What a [`DebugFunctionInfo`] stands for.
pub struct FunctionModel {
    pub short_name: Seq<char>,
    pub full_name: Seq<char>,
    pub raw_name: Seq<char>,
    pub return_type: Type,
    pub address: u64,
    /// Name and type of each parameter, in calling-convention order.
    pub parameters: Seq<(Seq<char>, Type)>,
}

impl FunctionModel {
    /// Every name in the description is free of NUL characters.
    pub open spec fn has_c_text_names(self) -> bool {
        &&& is_c_text(self.short_name)
        &&& is_c_text(self.full_name)
        &&& is_c_text(self.raw_name)
        &&& forall|i: int|
            0 <= i < self.parameters.len() ==> is_c_text((#[trigger] self.parameters[i]).0)
    }
}

/// The parameter list as plain values, position by position.
pub open spec fn parameter_models(parameters: Seq<(String, Type)>) -> Seq<(Seq<char>, Type)> {
    Seq::new(parameters.len(), |i: int| (parameters[i].0@, parameters[i].1))
}

/// One function's names, return type, address and ordered parameters.
///
/// A description is fixed once built and is given up when it is added to a
/// registry.
#[derive(Debug, PartialEq, Eq, Hash)]
pub struct DebugFunctionInfo {
    short_name: String,
    full_name: String,
    raw_name: String,
    return_type: Type,
    address: u64,
    parameters: Vec<(String, Type)>,
}

impl View for DebugFunctionInfo {
    type V = FunctionModel;

    closed spec fn view(&self) -> FunctionModel {
        FunctionModel {
            short_name: self.short_name@,
            full_name: self.full_name@,
            raw_name: self.raw_name@,
            return_type: self.return_type,
            address: self.address,
            parameters: parameter_models(self.parameters@),
        }
    }
}

impl DebugFunctionInfo {
    /// Describes a function. Any of the names may be empty where it is not
    /// known. The parameters keep the order in which they are given.
    pub fn new(
        short_name: String,
        full_name: String,
        raw_name: String,
        return_type: Type,
        address: u64,
        parameters: Vec<(String, Type)>,
    ) -> (info: DebugFunctionInfo)
        ensures
            info@ == (FunctionModel {
                short_name: short_name@,
                full_name: full_name@,
                raw_name: raw_name@,
                return_type: return_type,
                address: address,
                parameters: parameter_models(parameters@),
            }),
    {
        DebugFunctionInfo { short_name, full_name, raw_name, return_type, address, parameters }
    }

    /// Whether every name in the description is free of NUL characters, as
    /// a registry requires of what is added to it.
    pub fn has_c_text_names(&self) -> (ok: bool)
        ensures
            ok == self@.has_c_text_names(),
    {
        if !check_c_text(self.short_name.as_str()) || !check_c_text(self.full_name.as_str())
            || !check_c_text(self.raw_name.as_str()) {
            return false;
        }
        let n: usize = self.parameters.len();
        let mut i: usize = 0;
        while i < n
            invariant
                n == self.parameters@.len(),
                i <= n,
                forall|j: int| 0 <= j < i ==> is_c_text((#[trigger] self@.parameters[j]).0),
            decreases n - i,
        {
            if !check_c_text(self.parameters[i].0.as_str()) {
                assert(!is_c_text(self@.parameters[i as int].0));
                return false;
            }
            i += 1;
        }
        true
    }

    /// The parameter names and the parameter types as two arrays of one
    /// length, in which position `i` of each holds parameter `i`.
    pub fn parameter_arrays(&self) -> (arrays: (Vec<String>, Vec<Type>))
        ensures
            arrays.0@.len() == self@.parameters.len(),
            arrays.1@.len() == self@.parameters.len(),
            forall|i: int|
                0 <= i < self@.parameters.len() ==> (#[trigger] arrays.0@[i])@
                    == self@.parameters[i].0,
            forall|i: int|
                0 <= i < self@.parameters.len() ==> #[trigger] arrays.1@[i]
                    == self@.parameters[i].1,
    {
        let n: usize = self.parameters.len();
        let mut names: Vec<String> = Vec::with_capacity(n);
        let mut types: Vec<Type> = Vec::with_capacity(n);
        let mut i: usize = 0;
        while i < n
            invariant
                n == self.parameters@.len(),
                i <= n,
                names@.len() == i,
                types@.len() == i,
                forall|j: int| 0 <= j < i ==> (#[trigger] names@[j])@ == self@.parameters[j].0,
                forall|j: int| 0 <= j < i ==> #[trigger] types@[j] == self@.parameters[j].1,
            decreases n - i,
        {
            names.push(self.parameters[i].0.clone());
            types.push(self.parameters[i].1);
            i += 1;
        }
        (names, types)
    }

    /// The short name.
    pub fn short_name(&self) -> (name: &String)
        ensures
            name@ == self@.short_name,
    {
        &self.short_name
    }

    /// The full, qualified name.
    pub fn full_name(&self) -> (name: &String)
        ensures
            name@ == self@.full_name,
    {
        &self.full_name
    }

    /// The raw name, as the linker sees it.
    pub fn raw_name(&self) -> (name: &String)
        ensures
            name@ == self@.raw_name,
    {
        &self.raw_name
    }

    /// The type of the value that the function returns.
    pub fn return_type(&self) -> (ty: Type)
        ensures
            ty == self@.return_type,
    {
        self.return_type
    }

    /// The address of the function.
    pub fn address(&self) -> (address: u64)
        ensures
            address == self@.address,
    {
        self.address
    }

    /// The parameters, in the order in which they were given.
    pub fn parameters(&self) -> (parameters: &Vec<(String, Type)>)
        ensures
            parameter_models(parameters@) == self@.parameters,
    {
        &self.parameters
    }
}

} // verus!
