//! The accumulator that a parser fills during one parse session.

use crate::function::{DebugFunctionInfo, FunctionModel};
use crate::text::is_c_text;
use crate::types::Type;
use vstd::prelude::*;

verus! {

/// What a [`DebugInfo`] stands for: the named types, and the functions in
/// the order in which they were added.
pub struct RegistryModel {
    pub types: Map<Seq<char>, Type>,
    pub functions: Seq<FunctionModel>,
}

impl RegistryModel {
    /// The registry at the start of a session.
    pub open spec fn empty() -> RegistryModel {
        RegistryModel { types: Map::empty(), functions: Seq::empty() }
    }

    /// Whether some function of the registry lies at `address`.
    pub open spec fn has_function_at(self, address: u64) -> bool {
        exists|i: int|
            0 <= i < self.functions.len() && (#[trigger] self.functions[i]).address == address
    }

    /// The registry after `add_type`: a name that is already present keeps
    /// its type and nothing changes; a new name is bound to `ty`.
    pub open spec fn add_type(self, name: Seq<char>, ty: Type) -> RegistryModel {
        if self.types.contains_key(name) {
            self
        } else {
            RegistryModel { types: self.types.insert(name, ty), functions: self.functions }
        }
    }

    /// The registry after `add_function`: a function at an address that is
    /// already taken is turned away and nothing changes; any other is
    /// appended behind the functions added before.
    pub open spec fn add_function(self, function: FunctionModel) -> RegistryModel {
        if self.has_function_at(function.address) {
            self
        } else {
            RegistryModel { types: self.types, functions: self.functions.push(function) }
        }
    }

    /// Whether `self` holds everything that `earlier` held: each name with
    /// the type it had, and the same functions at the same positions.
    pub open spec fn extends(self, earlier: RegistryModel) -> bool {
        &&& earlier.types.submap_of(self.types)
        &&& earlier.functions.is_prefix_of(self.functions)
    }

    /// What holds of every registry: finitely many types, no two functions
    /// at one address, and no NUL in any name.
    pub open spec fn wf(self) -> bool {
        &&& self.types.dom().finite()
        &&& forall|name: Seq<char>| #[trigger] self.types.contains_key(name) ==> is_c_text(name)
        &&& forall|i: int, j: int|
            0 <= i < j < self.functions.len() ==> (#[trigger] self.functions[i]).address != (
            #[trigger] self.functions[j]).address
        &&& forall|i: int|
            0 <= i < self.functions.len() ==> (#[trigger] self.functions[i]).has_c_text_names()
    }
}

/// The mapping that a list of (name, type) entries stands for.
spec fn named_types(entries: Seq<(String, Type)>) -> Map<Seq<char>, Type>
    decreases entries.len(),
{
    if entries.len() == 0 {
        Map::empty()
    } else {
        named_types(entries.drop_last()).insert(entries.last().0@, entries.last().1)
    }
}

/// No name occurs in two entries.
spec fn distinct_names(entries: Seq<(String, Type)>) -> bool {
    forall|i: int, j: int|
        0 <= i < j < entries.len() ==> (#[trigger] entries[i]).0@ != (#[trigger] entries[j]).0@
}

/// The views of a list of function descriptions, in order.
spec fn function_models(functions: Seq<DebugFunctionInfo>) -> Seq<FunctionModel> {
    Seq::new(functions.len(), |i: int| functions[i]@)
}

proof fn lemma_named_types_domain(entries: Seq<(String, Type)>)
    ensures
        named_types(entries).dom().finite(),
        forall|name: Seq<char>|
            named_types(entries).contains_key(name) <==> exists|i: int|
                0 <= i < entries.len() && (#[trigger] entries[i]).0@ == name,
    decreases entries.len(),
{
    if entries.len() > 0 {
        let rest = entries.drop_last();
        lemma_named_types_domain(rest);
        assert forall|name: Seq<char>|
            named_types(entries).contains_key(name) <==> exists|i: int|
                0 <= i < entries.len() && (#[trigger] entries[i]).0@ == name by {
            if exists|i: int| 0 <= i < entries.len() && (#[trigger] entries[i]).0@ == name {
                let i = choose|i: int| 0 <= i < entries.len() && (#[trigger] entries[i]).0@ == name;
                if i < entries.len() - 1 {
                    assert(rest[i].0@ == name);
                }
            }
        }
    }
}

proof fn lemma_named_types_lookup(entries: Seq<(String, Type)>, i: int)
    requires
        distinct_names(entries),
        0 <= i < entries.len(),
    ensures
        named_types(entries).contains_key(entries[i].0@),
        named_types(entries)[entries[i].0@] == entries[i].1,
    decreases entries.len(),
{
    let rest = entries.drop_last();
    if i < entries.len() - 1 {
        assert(distinct_names(rest));
        lemma_named_types_lookup(rest, i);
    }
}

proof fn lemma_named_types_len(entries: Seq<(String, Type)>)
    requires
        distinct_names(entries),
    ensures
        named_types(entries).dom().finite(),
        named_types(entries).len() == entries.len(),
    decreases entries.len(),
{
    lemma_named_types_domain(entries);
    if entries.len() > 0 {
        let rest = entries.drop_last();
        assert(distinct_names(rest));
        lemma_named_types_len(rest);
        lemma_named_types_domain(rest);
    }
}

/// The accumulator of one parse session: named types and function
/// descriptions. It only grows.
#[derive(Debug)]
pub struct DebugInfo {
    types: Vec<(String, Type)>,
    functions: Vec<DebugFunctionInfo>,
}

impl View for DebugInfo {
    type V = RegistryModel;

    closed spec fn view(&self) -> RegistryModel {
        RegistryModel {
            types: named_types(self.types@),
            functions: function_models(self.functions@),
        }
    }
}

impl DebugInfo {
    /// The registry's invariant: its model is well formed and each name is
    /// stored once.
    pub closed spec fn wf(&self) -> bool {
        &&& distinct_names(self.types@)
        &&& self@.wf()
    }

    /// A well-formed registry has a well-formed model.
    pub proof fn lemma_wf_model(&self)
        requires
            self.wf(),
        ensures
            self@.wf(),
    {
    }

    /// An empty registry, as a session starts with.
    pub fn new() -> (info: DebugInfo)
        ensures
            info.wf(),
            info@ == RegistryModel::empty(),
    {
        let info = DebugInfo { types: Vec::new(), functions: Vec::new() };
        proof {
            assert(info@.functions =~= Seq::<FunctionModel>::empty());
        }
        info
    }

    /// Binds `name` to `new_type` unless the name is already bound, in
    /// which case nothing changes. Returns whether the type was added.
    pub fn add_type(&mut self, name: &str, new_type: &Type) -> (added: bool)
        requires
            old(self).wf(),
            is_c_text(name@),
        ensures
            final(self).wf(),
            final(self)@ == old(self)@.add_type(name@, *new_type),
            added == !old(self)@.types.contains_key(name@),
    {
        let owned: String = name.to_owned();
        let n: usize = self.types.len();
        let mut i: usize = 0;
        proof {
            lemma_named_types_domain(self.types@);
        }
        while i < n
            invariant
                *self == *old(self),
                old(self).wf(),
                n == self.types@.len(),
                i <= n,
                owned@ == name@,
                forall|j: int| 0 <= j < i ==> (#[trigger] self.types@[j]).0@ != name@,
            decreases n - i,
        {
            if self.types[i].0 == owned {
                proof {
                    lemma_named_types_domain(self.types@);
                }
                return false;
            }
            i += 1;
        }
        let ghost before = self.types@;
        self.types.push((owned, *new_type));
        proof {
            let after = self.types@;
            assert(after.drop_last() =~= before);
            lemma_named_types_domain(after);
            assert(self@.functions == old(self)@.functions);
            assert(distinct_names(after));
        }
        true
    }

    /// Appends `new_func` behind the functions added before, unless a
    /// function at its address is already present, in which case nothing
    /// changes. Returns whether the function was accepted.
    pub fn add_function(&mut self, new_func: DebugFunctionInfo) -> (accepted: bool)
        requires
            old(self).wf(),
            new_func@.has_c_text_names(),
        ensures
            final(self).wf(),
            final(self)@ == old(self)@.add_function(new_func@),
            accepted == !old(self)@.has_function_at(new_func@.address),
    {
        let address: u64 = new_func.address();
        let n: usize = self.functions.len();
        let mut i: usize = 0;
        while i < n
            invariant
                *self == *old(self),
                old(self).wf(),
                address == new_func@.address,
                n == self.functions@.len(),
                i <= n,
                forall|j: int| 0 <= j < i ==> (#[trigger] self.functions@[j])@.address != address,
            decreases n - i,
        {
            if self.functions[i].address() == address {
                assert(self@.functions[i as int] == self.functions@[i as int]@);
                return false;
            }
            i += 1;
        }
        let ghost before = self@;
        self.functions.push(new_func);
        proof {
            assert(self@.functions =~= before.functions.push(new_func@));
            assert(!before.has_function_at(address));
        }
        true
    }

    /// The number of named types.
    pub fn type_count(&self) -> (count: usize)
        requires
            self.wf(),
        ensures
            count == self@.types.len(),
    {
        proof {
            lemma_named_types_len(self.types@);
        }
        self.types.len()
    }

    /// The type that `name` is bound to, if any.
    pub fn get_type(&self, name: &str) -> (found: Option<Type>)
        requires
            self.wf(),
        ensures
            found == (if self@.types.contains_key(name@) {
                Some(self@.types[name@])
            } else {
                None
            }),
    {
        let owned: String = name.to_owned();
        let n: usize = self.types.len();
        let mut i: usize = 0;
        proof {
            lemma_named_types_domain(self.types@);
        }
        while i < n
            invariant
                self.wf(),
                n == self.types@.len(),
                i <= n,
                owned@ == name@,
                forall|j: int| 0 <= j < i ==> (#[trigger] self.types@[j]).0@ != name@,
            decreases n - i,
        {
            if self.types[i].0 == owned {
                proof {
                    lemma_named_types_lookup(self.types@, i as int);
                }
                return Some(self.types[i].1);
            }
            i += 1;
        }
        None
    }

    /// Every named type once, as (name, type), in no order that callers
    /// may rely on.
    pub fn types(&self) -> (entries: &Vec<(String, Type)>)
        requires
            self.wf(),
        ensures
            entries@.len() == self@.types.len(),
            forall|i: int|
                0 <= i < entries@.len() ==> self@.types.contains_pair(
                    (#[trigger] entries@[i]).0@,
                    entries@[i].1,
                ),
            forall|i: int, j: int|
                0 <= i < j < entries@.len() ==> (#[trigger] entries@[i]).0@ != (
                #[trigger] entries@[j]).0@,
    {
        proof {
            lemma_named_types_len(self.types@);
            assert forall|i: int| 0 <= i < self.types@.len() implies self@.types.contains_pair(
                (#[trigger] self.types@[i]).0@,
                self.types@[i].1,
            ) by {
                lemma_named_types_lookup(self.types@, i);
            }
        }
        &self.types
    }

    /// The functions, in the order in which they were accepted.
    pub fn functions(&self) -> (functions: &Vec<DebugFunctionInfo>)
        ensures
            functions@.len() == self@.functions.len(),
            forall|i: int|
                0 <= i < functions@.len() ==> (#[trigger] functions@[i])@ == self@.functions[i],
    {
        &self.functions
    }

    /// The function at `address`, if one was accepted there.
    pub fn function_at(&self, address: u64) -> (found: Option<&DebugFunctionInfo>)
        ensures
            match found {
                Some(function) => function@.address == address && self@.functions.contains(
                    function@,
                ),
                None => !self@.has_function_at(address),
            },
    {
        let n: usize = self.functions.len();
        let mut i: usize = 0;
        while i < n
            invariant
                n == self.functions@.len(),
                i <= n,
                forall|j: int| 0 <= j < i ==> (#[trigger] self.functions@[j])@.address != address,
            decreases n - i,
        {
            if self.functions[i].address() == address {
                assert(self@.functions[i as int] == self.functions@[i as int]@);
                return Some(&self.functions[i]);
            }
            i += 1;
        }
        proof {
            assert forall|j: int| 0 <= j < self@.functions.len() implies (
            #[trigger] self@.functions[j]).address != address by {
            }
        }
        None
    }

    /// The number of functions.
    pub fn function_count(&self) -> (count: usize)
        ensures
            count == self@.functions.len(),
    {
        self.functions.len()
    }

    /// The function that was accepted as number `index`, counting from 0.
    pub fn function(&self, index: usize) -> (function: &DebugFunctionInfo)
        requires
            index < self@.functions.len(),
        ensures
            function@ == self@.functions[index as int],
    {
        &self.functions[index]
    }
}

} // verus!
