//! What holds across the operations of the directory and the registry.

use crate::binaryview::{BinaryView, ViewModel};
use crate::directory::{
    listing, registration_error, selection_outcome, CustomDebugInfoParser, DebugInfoParser,
    ParserDirectory,
};
use crate::function::FunctionModel;
use crate::registry::RegistryModel;
use crate::text::is_c_text;
use crate::types::Type;
use vstd::prelude::*;

verus! {

/// A provider that is registered under a name that is neither empty nor
/// taken is among the handles listed from then on, and its handle gives
/// back exactly that name. The providers registered before keep their
/// handles and their names.
pub proof fn lemma_registered_provider_is_listed(names: Seq<Seq<char>>, name: Seq<char>)
    requires
        registration_error(names, name) is None,
        names.len() < usize::MAX,
    ensures
        ({
            let parser = DebugInfoParser { index: names.len() as usize };
            let after = names.push(name);
            &&& listing(after.len()).contains(parser)
            &&& after[parser.index as int] == name
            &&& forall|i: int|
                0 <= i < names.len() ==> listing(after.len())[i] == listing(names.len())[i]
                    && after[i] == names[i]
        }),
{
    let parser = DebugInfoParser { index: names.len() as usize };
    let after = names.push(name);
    assert(listing(after.len())[names.len() as int] == parser);
}

/// Whether a provider applies to a view depends on the provider and on
/// what the view holds, and on nothing else: asked about two views that
/// hold the same, through any two directories in which the handle denotes
/// the same provider, the answer is the same.
pub proof fn lemma_validity_depends_on_provider_and_view<C: CustomDebugInfoParser>(
    first: &ParserDirectory<C>,
    second: &ParserDirectory<C>,
    parser: DebugInfoParser,
    view: &BinaryView,
    other: &BinaryView,
)
    requires
        parser.valid_in(first),
        parser.valid_in(second),
        first.providers()[parser.index as int] == second.providers()[parser.index as int],
        view@ == other@,
    ensures
        parser.applies_to(first, view@) == parser.applies_to(second, other@),
{
}

/// Types and functions do not depend on one another in a registry: adding
/// a type changes nothing about which functions are accepted, a function
/// at a free address is accepted after a type was added, and the two
/// additions give the same registry in either order.
pub proof fn lemma_types_and_functions_are_independent(
    registry: RegistryModel,
    name: Seq<char>,
    ty: Type,
    function: FunctionModel,
)
    ensures
        registry.add_type(name, ty).has_function_at(function.address) == registry.has_function_at(
            function.address,
        ),
        !registry.has_function_at(function.address) ==> registry.add_type(name, ty).add_function(
            function,
        ).functions == registry.functions.push(function),
        registry.add_type(name, ty).add_function(function) == registry.add_function(
            function,
        ).add_type(name, ty),
{
    assert(registry.add_type(name, ty).functions == registry.functions);
}

/// The parameters of an accepted function are read back as they were
/// given: as many, and at each position the same name and the same type.
/// Whatever is added later leaves them so.
pub proof fn lemma_parameter_order_round_trip(
    registry: RegistryModel,
    function: FunctionModel,
    later: RegistryModel,
)
    requires
        !registry.has_function_at(function.address),
        later.extends(registry.add_function(function)),
    ensures
        registry.add_function(function).functions.last().parameters == function.parameters,
        registry.functions.len() < later.functions.len(),
        later.functions[registry.functions.len() as int].parameters.len()
            == function.parameters.len(),
        forall|i: int|
            0 <= i < function.parameters.len() ==> later.functions[registry.functions.len()
                as int].parameters[i] == function.parameters[i],
{
}

/// A registry only grows: whatever it held before an addition, accepted
/// or not, it holds afterwards, each type under its name and each function
/// at its position.
pub proof fn lemma_registry_only_grows(
    registry: RegistryModel,
    name: Seq<char>,
    ty: Type,
    function: FunctionModel,
)
    ensures
        registry.add_type(name, ty).extends(registry),
        registry.add_function(function).extends(registry),
{
}

/// Additions keep a registry well formed: names stay free of NUL and no
/// two functions share an address.
pub proof fn lemma_additions_keep_registry_well_formed(
    registry: RegistryModel,
    name: Seq<char>,
    ty: Type,
    function: FunctionModel,
)
    requires
        registry.wf(),
        is_c_text(name),
        function.has_c_text_names(),
    ensures
        RegistryModel::empty().wf(),
        registry.add_type(name, ty).wf(),
        registry.add_function(function).wf(),
{
}

/// Enumerating a directory twice, with no registration in between, gives
/// the same handles: as many, and at each position a handle of the same
/// provider with the same name.
pub proof fn lemma_enumeration_is_repeatable<C>(
    dir: &ParserDirectory<C>,
    first: Seq<DebugInfoParser>,
    second: Seq<DebugInfoParser>,
)
    requires
        first == listing(dir.names().len()),
        second == listing(dir.names().len()),
    ensures
        first.len() == second.len(),
        first.len() == dir.names().len(),
        forall|i: int|
            0 <= i < first.len() ==> first[i] == second[i] && dir.names()[first[i].index as int]
                == dir.names()[second[i].index as int],
{
}

/// Where no provider applies to a view, none is run, and the session ends
/// with the registry it started with.
pub proof fn lemma_no_applicable_provider_changes_nothing<C: CustomDebugInfoParser>(
    providers: Seq<C>,
    view: ViewModel,
    start: RegistryModel,
    end: RegistryModel,
)
    requires
        forall|i: int| 0 <= i < providers.len() ==> !(#[trigger] providers[i]).accepts(view),
        selection_outcome(providers, view, start, end),
    ensures
        end == start,
    decreases providers.len(),
{
    if providers.len() > 0 {
        lemma_no_applicable_provider_changes_nothing(providers.drop_last(), view, start, end);
    }
}

/// Where one provider is registered and applies to a view, a session is
/// exactly one run of its parser on the starting registry.
pub proof fn lemma_single_applicable_provider_parses_once<C: CustomDebugInfoParser>(
    provider: C,
    view: ViewModel,
    start: RegistryModel,
    end: RegistryModel,
)
    requires
        provider.accepts(view),
    ensures
        selection_outcome(seq![provider], view, start, end) == provider.parse_outcome(
            start,
            view,
            end,
        ),
{
    let providers = seq![provider];
    if provider.parse_outcome(start, view, end) {
        assert(selection_outcome(providers.drop_last(), view, start, start));
    }
    if selection_outcome(providers, view, start, end) {
        let middle = choose|middle: RegistryModel|
            selection_outcome(providers.drop_last(), view, start, middle)
                && #[trigger] providers.last().parse_outcome(middle, view, end);
        assert(middle == start);
    }
}

} // verus!
