//! Parser providers and the directory in which they are registered.

use crate::binaryview::{BinaryView, ViewModel};
use crate::registry::{DebugInfo, RegistryModel};
use crate::text::is_c_text;
use vstd::prelude::*;

verus! {

/// What a parser provider implements.
///
/// Both operations may be called many times, for any view, and from several
/// threads at once. Nothing here checks an implementation that is not itself
/// verified: the directory takes a provider at its word that it keeps to the
/// two contracts below.
pub trait CustomDebugInfoParser: 'static + Sync {
    /// The views that this provider applies to. Ghost: it is never run.
    spec fn accepts(&self, view: ViewModel) -> bool;

    /// What one run of [`Self::parse_info`] on `view` may make of a
    /// registry: `after` is a possible result of parsing into `before`.
    /// A parser that reads more than the view (a companion file, say) may
    /// allow several results for one `before`. Ghost: it is never run.
    spec fn parse_outcome(
        &self,
        before: RegistryModel,
        view: ViewModel,
        after: RegistryModel,
    ) -> bool;

    /// Whether this provider applies to `view`. The answer depends on the
    /// provider and the view alone.
    fn is_valid(&self, view: &BinaryView) -> (valid: bool)
        ensures
            valid == self.accepts(view@),
    ;

    /// Reports what the provider finds in `view` by adding types and
    /// functions to `debug_info`. What the registry held before stays in
    /// it; a provider that finds nothing adds nothing.
    fn parse_info(&self, debug_info: &mut DebugInfo, view: &BinaryView)
        requires
            old(debug_info).wf(),
        ensures
            final(debug_info).wf(),
            final(debug_info)@.extends(old(debug_info)@),
            self.parse_outcome(old(debug_info)@, view@, final(debug_info)@),
    ;
}

/// A boxed provider is a provider: it answers as the provider inside does.
/// A directory of boxed providers holds providers of different kinds.
impl CustomDebugInfoParser for Box<dyn CustomDebugInfoParser> {
    open spec fn accepts(&self, view: ViewModel) -> bool {
        (**self).accepts(view)
    }

    open spec fn parse_outcome(
        &self,
        before: RegistryModel,
        view: ViewModel,
        after: RegistryModel,
    ) -> bool {
        (**self).parse_outcome(before, view, after)
    }

    fn is_valid(&self, view: &BinaryView) -> (valid: bool) {
        (**self).is_valid(view)
    }

    fn parse_info(&self, debug_info: &mut DebugInfo, view: &BinaryView) {
        (**self).parse_info(debug_info, view)
    }
}

/// Why a registration was turned down.
#[derive(Clone, Copy, Debug, PartialEq, Eq, Structural)]
pub enum RegistrationError {
    /// The name is empty.
    EmptyName,
    /// A provider is already registered under the name.
    NameTaken,
}

/// A handle to a registered provider: its position in the order of
/// registration.
#[derive(Clone, Copy, Debug, PartialEq, Eq, Hash, Structural)]
pub struct DebugInfoParser {
    pub index: usize,
}

struct ProviderRecord<C> {
    name: String,
    callbacks: C,
}

/// The providers that have been registered, in the order of registration.
/// A provider stays registered for as long as the directory lives.
pub struct ParserDirectory<C> {
    records: Vec<ProviderRecord<C>>,
}

/// What `register` answers for `name` where `names` are taken: the error,
/// or `None` where the provider is taken in.
pub open spec fn registration_error(names: Seq<Seq<char>>, name: Seq<char>) -> Option<
    RegistrationError,
> {
    if name.len() == 0 {
        Some(RegistrationError::EmptyName)
    } else if names.contains(name) {
        Some(RegistrationError::NameTaken)
    } else {
        None
    }
}

/// The handles of a directory of `count` providers, in the order of
/// registration.
pub open spec fn listing(count: nat) -> Seq<DebugInfoParser> {
    Seq::new(count, |i: int| DebugInfoParser { index: i as usize })
}

/// The handles of those among `providers` that apply to `view`, in the
/// order of registration.
pub open spec fn accepting<C: CustomDebugInfoParser>(
    providers: Seq<C>,
    view: ViewModel,
) -> Seq<DebugInfoParser>
    decreases providers.len(),
{
    if providers.len() == 0 {
        Seq::empty()
    } else {
        let earlier = accepting(providers.drop_last(), view);
        if providers.last().accepts(view) {
            earlier.push(DebugInfoParser { index: (providers.len() - 1) as usize })
        } else {
            earlier
        }
    }
}

/// Whether `end` can come of `start` when each of `providers` that applies
/// to `view` parses once, in the order of registration, each into what the
/// one before it left, and the others are passed over.
pub open spec fn selection_outcome<C: CustomDebugInfoParser>(
    providers: Seq<C>,
    view: ViewModel,
    start: RegistryModel,
    end: RegistryModel,
) -> bool
    decreases providers.len(),
{
    if providers.len() == 0 {
        end == start
    } else if providers.last().accepts(view) {
        exists|middle: RegistryModel|
            #![trigger providers.last().parse_outcome(middle, view, end)]
            selection_outcome(providers.drop_last(), view, start, middle)
                && providers.last().parse_outcome(middle, view, end)
    } else {
        selection_outcome(providers.drop_last(), view, start, end)
    }
}

impl<C> ParserDirectory<C> {
    /// The registered names, in the order of registration.
    pub closed spec fn names(&self) -> Seq<Seq<char>> {
        Seq::new(self.records@.len(), |i: int| self.records@[i].name@)
    }

    /// The registered providers, in the order of registration.
    pub closed spec fn providers(&self) -> Seq<C> {
        Seq::new(self.records@.len(), |i: int| self.records@[i].callbacks)
    }

    /// The directory's invariant: every provider has a name, which is not
    /// empty, holds no NUL, and is the name of no other provider.
    pub open spec fn wf(&self) -> bool {
        &&& self.names().len() == self.providers().len()
        &&& forall|i: int|
            0 <= i < self.names().len() ==> (#[trigger] self.names()[i]).len() > 0 && is_c_text(
                self.names()[i],
            )
        &&& forall|i: int, j: int|
            0 <= i < j < self.names().len() ==> #[trigger] self.names()[i]
                != #[trigger] self.names()[j]
    }

    /// A directory without providers.
    pub fn new() -> (dir: ParserDirectory<C>)
        ensures
            dir.wf(),
            dir.names() == Seq::<Seq<char>>::empty(),
            dir.providers() == Seq::<C>::empty(),
    {
        ParserDirectory { records: Vec::new() }
    }

    /// The number of registered providers.
    pub fn len(&self) -> (count: usize)
        ensures
            count == self.names().len(),
            count == self.providers().len(),
    {
        self.records.len()
    }
}

impl DebugInfoParser {
    /// Whether this handle denotes a provider of `dir`.
    pub open spec fn valid_in<C>(self, dir: &ParserDirectory<C>) -> bool {
        self.index < dir.names().len()
    }

    /// Whether the provider behind this handle applies to a view that
    /// holds `view`.
    pub open spec fn applies_to<C: CustomDebugInfoParser>(
        self,
        dir: &ParserDirectory<C>,
        view: ViewModel,
    ) -> bool {
        dir.providers()[self.index as int].accepts(view)
    }

    /// The handles of all registered providers, in the order of
    /// registration. The directory is left as it is.
    pub fn list<C>(dir: &ParserDirectory<C>) -> (parsers: Vec<DebugInfoParser>)
        ensures
            parsers@ == listing(dir.names().len()),
    {
        let n: usize = dir.records.len();
        let mut parsers: Vec<DebugInfoParser> = Vec::with_capacity(n);
        let mut i: usize = 0;
        while i < n
            invariant
                n == dir.names().len(),
                i <= n,
                parsers@ == listing(i as nat),
            decreases n - i,
        {
            parsers.push(DebugInfoParser { index: i });
            i += 1;
        }
        parsers
    }

    /// The provider registered under `name`, if there is one.
    pub fn from_name<C>(dir: &ParserDirectory<C>, name: &str) -> (found: Option<DebugInfoParser>)
        ensures
            match found {
                Some(parser) => parser.valid_in(dir) && dir.names()[parser.index as int] == name@,
                None => !dir.names().contains(name@),
            },
    {
        let owned: String = name.to_owned();
        let n: usize = dir.records.len();
        let mut i: usize = 0;
        while i < n
            invariant
                n == dir.names().len(),
                i <= n,
                owned@ == name@,
                forall|j: int| 0 <= j < i ==> dir.names()[j] != name@,
            decreases n - i,
        {
            if dir.records[i].name == owned {
                return Some(DebugInfoParser { index: i });
            }
            i += 1;
        }
        None
    }

    /// The name under which the provider was registered.
    pub fn name<C>(&self, dir: &ParserDirectory<C>) -> (name: String)
        requires
            self.valid_in(dir),
        ensures
            name@ == dir.names()[self.index as int],
    {
        dir.records[self.index].name.clone()
    }

    /// Asks the provider whether it applies to `view`. The answer depends
    /// on the provider and the view alone; neither is changed.
    pub fn is_valid_for_view<C: CustomDebugInfoParser>(
        &self,
        dir: &ParserDirectory<C>,
        view: &BinaryView,
    ) -> (valid: bool)
        requires
            self.valid_in(dir),
        ensures
            valid == self.applies_to(dir, view@),
    {
        dir.records[self.index].callbacks.is_valid(view)
    }

    /// Lets the provider parse `view` into `debug_info`, once.
    pub fn parse_info<C: CustomDebugInfoParser>(
        &self,
        dir: &ParserDirectory<C>,
        debug_info: &mut DebugInfo,
        view: &BinaryView,
    )
        requires
            self.valid_in(dir),
            old(debug_info).wf(),
        ensures
            final(debug_info).wf(),
            final(debug_info)@.extends(old(debug_info)@),
            dir.providers()[self.index as int].parse_outcome(
                old(debug_info)@,
                view@,
                final(debug_info)@,
            ),
    {
        dir.records[self.index].callbacks.parse_info(debug_info, view)
    }

    /// Registers `parser_callbacks` under `name` behind the providers
    /// registered before. An empty name, or one that is taken, is turned
    /// down and leaves the directory as it was.
    pub fn register<C: CustomDebugInfoParser>(
        dir: &mut ParserDirectory<C>,
        name: &str,
        parser_callbacks: C,
    ) -> (result: Result<DebugInfoParser, RegistrationError>)
        requires
            old(dir).wf(),
            is_c_text(name@),
        ensures
            final(dir).wf(),
            match registration_error(old(dir).names(), name@) {
                Some(error) => {
                    &&& result == Err::<DebugInfoParser, RegistrationError>(error)
                    &&& *final(dir) == *old(dir)
                },
                None => {
                    &&& result == Ok::<DebugInfoParser, RegistrationError>(
                        DebugInfoParser { index: old(dir).names().len() as usize },
                    )
                    &&& final(dir).names() == old(dir).names().push(name@)
                    &&& final(dir).providers() == old(dir).providers().push(parser_callbacks)
                },
            },
    {
        if name.is_empty() {
            return Err(RegistrationError::EmptyName);
        }
        if Self::from_name(dir, name).is_some() {
            return Err(RegistrationError::NameTaken);
        }
        let index: usize = dir.records.len();
        dir.records.push(ProviderRecord { name: name.to_owned(), callbacks: parser_callbacks });
        proof {
            assert(final(dir).names() =~= old(dir).names().push(name@));
        }
        Ok(DebugInfoParser { index })
    }
}

impl<C: CustomDebugInfoParser> ParserDirectory<C> {
    /// The providers that apply to `view`, in the order of registration.
    pub fn valid_parsers(&self, view: &BinaryView) -> (parsers: Vec<DebugInfoParser>)
        ensures
            parsers@ == accepting(self.providers(), view@),
    {
        let n: usize = self.records.len();
        let mut parsers: Vec<DebugInfoParser> = Vec::new();
        let mut i: usize = 0;
        while i < n
            invariant
                n == self.providers().len(),
                i <= n,
                parsers@ == accepting(self.providers().take(i as int), view@),
            decreases n - i,
        {
            if self.records[i].callbacks.is_valid(view) {
                parsers.push(DebugInfoParser { index: i });
            }
            proof {
                let longer = self.providers().take(i + 1);
                assert(longer.drop_last() =~= self.providers().take(i as int));
            }
            i += 1;
        }
        proof {
            assert(self.providers().take(n as int) =~= self.providers());
        }
        parsers
    }

    /// Runs one parse session on `view`: starts from an empty registry,
    /// asks every provider in the order of registration whether it applies,
    /// and lets each one that does parse once. Providers that do not apply
    /// are never run; none, one or several may contribute.
    pub fn parse_debug_info(&self, view: &BinaryView) -> (debug_info: DebugInfo)
        ensures
            debug_info.wf(),
            selection_outcome(self.providers(), view@, RegistryModel::empty(), debug_info@),
    {
        let n: usize = self.records.len();
        let mut debug_info = DebugInfo::new();
        let mut i: usize = 0;
        while i < n
            invariant
                n == self.providers().len(),
                i <= n,
                debug_info.wf(),
                selection_outcome(
                    self.providers().take(i as int),
                    view@,
                    RegistryModel::empty(),
                    debug_info@,
                ),
            decreases n - i,
        {
            if self.records[i].callbacks.is_valid(view) {
                self.records[i].callbacks.parse_info(&mut debug_info, view);
            }
            proof {
                let longer = self.providers().take(i + 1);
                assert(longer.drop_last() =~= self.providers().take(i as int));
            }
            i += 1;
        }
        proof {
            assert(self.providers().take(n as int) =~= self.providers());
        }
        debug_info
    }
}

} // verus!
