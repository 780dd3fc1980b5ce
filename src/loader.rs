use vstd::prelude::*;

use crate::module_id::ModuleId;
use crate::paths::{ModuleCachePath, ModuleSourcePath};
use crate::registry::{ModuleRegistry, RegistryError};

verus! {

/// Why a loader step was refused.
#[derive(Copy, Clone, Debug, PartialEq, Eq, Structural)]
pub enum LoaderError {
    /// The source path does not name a file.
    SourceMissing,
    /// The opened library exports no module descriptor, or a null one.
    MissingDescriptor,
    /// A library is already open in this loader.
    AlreadyOpen,
    /// No freshly opened library is waiting to be registered.
    NotOpen,
    /// The registry refused the registration change.
    Registry(RegistryError),
}

/// What a loader holds, as seen by its contracts.
pub struct LoaderState<S> {
    /// A library is open (its cache file exists and is mapped).
    pub open: bool,
    /// The id under which the open library's module is registered.
    pub id: Option<ModuleId>,
    /// The state capsule captured at the last unload, waiting for the next
    /// `init`.
    pub pending: Option<S>,
}

/// Effect of `ModuleLoader::unload` on the loader and on the registry, and its
/// result: `Ok(true)` when a library was closed and its cache file must now be
/// deleted, `Ok(false)` when nothing was loaded.
pub open spec fn unload_step<D, S>(
    s: LoaderState<S>,
    m: Map<ModuleId, D>,
    captured: Option<S>,
) -> (LoaderState<S>, Map<ModuleId, D>, Result<bool, LoaderError>) {
    if !s.open {
        (s, m, Ok(false))
    } else if s.id is Some && !m.contains_key(s.id->0) {
        (s, m, Err(LoaderError::Registry(RegistryError::UnknownId(s.id->0))))
    } else {
        let m2 = if s.id is Some {
            m.remove(s.id->0)
        } else {
            m
        };
        (LoaderState { open: false, id: None, pending: captured }, m2, Ok(true))
    }
}

/// Effect of `ModuleLoader::attach` on the loader, and its result: the
/// descriptor to initialize together with the capsule to hand to its `init`.
pub open spec fn attach_step<D, S>(s: LoaderState<S>, descriptor: Option<D>) -> (
    LoaderState<S>,
    Result<(D, Option<S>), LoaderError>,
) {
    if s.open {
        (s, Err(LoaderError::AlreadyOpen))
    } else if descriptor is None {
        (s, Err(LoaderError::MissingDescriptor))
    } else {
        (LoaderState { open: true, id: None, pending: None }, Ok((descriptor->0, s.pending)))
    }
}

/// Effect of `ModuleLoader::finish_load` on the loader and on the registry, and
/// its result.
pub open spec fn finish_load_step<D, S>(
    s: LoaderState<S>,
    m: Map<ModuleId, D>,
    descriptor: D,
    id: ModuleId,
) -> (LoaderState<S>, Map<ModuleId, D>, Result<(), LoaderError>) {
    if !s.open || s.id is Some {
        (s, m, Err(LoaderError::NotOpen))
    } else if m.contains_key(id) {
        (s, m, Err(LoaderError::Registry(RegistryError::DuplicateId(id))))
    } else {
        (LoaderState { id: Some(id), ..s }, m.insert(id, descriptor), Ok(()))
    }
}

/// Controller for one module: owns its source path, its private cache path, the
/// library opened from the cache copy and the id its module registered under.
///
/// The host performs the file and dynamic-library work between the steps; the
/// loader decides, in order: which descriptor's `unload` entry point to call
/// (`unload_target`), the unregistration and closing of the library (`unload`),
/// the acceptance of a freshly opened copy and the capsule its `init` receives
/// (`attach`), and its registration (`finish_load`).
pub struct ModuleLoader<L, S> {
    source_path: ModuleSourcePath,
    cache_path: ModuleCachePath,
    library: Option<L>,
    id: Option<ModuleId>,
    pending: Option<S>,
}

impl<L, S> View for ModuleLoader<L, S> {
    type V = LoaderState<S>;

    closed spec fn view(&self) -> LoaderState<S> {
        LoaderState { open: self.library is Some, id: self.id, pending: self.pending }
    }
}

impl<L, S> ModuleLoader<L, S> {
    /// A registered module always has its library open.
    pub closed spec fn wf(&self) -> bool {
        self.id is Some ==> self.library is Some
    }

    /// The path the loader copies the module from.
    pub closed spec fn spec_source_path(&self) -> ModuleSourcePath {
        self.source_path
    }

    /// The path of the loader's private copy.
    pub closed spec fn spec_cache_path(&self) -> ModuleCachePath {
        self.cache_path
    }

    /// A loader for the module built at `source_path`, to be cached at
    /// `cache_path`; `source_is_file` says whether `source_path` names an
    /// existing file. Refused when it does not. Nothing is loaded yet.
    pub fn new(
        source_path: ModuleSourcePath,
        cache_path: ModuleCachePath,
        source_is_file: bool,
    ) -> (r: Result<Self, LoaderError>)
        ensures
            !source_is_file ==> r == Err::<Self, LoaderError>(LoaderError::SourceMissing),
            source_is_file ==> r is Ok && r->Ok_0.wf() && r->Ok_0@ == (LoaderState::<S> {
                open: false,
                id: None,
                pending: None,
            }) && r->Ok_0.spec_source_path() == source_path && r->Ok_0.spec_cache_path()
                == cache_path,
    {
        if !source_is_file {
            return Err(LoaderError::SourceMissing);
        }
        Ok(ModuleLoader { source_path, cache_path, library: None, id: None, pending: None })
    }

    /// Where the build system writes the module.
    pub fn source_path(&self) -> (r: &ModuleSourcePath)
        ensures
            *r == self.spec_source_path(),
    {
        &self.source_path
    }

    /// Where the loader's private copy of the module lives.
    pub fn cache_path(&self) -> (r: &ModuleCachePath)
        ensures
            *r == self.spec_cache_path(),
    {
        &self.cache_path
    }

    /// Whether a library is open.
    pub fn is_loaded(&self) -> (r: bool)
        ensures
            r == self@.open,
    {
        self.library.is_some()
    }

    /// The id the loaded module registered under.
    pub fn id(&self) -> (r: Option<ModuleId>)
        ensures
            r == self@.id,
    {
        self.id
    }

    /// First half of an unload: the live descriptor whose `unload` entry point
    /// is to be called to capture the module's state, if this loader's module
    /// is registered.
    pub fn unload_target<D: Copy>(&self, registry: &ModuleRegistry<D>) -> (r: Option<D>)
        requires
            registry.wf(),
        ensures
            r == if self@.id is Some && registry@.contains_key(self@.id->0) {
                Some(registry@[self@.id->0])
            } else {
                None::<D>
            },
    {
        match self.id {
            Some(id) => registry.get_raw(id),
            None => None,
        }
    }

    /// Second half of an unload: unregisters the module, closes the library and
    /// keeps `captured` for the next `init`. Does nothing when no library is
    /// open. `Ok(true)` tells the caller to delete the cache file now.
    pub fn unload<D>(&mut self, registry: &mut ModuleRegistry<D>, captured: Option<S>) -> (r:
        Result<bool, LoaderError>)
        requires
            old(self).wf(),
            old(registry).wf(),
        ensures
            final(self).wf(),
            final(registry).wf(),
            (final(self)@, final(registry)@, r) == unload_step(old(self)@, old(registry)@, captured),
            final(self).spec_source_path() == old(self).spec_source_path(),
            final(self).spec_cache_path() == old(self).spec_cache_path(),
    {
        if self.library.is_none() {
            return Ok(false);
        }
        if let Some(id) = self.id {
            if let Err(e) = registry.unregister(id) {
                return Err(LoaderError::Registry(e));
            }
        }
        // The registration is gone: only now may the library be closed.

        self.library = None;
        self.id = None;
        self.pending = captured;
        Ok(true)
    }

    /// Accepts `library`, freshly opened from a new cache copy, whose
    /// descriptor export resolved to `descriptor` (`None` when the export is
    /// missing or null). Hands back the descriptor to initialize and the
    /// capsule its `init` receives. Refused, with the library closed and the
    /// loader unchanged, when a library is already open or no descriptor was
    /// found.
    pub fn attach<D>(&mut self, library: L, descriptor: Option<D>) -> (r: Result<
        (D, Option<S>),
        LoaderError,
    >)
        requires
            old(self).wf(),
        ensures
            final(self).wf(),
            (final(self)@, r) == attach_step(old(self)@, descriptor),
            final(self).spec_source_path() == old(self).spec_source_path(),
            final(self).spec_cache_path() == old(self).spec_cache_path(),
    {
        if self.library.is_some() {
            return Err(LoaderError::AlreadyOpen);
        }
        match descriptor {
            None => Err(LoaderError::MissingDescriptor),
            Some(d) => {
                self.library = Some(library);
                let state = self.pending.take();
                Ok((d, state))
            },
        }
    }

    /// Registers the initialized module of the attached library under `id`,
    /// the identity its descriptor reported.
    pub fn finish_load<D>(&mut self, registry: &mut ModuleRegistry<D>, descriptor: D, id: ModuleId) -> (r:
        Result<(), LoaderError>)
        requires
            old(self).wf(),
            old(registry).wf(),
        ensures
            final(self).wf(),
            final(registry).wf(),
            (final(self)@, final(registry)@, r) == finish_load_step(
                old(self)@,
                old(registry)@,
                descriptor,
                id,
            ),
            final(self).spec_source_path() == old(self).spec_source_path(),
            final(self).spec_cache_path() == old(self).spec_cache_path(),
    {
        if self.library.is_none() || self.id.is_some() {
            return Err(LoaderError::NotOpen);
        }
        if let Err(e) = registry.register(id, descriptor) {
            return Err(LoaderError::Registry(e));
        }
        self.id = Some(id);
        Ok(())
    }
}

/// Loading a module and unloading it right away leaves the registry exactly as
/// it was, without the module's id, closes the library and asks for the cache
/// file to be deleted: as if the module had never been loaded.
pub proof fn lemma_load_then_unload<D, S>(
    s: LoaderState<S>,
    m: Map<ModuleId, D>,
    descriptor: D,
    id: ModuleId,
    captured: Option<S>,
)
    requires
        !s.open,
        !m.contains_key(id),
    ensures
        ({
            let (s1, r1) = attach_step(s, Some(descriptor));
            let (s2, m2, r2) = finish_load_step(s1, m, descriptor, id);
            let (s3, m3, r3) = unload_step(s2, m2, captured);
            &&& r1 is Ok
            &&& r2 is Ok
            &&& r3 == Ok::<bool, LoaderError>(true)
            &&& m3 == m
            &&& !m3.contains_key(id)
            &&& !s3.open
            &&& s3.id is None
        }),
{
    assert(m.insert(id, descriptor).remove(id) =~= m);
}

/// Two consecutive reloads of a registered module: each new `init` receives
/// exactly the capsule that the preceding `unload` captured, so state that the
/// module carries in its capsule survives both swaps; the module stays
/// registered under its id, with the newest descriptor.
pub proof fn lemma_reload_twice_forwards_state<D, S>(
    s: LoaderState<S>,
    m: Map<ModuleId, D>,
    id: ModuleId,
    first: D,
    first_captured: Option<S>,
    second: D,
    second_captured: Option<S>,
)
    requires
        s.open,
        s.id == Some(id),
        m.contains_key(id),
    ensures
        ({
            let (s1, m1, u1) = unload_step(s, m, first_captured);
            let (s2, a1) = attach_step(s1, Some(first));
            let (s3, m3, f1) = finish_load_step(s2, m1, first, id);
            let (s4, m4, u2) = unload_step(s3, m3, second_captured);
            let (s5, a2) = attach_step(s4, Some(second));
            let (s6, m6, f2) = finish_load_step(s5, m4, second, id);
            &&& u1 == Ok::<bool, LoaderError>(true)
            &&& a1 == Ok::<(D, Option<S>), LoaderError>((first, first_captured))
            &&& f1 is Ok
            &&& m3 == m.insert(id, first)
            &&& u2 == Ok::<bool, LoaderError>(true)
            &&& a2 == Ok::<(D, Option<S>), LoaderError>((second, second_captured))
            &&& f2 is Ok
            &&& m6 == m.insert(id, second)
            &&& s6.open
            &&& s6.id == Some(id)
        }),
{
    assert(m.remove(id).insert(id, first) =~= m.insert(id, first));
    assert(m.insert(id, first).remove(id).insert(id, second) =~= m.insert(id, second));
}

} // verus!
