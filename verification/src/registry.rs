//! The process-wide function registry: a write-once mapping from function
//! identifier to implementation, populated in one fallible bulk-load step at
//! startup and immutable thereafter.
//!
//! Lookups are permitted only on a loaded registry; a registry is shared with
//! the query-serving components only after loading has fully completed, so no
//! partial registry is ever exposed.

use vstd::prelude::*;
use crate::error::RegistryError;

verus! {

/// How many built-in functions the bulk load installs.
pub const BUILTIN_FUNCTION_COUNT: u64 = 8;

/// The identifiers of the built-in function set, in registration order:
/// `1` through `BUILTIN_FUNCTION_COUNT`.
pub open spec fn spec_builtin_ids() -> Seq<u64> {
    Seq::new(BUILTIN_FUNCTION_COUNT as nat, |i: int| (i + 1) as u64)
}

/// Whether `id` names a built-in function.
pub open spec fn spec_is_builtin(id: u64) -> bool {
    1 <= id <= BUILTIN_FUNCTION_COUNT
}

/// The built-in identifiers are exactly those `spec_is_builtin` admits.
pub proof fn lemma_builtin_ids_are_builtin(id: u64)
    ensures
        spec_builtin_ids().contains(id) <==> spec_is_builtin(id),
{
    if spec_is_builtin(id) {
        assert(spec_builtin_ids()[id - 1] == id);
    }
}

/// The function registry while it is being populated.
pub struct FunctionRegistryImpl {
    loaded: bool,
    functions: Vec<u64>,
}

impl FunctionRegistryImpl {
    /// Whether the bulk load has completed; once it has, the registry is
    /// immutable.
    pub closed spec fn spec_loaded(self) -> bool {
        self.loaded
    }

    /// The identifiers registered so far, in registration order.
    pub closed spec fn funcs(self) -> Seq<u64> {
        self.functions@
    }

    /// An empty, not-yet-loaded registry.
    pub fn new() -> (r: FunctionRegistryImpl)
        ensures
            !r.spec_loaded(),
            r.funcs() == Seq::<u64>::empty(),
    {
        FunctionRegistryImpl { loaded: false, functions: Vec::new() }
    }

    /// Whether `id` is registered.
    fn contains_id(&self, id: u64) -> (r: bool)
        ensures
            r == self.funcs().contains(id),
    {
        let mut i: usize = 0;
        while i < self.functions.len()
            invariant
                i <= self.functions.len(),
                forall|j: int| 0 <= j < i ==> self.functions@[j] != id,
            decreases self.functions.len() - i,
        {
            if self.functions[i] == id {
                assert(self.funcs()[i as int] == id);
                return true;
            }
            i += 1;
        }
        false
    }

    /// Register one function. Identifiers are unique keys: registering an
    /// identifier a second time fails and leaves the registry unchanged.
    /// No registration is permitted once the registry is loaded.
    pub fn register(&mut self, id: u64) -> (r: Result<(), RegistryError>)
        requires
            !old(self).spec_loaded(),
        ensures
            !final(self).spec_loaded(),
            old(self).funcs().contains(id) ==> r == Err::<(), RegistryError>(
                RegistryError::DuplicateFunction,
            ) && final(self).funcs() == old(self).funcs(),
            !old(self).funcs().contains(id) ==> r == Ok::<(), RegistryError>(())
                && final(self).funcs() == old(self).funcs().push(id),
    {
        if self.contains_id(id) {
            Err(RegistryError::DuplicateFunction)
        } else {
            self.functions.push(id);
            Ok(())
        }
    }

    /// Populate the full built-in function set. On a fresh registry this
    /// always succeeds — the built-in identifiers are distinct — and it must
    /// fully complete before the registry is shared.
    pub fn load_functions(&mut self) -> (r: Result<(), RegistryError>)
        requires
            !old(self).spec_loaded(),
            old(self).funcs() == Seq::<u64>::empty(),
        ensures
            r == Ok::<(), RegistryError>(()),
            final(self).spec_loaded(),
            final(self).funcs() == spec_builtin_ids(),
    {
        let mut next: u64 = 1;
        while next <= BUILTIN_FUNCTION_COUNT
            invariant
                1 <= next <= BUILTIN_FUNCTION_COUNT + 1,
                !self.spec_loaded(),
                self.funcs() == spec_builtin_ids().take(next - 1),
            decreases BUILTIN_FUNCTION_COUNT + 1 - next,
        {
            proof {
                assert forall|j: int| 0 <= j < self.funcs().len() implies self.funcs()[j]
                    != next by {
                    assert(self.funcs()[j] == j + 1);
                }
                assert(!self.funcs().contains(next));
            }
            let _ = self.register(next);
            proof {
                assert(self.funcs() =~= spec_builtin_ids().take(next as int));
            }
            next += 1;
        }
        proof {
            assert(self.funcs() =~= spec_builtin_ids());
        }
        self.loaded = true;
        Ok(())
    }

    /// Look up a function by identifier. Lookups are permitted only once the
    /// registry is loaded.
    pub fn lookup(&self, id: u64) -> (r: bool)
        requires
            self.spec_loaded(),
        ensures
            r == self.funcs().contains(id),
    {
        self.contains_id(id)
    }
}

/// A loaded function registry wrapped for shared, read-only access: it can
/// only be created from a fully loaded registry, and it permits no further
/// mutation.
pub struct SharedFunctionRegistry {
    registry: FunctionRegistryImpl,
}

impl SharedFunctionRegistry {
    #[verifier::type_invariant]
    spec fn loaded_invariant(self) -> bool {
        self.registry.spec_loaded()
    }

    /// The identifiers this registry serves.
    pub closed spec fn funcs(self) -> Seq<u64> {
        self.registry.funcs()
    }

    /// Wrap a registry for shared access; permitted only after its bulk load
    /// has completed.
    pub fn share(registry: FunctionRegistryImpl) -> (r: SharedFunctionRegistry)
        requires
            registry.spec_loaded(),
        ensures
            r.funcs() == registry.funcs(),
    {
        SharedFunctionRegistry { registry }
    }

    /// Look up a function by identifier; the registry behind a shared handle
    /// is always loaded, so no precondition is needed.
    pub fn lookup(&self, id: u64) -> (r: bool)
        ensures
            r == self.funcs().contains(id),
    {
        proof {
            use_type_invariant(&*self);
        }
        self.registry.lookup(id)
    }
}

/// After a successful bulk load, looking up any built-in identifier
/// succeeds, and only built-in identifiers are present.
pub proof fn lemma_lookup_after_load(reg: FunctionRegistryImpl, id: u64)
    requires
        reg.funcs() == spec_builtin_ids(),
    ensures
        reg.funcs().contains(id) <==> spec_is_builtin(id),
{
    lemma_builtin_ids_are_builtin(id);
}

} // verus!
