//! Scopes: the record of which handles a lifetime bound is answerable for.
use vstd::prelude::*;
use vstd::std_specs::hash::spec_hash_keys_iter;
use vstd::std_specs::iter::IteratorSpec;
use core::marker::PhantomData;
use std::collections::HashSet;
use crate::handle::{RawHandle, REQUEST_NULL};
use crate::request::{guard_handles, WaitGuard};

verus! {

broadcast use vstd::std_specs::hash::group_hash_axioms;

/// Whether `request` may be registered with `s`: it is a live handle and `s` does not hold it
/// yet. Registering a handle twice is a programming error.
pub open spec fn may_register<'a, S: Scope<'a>>(s: S, request: RawHandle) -> bool {
    &&& s.wf()
    &&& request != REQUEST_NULL
    &&& !s.handles().contains(request)
}

/// Whether `request` may be unregistered from `s`: a bounded scope must hold it. Unregistering
/// a handle that is not held is a programming error.
pub open spec fn may_unregister<'a, S: Scope<'a>>(s: S, request: RawHandle) -> bool {
    &&& s.wf()
    &&& (s.bounded() ==> s.handles().contains(request))
}

/// `after` is `before` with `request` registered.
pub open spec fn registered<'a, S: Scope<'a>>(before: S, after: S, request: RawHandle) -> bool {
    &&& after.wf()
    &&& after.bounded() == before.bounded()
    &&& after.handles() == if before.bounded() {
        before.handles().insert(request)
    } else {
        before.handles()
    }
}

/// `after` is `before` with `request` unregistered.
pub open spec fn unregistered<'a, S: Scope<'a>>(before: S, after: S, request: RawHandle) -> bool {
    &&& after.wf()
    &&& after.bounded() == before.bounded()
    &&& after.handles() == before.handles().remove(request)
}

/// A lifetime bound that outstanding handles are attached to.
///
/// A bounded scope keeps the set of handles attached to it; the global scope keeps none, as
/// the buffers of its handles live for the rest of the process.
pub trait Scope<'a>: Sized {
    /// The scope's internal consistency.
    spec fn wf(&self) -> bool;

    /// Whether the scope keeps a record of its handles.
    spec fn bounded(&self) -> bool;

    /// The handles currently registered with the scope.
    spec fn handles(&self) -> Set<RawHandle>;

    /// Whether `request` may be registered with the scope now.
    fn can_register(&self, request: RawHandle) -> (r: bool)
        requires
            self.wf(),
        ensures
            r == (request != REQUEST_NULL && !self.handles().contains(request)),
    ;

    /// Whether `request` may be unregistered from the scope now.
    fn can_unregister(&self, request: RawHandle) -> (r: bool)
        requires
            self.wf(),
        ensures
            r == (self.bounded() ==> self.handles().contains(request)),
    ;

    /// Registers `request` with the scope.
    fn register(&mut self, request: RawHandle)
        requires
            old(self).wf(),
            request != REQUEST_NULL,
            !old(self).handles().contains(request),
        ensures
            final(self).wf(),
            final(self).bounded() == old(self).bounded(),
            final(self).handles() == if old(self).bounded() {
                old(self).handles().insert(request)
            } else {
                old(self).handles()
            },
    ;

    /// Unregisters `request` from the scope.
    fn unregister(&mut self, request: RawHandle)
        requires
            old(self).wf(),
            old(self).bounded() ==> old(self).handles().contains(request),
        ensures
            final(self).wf(),
            final(self).bounded() == old(self).bounded(),
            final(self).handles() == old(self).handles().remove(request),
    ;
}

/// Registering a live handle with a bounded scope allows exactly one unregistration of it:
/// right after registering, unregistering is allowed and registering again is not; once
/// unregistered, unregistering again is not allowed.
pub proof fn lemma_unregister_exactly_once<'a, S: Scope<'a>>(s0: S, s1: S, s2: S, request: RawHandle)
    requires
        s0.bounded(),
        may_register(s0, request),
        registered(s0, s1, request),
        unregistered(s1, s2, request),
    ensures
        may_unregister(s1, request),
        !may_register(s1, request),
        !may_unregister(s2, request),
        s2.handles() == s0.handles(),
{
    assert(s2.handles() =~= s0.handles());
}

/// The scope that lasts for the whole execution of the program.
///
/// Every handle attached to it must reference buffers that live for the rest of the process,
/// so it keeps no record of its handles.
#[derive(Clone, Copy, Debug, Default, PartialEq, Eq, Hash)]
pub struct StaticScope;

impl Scope<'static> for StaticScope {
    open spec fn wf(&self) -> bool {
        true
    }

    open spec fn bounded(&self) -> bool {
        false
    }

    open spec fn handles(&self) -> Set<RawHandle> {
        Set::empty()
    }

    fn can_register(&self, request: RawHandle) -> (r: bool) {
        request != REQUEST_NULL
    }

    fn can_unregister(&self, request: RawHandle) -> (r: bool) {
        true
    }

    fn register(&mut self, request: RawHandle) {
    }

    fn unregister(&mut self, request: RawHandle) {
        assert(Set::<RawHandle>::empty().remove(request) =~= Set::empty());
    }
}

/// A scope bounded by the lifetime `'a`: every buffer of a handle attached to it outlives
/// `'a`, and every such handle is completed before the scope ends.
///
/// Not meant to be shared between threads.
#[derive(Debug)]
pub struct LocalScope<'a> {
    requests: HashSet<RawHandle>,
    bound: PhantomData<&'a mut &'a ()>,
}

impl<'a> LocalScope<'a> {
    /// A bounded scope with no handles registered.
    pub fn new() -> (r: LocalScope<'a>)
        ensures
            r.wf(),
            r.bounded(),
            r.handles().is_empty(),
    {
        LocalScope { requests: HashSet::new(), bound: PhantomData }
    }

    /// Whether `request` is registered with the scope.
    pub fn contains(&self, request: RawHandle) -> (r: bool)
        ensures
            r == self.handles().contains(request),
    {
        self.requests.contains(&request)
    }

    /// Whether no handle is registered with the scope.
    pub fn is_empty(&self) -> (r: bool)
        ensures
            r == self.handles().is_empty(),
    {
        self.requests.is_empty()
    }

    /// The exit sweep: detaches every handle still registered with the scope and hands each
    /// one back wrapped in a [`WaitGuard`] on the global scope, whose completion the caller
    /// then drives. Afterwards the scope holds no handle.
    pub fn sweep(&mut self) -> (r: Vec<WaitGuard<'static, StaticScope>>)
        requires
            old(self).wf(),
        ensures
            final(self).wf(),
            final(self).handles().is_empty(),
            guard_handles(r@).no_duplicates(),
            guard_handles(r@).to_set() == old(self).handles(),
    {
        let ghost start = self.requests@;
        let ghost keys = spec_hash_keys_iter(&self.requests).remaining().unref();
        let mut out: Vec<WaitGuard<'static, StaticScope>> = Vec::new();
        let mut global = StaticScope;
        for r in it: self.requests.iter()
            invariant
                self.requests@ == start,
                !start.contains(REQUEST_NULL),
                keys.to_set() == start,
                keys.no_duplicates(),
                it.seq().unref() == keys,
                it.index() <= keys.len(),
                guard_handles(out@) == keys.take(it.index() as int),
        {
            let request: RawHandle = *r;
            proof {
                assert(keys[it.index() as int] == request);
                assert(start.contains(request));
            }
            let guard = WaitGuard::from_raw(request, &mut global);
            let ghost prev = guard_handles(out@);
            let ghost old_out = out@;
            out.push(guard);
            proof {
                assert(out@ == old_out.push(guard));
                assert(prev.len() == it.index());
                assert forall|k: int| 0 <= k < it.index() + 1 implies guard_handles(out@)[k]
                    == keys.take(it.index() + 1)[k] by {
                    if k < it.index() {
                        assert(prev[k] == keys.take(it.index() as int)[k]);
                    }
                }
                assert(guard_handles(out@) =~= keys.take(it.index() + 1));
            }
        }
        proof {
            assert(keys.take(keys.len() as int) =~= keys);
        }
        self.requests.clear();
        out
    }
}

impl<'a> Scope<'a> for LocalScope<'a> {
    closed spec fn wf(&self) -> bool {
        &&& self.requests@.finite()
        &&& !self.requests@.contains(REQUEST_NULL)
    }

    open spec fn bounded(&self) -> bool {
        true
    }

    closed spec fn handles(&self) -> Set<RawHandle> {
        self.requests@
    }

    fn can_register(&self, request: RawHandle) -> (r: bool) {
        request != REQUEST_NULL && !self.contains(request)
    }

    fn can_unregister(&self, request: RawHandle) -> (r: bool) {
        self.contains(request)
    }

    fn register(&mut self, request: RawHandle) {
        self.requests.insert(request);
    }

    fn unregister(&mut self, request: RawHandle) {
        self.requests.remove(&request);
    }
}

} // verus!
