//! Request objects for non-blocking operations, and the guards that complete them.
//!
//! A [`Request`] must be completed explicitly, with [`Request::wait`],
//! [`Request::wait_without_status`] or [`Request::test`], or handed to a [`WaitGuard`] or a
//! [`CancelGuard`], whose teardown completes it. Every completion unregisters the handle from
//! the scope it was attached to.
use vstd::prelude::*;
use core::marker::PhantomData;
use crate::handle::{Action, Completion, RawHandle, Status, REQUEST_NULL};
use crate::scope::{may_register, may_unregister, registered, unregistered, Scope, StaticScope};

verus! {

/// Guard that owns one live handle attached to a scope of type `S` with bound `'a`; its
/// teardown waits for the operation to finish.
#[must_use]
#[derive(Debug)]
pub struct WaitGuard<'a, S: Scope<'a> = StaticScope> {
    request: RawHandle,
    scope: PhantomData<S>,
    bound: PhantomData<&'a mut &'a ()>,
}

impl<'a, S: Scope<'a>> View for WaitGuard<'a, S> {
    type V = RawHandle;

    /// The handle that the guard owns.
    closed spec fn view(&self) -> RawHandle {
        self.request
    }
}

impl<'a, S: Scope<'a>> WaitGuard<'a, S> {
    /// A guard owns a live handle.
    #[verifier::type_invariant]
    spec fn inv(&self) -> bool {
        self.request != REQUEST_NULL
    }

    /// Attaches the live handle `request` to `scope` and takes ownership of it.
    ///
    /// Every buffer that the operation touches must outlive `'a`.
    pub fn from_raw(request: RawHandle, scope: &mut S) -> (r: Self)
        requires
            may_register(*old(scope), request),
        ensures
            r@ == request,
            registered(*old(scope), *final(scope), request),
    {
        scope.register(request);
        WaitGuard { request, scope: PhantomData, bound: PhantomData }
    }

    /// Detaches the handle from `scope` and hands it back without waiting.
    ///
    /// The operation may then outlive the buffers it references: meant for moving a handle
    /// from one owner to another.
    pub fn into_raw(self, scope: &mut S) -> (r: RawHandle)
        requires
            may_unregister(*old(scope), self@),
        ensures
            r == self@,
            r != REQUEST_NULL,
            unregistered(*old(scope), *final(scope), self@),
    {
        proof {
            use_type_invariant(&self);
        }
        let request = self.request;
        scope.unregister(request);
        request
    }

    /// The handle that the guard owns.
    pub fn as_raw(&self) -> (r: RawHandle)
        ensures
            r == self@,
            r != REQUEST_NULL,
    {
        proof {
            use_type_invariant(self);
        }
        self.request
    }

    /// The calls that the guard's teardown asks of the transport: a blocking wait.
    pub fn teardown(&self) -> (r: Vec<Action>)
        ensures
            r@ == seq![Action::Wait(self@)],
    {
        vec![Action::Wait(self.request)]
    }

    /// Ends the guard once the transport's blocking wait has returned `after`, the handle as
    /// the wait left it: unregisters the handle from `scope`.
    ///
    /// The transport sets a completed handle to null; persistent handles, which it would
    /// leave live, are not supported.
    pub fn finish(self, scope: &mut S, after: RawHandle)
        requires
            after == REQUEST_NULL,
            may_unregister(*old(scope), self@),
        ensures
            unregistered(*old(scope), *final(scope), self@),
    {
        self.into_raw(scope);
    }

    /// The best-effort cancellation that the transport is to be asked for. The operation
    /// must still be completed afterwards.
    pub fn cancel(&self) -> (r: Action)
        ensures
            r == Action::Cancel(self@),
    {
        Action::Cancel(self.request)
    }

    /// Turns the guard into a request that must be completed explicitly.
    pub fn into_request(self) -> (r: Request<'a, S>)
        ensures
            r@ == self@,
    {
        Request(self)
    }
}

/// The handles owned by a sequence of guards, in order.
pub open spec fn guard_handles<'a, S: Scope<'a>>(guards: Seq<WaitGuard<'a, S>>) -> Seq<RawHandle> {
    guards.map_values(|g: WaitGuard<'a, S>| g@)
}

/// A request for a non-blocking operation attached to a scope of type `S`.
///
/// It owns one live handle and must be completed explicitly: it has no teardown of its own.
/// To complete it in a teardown, turn it into a [`WaitGuard`] or a [`CancelGuard`].
#[must_use]
#[derive(Debug)]
pub struct Request<'a, S: Scope<'a> = StaticScope>(WaitGuard<'a, S>);

impl<'a, S: Scope<'a>> View for Request<'a, S> {
    type V = RawHandle;

    /// The handle that the request owns.
    closed spec fn view(&self) -> RawHandle {
        self.0@
    }
}

impl<'a, S: Scope<'a>> Request<'a, S> {
    /// Attaches the live handle `request` to `scope` and wraps it in a request.
    ///
    /// The handle must not be persistent, and every buffer that the operation touches must
    /// outlive `'a`.
    pub fn from_raw(request: RawHandle, scope: &mut S) -> (r: Self)
        requires
            may_register(*old(scope), request),
        ensures
            r@ == request,
            registered(*old(scope), *final(scope), request),
    {
        Request(WaitGuard::from_raw(request, scope))
    }

    /// Detaches the handle from `scope` and hands it back without waiting.
    ///
    /// The operation may then outlive the buffers it references.
    pub fn into_raw(self, scope: &mut S) -> (r: RawHandle)
        requires
            may_unregister(*old(scope), self@),
        ensures
            r == self@,
            r != REQUEST_NULL,
            unregistered(*old(scope), *final(scope), self@),
    {
        self.0.into_raw(scope)
    }

    /// The handle that the request owns.
    pub fn as_raw(&self) -> (r: RawHandle)
        ensures
            r == self@,
            r != REQUEST_NULL,
    {
        self.0.as_raw()
    }

    /// Completes the request once the transport's blocking wait on [`Request::as_raw`] has
    /// returned `done`: unregisters the handle from `scope` and yields the status.
    pub fn wait(self, scope: &mut S, done: Completion) -> (r: Status)
        requires
            done.request == REQUEST_NULL,
            may_unregister(*old(scope), self@),
        ensures
            r == done.status,
            unregistered(*old(scope), *final(scope), self@),
    {
        self.0.finish(scope, done.request);
        done.status
    }

    /// Completes the request once the transport's blocking wait has returned `after`, the
    /// handle as the wait left it, without retrieving the status.
    pub fn wait_without_status(self, scope: &mut S, after: RawHandle)
        requires
            after == REQUEST_NULL,
            may_unregister(*old(scope), self@),
        ensures
            unregistered(*old(scope), *final(scope), self@),
    {
        self.0.finish(scope, after);
    }

    /// Acts on the outcome of one poll of the transport on [`Request::as_raw`].
    ///
    /// `poll` is `None` where the operation has not finished: the request comes back
    /// unchanged and `scope` is untouched. Otherwise the handle is unregistered from `scope`
    /// and the status comes back.
    pub fn test(self, scope: &mut S, poll: Option<Completion>) -> (r: Result<Status, Self>)
        requires
            may_unregister(*old(scope), self@),
            poll matches Some(done) ==> done.request == REQUEST_NULL,
        ensures
            match poll {
                None => {
                    &&& r == Err::<Status, Self>(self)
                    &&& *final(scope) == *old(scope)
                },
                Some(done) => {
                    &&& r == Ok::<Status, Self>(done.status)
                    &&& unregistered(*old(scope), *final(scope), self@)
                },
            },
    {
        match poll {
            None => Err(self),
            Some(done) => {
                self.0.finish(scope, done.request);
                Ok(done.status)
            },
        }
    }

    /// The best-effort cancellation that the transport is to be asked for. The request is
    /// neither consumed nor completed.
    pub fn cancel(&self) -> (r: Action)
        ensures
            r == Action::Cancel(self@),
    {
        self.0.cancel()
    }

    /// Moves the handle from `scope` to `new_scope` without waiting.
    ///
    /// The new scope's bound `'b` ends no later than the old one's, `'a`.
    pub fn shrink_scope_to<'b, S2: Scope<'b>>(self, scope: &mut S, new_scope: &mut S2) -> (r: Request<'b, S2>)
        where
            'a: 'b,
        requires
            may_unregister(*old(scope), self@),
            !old(new_scope).handles().contains(self@),
            old(new_scope).wf(),
        ensures
            r@ == self@,
            unregistered(*old(scope), *final(scope), self@),
            registered(*old(new_scope), *final(new_scope), self@),
    {
        let request = self.into_raw(scope);
        Request::from_raw(request, new_scope)
    }

    /// Hands the request to a guard that waits for it in its teardown.
    pub fn into_wait_guard(self) -> (r: WaitGuard<'a, S>)
        ensures
            r@ == self@,
    {
        self.0
    }

    /// Hands the request to a guard that cancels it and then waits for it in its teardown.
    pub fn into_cancel_guard(self) -> (r: CancelGuard<'a, S>)
        ensures
            r@ == self@,
    {
        CancelGuard(self.0)
    }
}

/// Guard that owns one live handle attached to a scope of type `S`; its teardown asks the
/// transport to cancel the operation and then waits for it.
#[must_use]
#[derive(Debug)]
pub struct CancelGuard<'a, S: Scope<'a> = StaticScope>(WaitGuard<'a, S>);

impl<'a, S: Scope<'a>> View for CancelGuard<'a, S> {
    type V = RawHandle;

    /// The handle that the guard owns.
    closed spec fn view(&self) -> RawHandle {
        self.0@
    }
}

impl<'a, S: Scope<'a>> CancelGuard<'a, S> {
    /// The handle that the guard owns.
    pub fn as_raw(&self) -> (r: RawHandle)
        ensures
            r == self@,
            r != REQUEST_NULL,
    {
        self.0.as_raw()
    }

    /// The calls that the guard's teardown asks of the transport: a cancellation, then a
    /// blocking wait.
    pub fn teardown(&self) -> (r: Vec<Action>)
        ensures
            r@ == seq![Action::Cancel(self@), Action::Wait(self@)],
    {
        vec![self.0.cancel(), Action::Wait(self.0.as_raw())]
    }

    /// Ends the guard once the transport's blocking wait has returned `after`: unregisters
    /// the handle from `scope`.
    pub fn finish(self, scope: &mut S, after: RawHandle)
        requires
            after == REQUEST_NULL,
            may_unregister(*old(scope), self@),
        ensures
            unregistered(*old(scope), *final(scope), self@),
    {
        self.0.finish(scope, after);
    }

    /// Turns the guard back into a request that must be completed explicitly.
    pub fn into_request(self) -> (r: Request<'a, S>)
        ensures
            r@ == self@,
    {
        Request(self.0)
    }
}

/// Handing a request to a guard and taking it back keeps the handle: through a
/// [`WaitGuard`] and through a [`CancelGuard`] alike.
pub proof fn lemma_guard_round_trip<'a, S: Scope<'a>>(
    req: Request<'a, S>,
    wg: WaitGuard<'a, S>,
    back_from_wait: Request<'a, S>,
    cg: CancelGuard<'a, S>,
    back_from_cancel: Request<'a, S>,
)
    requires
        wg@ == req@,
        back_from_wait@ == wg@,
        cg@ == req@,
        back_from_cancel@ == cg@,
    ensures
        back_from_wait@ == req@,
        back_from_cancel@ == req@,
{
}

} // verus!
