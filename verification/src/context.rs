//! Execution contexts, the stack-discipline "current context" scope, and
//! the per-context side-table.
//!
//! At most one context is current per thread at a time.  The engine owns
//! that thread-local state; this module models it as an explicit
//! [`ThreadState`] value that the unverified shim keeps in lock-step with
//! the engine (every transition here tells the shim exactly which context
//! to hand to the engine's set-current call).  Entering a context yields a
//! [`ContextGuard`] remembering what was current before; releasing the
//! guard restores it.  A guard obtained by merely observing the current
//! context restores nothing.
//!
//! Each context owns a side-table ([`ContextData`]): the FIFO queue of
//! pending promise-continuation tasks and the typed user-data store.

use vstd::prelude::*;
use vstd::map::*;

use crate::handle::Handle;
use crate::store::UserStore;
use crate::value::Function;

verus! {

/// A sandboxed execution context with its own set of built-in objects and
/// functions.
#[derive(Clone, Copy, PartialEq, Eq, Structural, Debug)]
pub struct Context {
    /// The engine handle of the context.
    pub handle: Handle,
}

/// The thread's "current context" state, mirroring what the engine holds.
#[derive(Clone, Copy, PartialEq, Eq, Structural, Debug)]
pub struct ThreadState {
    /// The context current on this thread, if any.
    pub current: Option<Context>,
}

/// A guard that keeps a context current while it is held.
///
/// A guard is a scope token: it cannot be copied, and releasing it is the
/// only way to give it up.  Guards nest like a stack; releasing them out
/// of order is outside the discipline this layer defends.
#[derive(Debug)]
pub struct ContextGuard {
    /// The context that was current before this guard bound its own, and
    /// that releasing this guard makes current again.
    pub previous: Option<Context>,
    /// The context this guard holds current.
    pub current: Context,
    /// Whether releasing this guard restores `previous`: true for a guard
    /// that performed a bind, false for one that merely observed.
    pub restore: bool,
}

/// The thread state after a context is made current.
pub open spec fn bind_state(c: Context) -> ThreadState {
    ThreadState { current: Some(c) }
}

/// The guard produced by making a context current from a given state.
pub open spec fn binding_guard(s: ThreadState, c: Context) -> ContextGuard {
    ContextGuard { previous: s.current, current: c, restore: true }
}

/// The guard produced by merely observing that a context is current.
pub open spec fn observer_guard(c: Context) -> ContextGuard {
    ContextGuard { previous: None, current: c, restore: false }
}

/// The thread state after a guard is released: a binding guard restores
/// the context that was current when it was created, an observer guard
/// changes nothing.
pub open spec fn release_state(s: ThreadState, g: ContextGuard) -> ThreadState {
    if g.restore {
        ThreadState { current: g.previous }
    } else {
        s
    }
}

impl ThreadState {
    /// The state of a thread on which no context has been made current.
    pub fn new() -> (s: ThreadState)
        ensures
            s.current is None,
    {
        ThreadState { current: None }
    }
}

impl Context {
    /// Wraps a raw context handle handed back by an engine call.
    pub fn from_raw(handle: Handle) -> (c: Context)
        ensures
            c.handle == handle,
    {
        Context { handle }
    }

    /// The underlying engine handle.
    pub fn as_raw(&self) -> (h: Handle)
        ensures
            h == self.handle,
    {
        self.handle
    }

    /// Makes this context current, remembering the previously current one.
    ///
    /// The shim must hand this context to the engine's set-current call at
    /// the same moment.  The returned guard is bound to the previous
    /// state: releasing it restores exactly that state.
    pub fn make_current(&self, thread: &mut ThreadState) -> (g: ContextGuard)
        ensures
            *final(thread) == bind_state(*self),
            g == binding_guard(*old(thread), *self),
    {
        let previous = thread.current;
        thread.current = Some(*self);
        ContextGuard { previous, current: *self, restore: true }
    }

    /// Binds this context to the closure's scope: makes it current, runs
    /// the closure with the guard, and releases the guard.
    ///
    /// Whatever the closure does with its guard, the thread leaves with
    /// exactly the current context it entered with.
    pub fn exec_with<R, F: FnOnce(&ContextGuard) -> R>(
        &self,
        thread: &mut ThreadState,
        callback: F,
    ) -> (r: R)
        requires
            call_requires(callback, (&binding_guard(*old(thread), *self),)),
        ensures
            *final(thread) == *old(thread),
            call_ensures(callback, (&binding_guard(*old(thread), *self),), r),
    {
        let guard = self.make_current(thread);
        let r = callback(&guard);
        guard.release(thread);
        r
    }

    /// Runs the closure with the thread's current context, if one is
    /// current; does nothing and returns no value otherwise.
    ///
    /// This is the safe alternative to observing the current context by
    /// hand: the closure's guard is an observer, so the thread state is
    /// never changed.
    pub fn exec_with_current<R, F: FnOnce(&ContextGuard) -> R>(
        thread: &ThreadState,
        callback: F,
    ) -> (r: Option<R>)
        requires
            thread.current matches Some(c) ==> call_requires(callback, (&observer_guard(c),)),
        ensures
            match r {
                Some(out) => thread.current matches Some(c) && call_ensures(
                    callback,
                    (&observer_guard(c),),
                    out,
                ),
                None => thread.current is None,
            },
    {
        match Context::get_current(thread) {
            Some(guard) => Some(callback(&guard)),
            None => None,
        }
    }

    /// Observes the context current on this thread, if any.
    ///
    /// The returned guard restores nothing when released, in contrast to
    /// one produced by [`Context::make_current`]: it is merely a
    /// reference.  When no context is current there is no value — absence
    /// is not an error of this layer.
    pub fn get_current(thread: &ThreadState) -> (r: Option<ContextGuard>)
        ensures
            match r {
                Some(g) => thread.current == Some(g.current) && g == observer_guard(g.current),
                None => thread.current is None,
            },
    {
        match thread.current {
            Some(c) => Some(ContextGuard { previous: None, current: c, restore: false }),
            None => None,
        }
    }
}

impl ContextGuard {
    /// The guard's associated context.
    pub fn context(&self) -> (c: Context)
        ensures
            c == self.current,
    {
        self.current
    }

    /// Gives the guard up, restoring the thread state it is bound to.
    ///
    /// This models the guard going out of scope: a binding guard makes the
    /// previously current context current again (or leaves the thread with
    /// no current context), an observer guard changes nothing.  The shim
    /// must hand the restored context — or null — to the engine's
    /// set-current call whenever `restore` holds.
    pub fn release(self, thread: &mut ThreadState)
        ensures
            *final(thread) == release_state(*old(thread), self),
    {
        if self.restore {
            thread.current = self.previous;
        }
    }
}

/// Guards stack: entering context `a`, then `b`, then releasing `b`'s
/// guard makes `a` current again, and releasing `a`'s guard afterwards
/// leaves no context current.
pub proof fn lemma_guard_stacking(s0: ThreadState, a: Context, b: Context)
    requires
        s0.current is None,
    ensures
        bind_state(a).current == Some(a),
        bind_state(b).current == Some(b),
        release_state(bind_state(b), binding_guard(bind_state(a), b)).current == Some(a),
        release_state(
            release_state(bind_state(b), binding_guard(bind_state(a), b)),
            binding_guard(s0, a),
        ).current is None,
{
}

/// An observer guard is passive: releasing it leaves the thread state
/// exactly as it was.
pub proof fn lemma_observer_guard_passive(s: ThreadState, c: Context)
    ensures
        release_state(s, observer_guard(c)) == s,
{
}

/// Making a context current and releasing the guard it produced restores
/// the original thread state, whatever it was.
pub proof fn lemma_bind_release_round_trip(s: ThreadState, c: Context)
    ensures
        release_state(bind_state(c), binding_guard(s, c)) == s,
{
}

/// The side-table every context owns: the queue of pending
/// promise-continuation tasks and the typed user-data store.
///
/// The store's payload type `P` is the caller's packaging of one user
/// value (the shim uses a type-erased box and keys the store by type
/// identity, so that each distinct type holds at most one value).
#[derive(Debug)]
pub struct ContextData<P> {
    tasks: Vec<Function>,
    user_data: UserStore<P>,
}

impl<P> ContextData<P> {
    /// The queued tasks, oldest first.
    pub closed spec fn tasks_spec(self) -> Seq<Function> {
        self.tasks@
    }

    /// The user-data store's map.
    pub closed spec fn user_data_spec(self) -> Map<u64, P> {
        self.user_data.as_map()
    }

    /// The side-table's internal invariant.
    pub closed spec fn wf(self) -> bool {
        self.user_data.wf()
    }

    /// Creates the side-table a fresh context starts with: no queued
    /// tasks, no user data.
    pub fn new() -> (d: ContextData<P>)
        ensures
            d.wf(),
            d.tasks_spec() == Seq::<Function>::empty(),
            d.user_data_spec() == Map::<u64, P>::empty(),
    {
        ContextData { tasks: Vec::new(), user_data: UserStore::new() }
    }

    /// Appends a continuation task the engine scheduled for this context.
    ///
    /// This is the decision the per-context promise hook makes whenever
    /// script code schedules a continuation: the task joins the back of
    /// the queue.
    pub fn enqueue_task(&mut self, task: Function)
        ensures
            final(self).tasks_spec() == old(self).tasks_spec().push(task),
            final(self).user_data_spec() == old(self).user_data_spec(),
            final(self).wf() == old(self).wf(),
    {
        self.tasks.push(task);
    }

    /// Takes the oldest queued task, if any.
    ///
    /// Draining runs this until it returns nothing, invoking each task in
    /// between: tasks run in the order they were enqueued, and tasks
    /// enqueued while draining — by the tasks themselves — are drained
    /// too, because emptiness is re-checked after every invocation.
    pub fn take_next_task(&mut self) -> (r: Option<Function>)
        ensures
            match r {
                Some(task) => old(self).tasks_spec().len() > 0 && task == old(
                    self,
                ).tasks_spec()[0] && final(self).tasks_spec() == old(self).tasks_spec().drop_first(),
                None => old(self).tasks_spec().len() == 0 && final(self).tasks_spec() == old(
                    self,
                ).tasks_spec(),
            },
            final(self).user_data_spec() == old(self).user_data_spec(),
            final(self).wf() == old(self).wf(),
    {
        if self.tasks.len() > 0 {
            let task = self.tasks.remove(0);
            proof {
                assert(self.tasks@ =~= old(self).tasks@.drop_first());
            }
            Some(task)
        } else {
            None
        }
    }

    /// How many tasks are pending.
    pub fn pending_tasks(&self) -> (n: usize)
        ensures
            n == self.tasks_spec().len(),
    {
        self.tasks.len()
    }

    /// Stores user data under a type key, returning the value previously
    /// stored under that key, if any.  At most one value lives under each
    /// key.
    pub fn insert_user_data(&mut self, key: u64, value: P) -> (r: Option<P>)
        requires
            old(self).wf(),
        ensures
            final(self).wf(),
            final(self).user_data_spec() == old(self).user_data_spec().insert(key, value),
            final(self).tasks_spec() == old(self).tasks_spec(),
            match r {
                Some(v) => old(self).user_data_spec().dom().contains(key) && v == old(
                    self,
                ).user_data_spec()[key],
                None => !old(self).user_data_spec().dom().contains(key),
            },
    {
        self.user_data.insert(key, value)
    }

    /// Removes and returns the user data stored under a type key, if any.
    pub fn remove_user_data(&mut self, key: u64) -> (r: Option<P>)
        requires
            old(self).wf(),
        ensures
            final(self).wf(),
            final(self).user_data_spec() == old(self).user_data_spec().remove(key),
            final(self).tasks_spec() == old(self).tasks_spec(),
            match r {
                Some(v) => old(self).user_data_spec().dom().contains(key) && v == old(
                    self,
                ).user_data_spec()[key],
                None => !old(self).user_data_spec().dom().contains(key),
            },
    {
        self.user_data.remove(key)
    }

    /// Looks up the user data stored under a type key.
    pub fn get_user_data(&self, key: u64) -> (r: Option<&P>)
        requires
            self.wf(),
        ensures
            match r {
                Some(v) => self.user_data_spec().dom().contains(key) && *v
                    == self.user_data_spec()[key],
                None => !self.user_data_spec().dom().contains(key),
            },
    {
        self.user_data.get(key)
    }
}

/// Tasks leave the queue in the order they were enqueued: after enqueuing
/// onto any queue, draining yields the old tasks first, then the new one.
pub proof fn lemma_task_queue_fifo(tasks: Seq<Function>, task: Function)
    ensures
        tasks.push(task).len() == tasks.len() + 1,
        forall|i: int| 0 <= i < tasks.len() ==> tasks.push(task)[i] == tasks[i],
        tasks.push(task)[tasks.len() as int] == task,
        tasks.len() > 0 ==> tasks.push(task)[0] == tasks[0] && tasks.push(task).drop_first()
            =~= tasks.drop_first().push(task),
{
    if tasks.len() > 0 {
        assert(tasks.push(task).drop_first() =~= tasks.drop_first().push(task));
    }
}

} // verus!
