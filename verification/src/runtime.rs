//! Runtime construction: attributes, memory limit, collect callback, and
//! the idle-task rate limiter.
//!
//! A runtime owns one isolated engine heap.  Its attributes are chosen
//! through a builder and are immutable after construction; the memory
//! limit and a collect callback are optional construction-time
//! configuration.  The builder computes the exact attribute mask the shim
//! hands to the engine's create call, and the built runtime reports the
//! attributes it was built with.

use vstd::prelude::*;

use crate::handle::Handle;

verus! {

/// The construction attributes of a runtime.  Each flag corresponds to one
/// bit of the mask the engine's create call takes.
#[derive(Clone, Copy, PartialEq, Eq, Structural, Debug)]
pub struct RuntimeAttributes {
    /// The runtime does no work (such as garbage collection) on background
    /// threads.
    pub disable_background_work: bool,
    /// The runtime supports reliable script interruption.
    pub allow_script_interrupt: bool,
    /// The host drives idle processing; the idle hook must be called
    /// regularly.
    pub enable_idle_processing: bool,
    /// The runtime generates no native code.
    pub disable_native_code_generation: bool,
    /// Using `eval` or the function constructor throws an exception.
    pub disable_eval: bool,
    /// All experimental script features are enabled.
    pub enable_experimental_features: bool,
    /// Setting an exception also dispatches it to an attached debugger.
    pub dispatch_set_exceptions_to_debugger: bool,
}

impl RuntimeAttributes {
    /// No attribute chosen.
    pub open spec fn none_spec() -> RuntimeAttributes {
        RuntimeAttributes {
            disable_background_work: false,
            allow_script_interrupt: false,
            enable_idle_processing: false,
            disable_native_code_generation: false,
            disable_eval: false,
            enable_experimental_features: false,
            dispatch_set_exceptions_to_debugger: false,
        }
    }

    /// No attribute chosen.
    pub fn none() -> (a: RuntimeAttributes)
        ensures
            a == RuntimeAttributes::none_spec(),
    {
        RuntimeAttributes {
            disable_background_work: false,
            allow_script_interrupt: false,
            enable_idle_processing: false,
            disable_native_code_generation: false,
            disable_eval: false,
            enable_experimental_features: false,
            dispatch_set_exceptions_to_debugger: false,
        }
    }

    /// The attribute mask these flags denote on the foreign boundary.
    pub open spec fn bits_spec(self) -> int {
        (if self.disable_background_work {
            1int
        } else {
            0int
        }) + (if self.allow_script_interrupt {
            2int
        } else {
            0int
        }) + (if self.enable_idle_processing {
            4int
        } else {
            0int
        }) + (if self.disable_native_code_generation {
            8int
        } else {
            0int
        }) + (if self.disable_eval {
            16int
        } else {
            0int
        }) + (if self.enable_experimental_features {
            32int
        } else {
            0int
        }) + (if self.dispatch_set_exceptions_to_debugger {
            64int
        } else {
            0int
        })
    }

    /// The attribute mask these flags denote on the foreign boundary.
    pub fn bits(self) -> (r: u32)
        ensures
            r == self.bits_spec(),
    {
        let mut r: u32 = 0;
        if self.disable_background_work {
            r = r + 1;
        }
        if self.allow_script_interrupt {
            r = r + 2;
        }
        if self.enable_idle_processing {
            r = r + 4;
        }
        if self.disable_native_code_generation {
            r = r + 8;
        }
        if self.disable_eval {
            r = r + 16;
        }
        if self.enable_experimental_features {
            r = r + 32;
        }
        if self.dispatch_set_exceptions_to_debugger {
            r = r + 64;
        }
        r
    }
}

/// The attribute mask is faithful: each chosen flag is recoverable from
/// the mask, so a runtime created with this mask behaves according to
/// exactly the attributes that were chosen — no flag is lost, none is
/// smuggled in, and two different choices never produce the same mask.
pub proof fn lemma_attribute_bits_faithful(a: RuntimeAttributes)
    ensures
        a.disable_background_work == (a.bits_spec() % 2 == 1),
        a.allow_script_interrupt == ((a.bits_spec() / 2) % 2 == 1),
        a.enable_idle_processing == ((a.bits_spec() / 4) % 2 == 1),
        a.disable_native_code_generation == ((a.bits_spec() / 8) % 2 == 1),
        a.disable_eval == ((a.bits_spec() / 16) % 2 == 1),
        a.enable_experimental_features == ((a.bits_spec() / 32) % 2 == 1),
        a.dispatch_set_exceptions_to_debugger == ((a.bits_spec() / 64) % 2 == 1),
        forall|b: RuntimeAttributes| b.bits_spec() == a.bits_spec() ==> b == a,
{
    assert forall|b: RuntimeAttributes| b.bits_spec() == a.bits_spec() implies b == a by {
        lemma_attribute_bits_recover(a);
        lemma_attribute_bits_recover(b);
    }
    lemma_attribute_bits_recover(a);
}

/// Each flag is recoverable from the attribute mask by arithmetic.
proof fn lemma_attribute_bits_recover(a: RuntimeAttributes)
    ensures
        a.disable_background_work == (a.bits_spec() % 2 == 1),
        a.allow_script_interrupt == ((a.bits_spec() / 2) % 2 == 1),
        a.enable_idle_processing == ((a.bits_spec() / 4) % 2 == 1),
        a.disable_native_code_generation == ((a.bits_spec() / 8) % 2 == 1),
        a.disable_eval == ((a.bits_spec() / 16) % 2 == 1),
        a.enable_experimental_features == ((a.bits_spec() / 32) % 2 == 1),
        a.dispatch_set_exceptions_to_debugger == ((a.bits_spec() / 64) % 2 == 1),
{
}

/// One recorded idle run: when it happened and how long the engine asked
/// the host to wait before the next one.
#[derive(Clone, Copy, PartialEq, Eq, Structural, Debug)]
pub struct IdleRecord {
    /// The clock reading, in milliseconds, at the last idle run.
    pub at_ms: u64,
    /// The least time, in milliseconds, that should pass until the idle
    /// hook is invoked again, as the engine reported at that run.
    pub next_tick_ms: u64,
}

/// Whether the idle hook is due at the given clock reading: always before
/// the first run, and afterwards once the engine's requested pause has
/// passed since the last run.
pub open spec fn idle_due(last: Option<IdleRecord>, now_ms: u64) -> bool {
    match last {
        None => true,
        Some(rec) => now_ms - rec.at_ms >= rec.next_tick_ms,
    }
}

/// A builder for the runtime type.
///
/// `C` is the caller's packaging of the optional collect callback; the
/// builder only carries it, and construction hands it back so the shim can
/// register it with the engine and keep it alive beside the runtime.
#[derive(Debug)]
pub struct Builder<C> {
    memory_limit: Option<usize>,
    collect_callback: Option<C>,
    attributes: RuntimeAttributes,
}

/// An isolated instance of the runtime.
#[derive(Clone, Copy, PartialEq, Eq, Structural, Debug)]
pub struct Runtime {
    /// The engine handle of the runtime.
    pub handle: Handle,
    /// The attributes the runtime was built with; immutable afterwards.
    pub attributes: RuntimeAttributes,
    /// The memory limit the runtime was built with, if any.
    pub memory_limit: Option<usize>,
    /// The last idle run, for rate limiting; nothing before the first run.
    pub last_idle: Option<IdleRecord>,
}

impl<C> Builder<C> {
    /// The memory limit this builder has configured.
    pub closed spec fn memory_limit_spec(self) -> Option<usize> {
        self.memory_limit
    }

    /// Whether this builder has a collect callback configured.
    pub closed spec fn has_collect_callback(self) -> bool {
        self.collect_callback is Some
    }

    /// The attributes this builder has configured.
    pub closed spec fn attributes_spec(self) -> RuntimeAttributes {
        self.attributes
    }

    /// Disables any work (such as garbage collection) on background
    /// threads.
    pub fn disable_background_work(self) -> (b: Builder<C>)
        ensures
            b.attributes_spec() == (RuntimeAttributes {
                disable_background_work: true,
                ..self.attributes_spec()
            }),
            b.memory_limit_spec() == self.memory_limit_spec(),
            b.has_collect_callback() == self.has_collect_callback(),
    {
        Builder {
            attributes: RuntimeAttributes { disable_background_work: true, ..self.attributes },
            ..self
        }
    }

    /// Disables `eval` and the function constructor: using them throws an
    /// exception.
    pub fn disable_eval(self) -> (b: Builder<C>)
        ensures
            b.attributes_spec() == (RuntimeAttributes {
                disable_eval: true,
                ..self.attributes_spec()
            }),
            b.memory_limit_spec() == self.memory_limit_spec(),
            b.has_collect_callback() == self.has_collect_callback(),
    {
        Builder { attributes: RuntimeAttributes { disable_eval: true, ..self.attributes }, ..self }
    }

    /// Disables just-in-time compilation.
    pub fn disable_jit(self) -> (b: Builder<C>)
        ensures
            b.attributes_spec() == (RuntimeAttributes {
                disable_native_code_generation: true,
                ..self.attributes_spec()
            }),
            b.memory_limit_spec() == self.memory_limit_spec(),
            b.has_collect_callback() == self.has_collect_callback(),
    {
        Builder {
            attributes: RuntimeAttributes {
                disable_native_code_generation: true,
                ..self.attributes
            },
            ..self
        }
    }

    /// Allows experimental script features.
    pub fn enable_experimental(self) -> (b: Builder<C>)
        ensures
            b.attributes_spec() == (RuntimeAttributes {
                enable_experimental_features: true,
                ..self.attributes_spec()
            }),
            b.memory_limit_spec() == self.memory_limit_spec(),
            b.has_collect_callback() == self.has_collect_callback(),
    {
        Builder {
            attributes: RuntimeAttributes { enable_experimental_features: true, ..self.attributes },
            ..self
        }
    }

    /// Allows script interruption.
    pub fn enable_script_interrupt(self) -> (b: Builder<C>)
        ensures
            b.attributes_spec() == (RuntimeAttributes {
                allow_script_interrupt: true,
                ..self.attributes_spec()
            }),
            b.memory_limit_spec() == self.memory_limit_spec(),
            b.has_collect_callback() == self.has_collect_callback(),
    {
        Builder {
            attributes: RuntimeAttributes { allow_script_interrupt: true, ..self.attributes },
            ..self
        }
    }

    /// Dispatches exceptions to any attached script debugger.
    pub fn dispatch_exceptions(self) -> (b: Builder<C>)
        ensures
            b.attributes_spec() == (RuntimeAttributes {
                dispatch_set_exceptions_to_debugger: true,
                ..self.attributes_spec()
            }),
            b.memory_limit_spec() == self.memory_limit_spec(),
            b.has_collect_callback() == self.has_collect_callback(),
    {
        Builder {
            attributes: RuntimeAttributes {
                dispatch_set_exceptions_to_debugger: true,
                ..self.attributes
            },
            ..self
        }
    }

    /// Enables idle processing; the idle hook must then be run regularly.
    pub fn supports_idle_tasks(self) -> (b: Builder<C>)
        ensures
            b.attributes_spec() == (RuntimeAttributes {
                enable_idle_processing: true,
                ..self.attributes_spec()
            }),
            b.memory_limit_spec() == self.memory_limit_spec(),
            b.has_collect_callback() == self.has_collect_callback(),
    {
        Builder {
            attributes: RuntimeAttributes { enable_idle_processing: true, ..self.attributes },
            ..self
        }
    }

    /// Sets the runtime's memory limit.
    pub fn memory_limit(self, limit: usize) -> (b: Builder<C>)
        ensures
            b.memory_limit_spec() == Some(limit),
            b.attributes_spec() == self.attributes_spec(),
            b.has_collect_callback() == self.has_collect_callback(),
    {
        Builder { memory_limit: Some(limit), ..self }
    }

    /// Sets a callback for when the runtime collects objects.
    pub fn collect_callback(self, callback: C) -> (b: Builder<C>)
        ensures
            b.has_collect_callback(),
            b.attributes_spec() == self.attributes_spec(),
            b.memory_limit_spec() == self.memory_limit_spec(),
    {
        Builder { collect_callback: Some(callback), ..self }
    }

    /// The attribute mask to hand to the engine's create call for this
    /// builder's configuration.
    pub fn attribute_bits(&self) -> (r: u32)
        ensures
            r == self.attributes_spec().bits_spec(),
    {
        self.attributes.bits()
    }

    /// Creates the runtime record for the engine handle the shim obtained
    /// with this builder's attribute mask, and hands the configured
    /// collect callback back for the shim to register and keep alive.
    ///
    /// The runtime reports exactly the attributes and memory limit this
    /// builder configured, and starts with no idle run recorded.
    pub fn build(self, handle: Handle) -> (r: (Runtime, Option<C>))
        ensures
            r.0 == (Runtime {
                handle,
                attributes: self.attributes_spec(),
                memory_limit: self.memory_limit_spec(),
                last_idle: None,
            }),
            r.1 is Some <==> self.has_collect_callback(),
    {
        let runtime = Runtime {
            handle,
            attributes: self.attributes,
            memory_limit: self.memory_limit,
            last_idle: None,
        };
        (runtime, self.collect_callback)
    }
}

impl Runtime {
    /// Returns a runtime builder with nothing configured.
    pub fn builder<C>() -> (b: Builder<C>)
        ensures
            b.attributes_spec() == RuntimeAttributes::none_spec(),
            b.memory_limit_spec() is None,
            !b.has_collect_callback(),
    {
        Builder {
            memory_limit: None,
            collect_callback: None,
            attributes: RuntimeAttributes::none(),
        }
    }

    /// The underlying engine handle.
    pub fn as_raw(&self) -> (h: Handle)
        ensures
            h == self.handle,
    {
        self.handle
    }

    /// The attributes the runtime was built with.
    pub fn attributes(&self) -> (a: RuntimeAttributes)
        ensures
            a == self.attributes,
    {
        self.attributes
    }

    /// Whether the idle hook is due at the given monotone clock reading:
    /// always before the first run, and afterwards exactly once the pause
    /// the engine asked for has passed since the last run.
    pub fn should_run_idle(&self, now_ms: u64) -> (r: bool)
        requires
            self.last_idle matches Some(rec) ==> now_ms >= rec.at_ms,
        ensures
            r == idle_due(self.last_idle, now_ms),
    {
        match self.last_idle {
            None => true,
            Some(rec) => now_ms - rec.at_ms >= rec.next_tick_ms,
        }
    }

    /// Records that the idle hook ran now and that the engine asked for
    /// the given pause until the next run.  Nothing else changes.
    pub fn record_idle_run(&mut self, now_ms: u64, next_tick_ms: u64)
        ensures
            *final(self) == (Runtime {
                last_idle: Some(IdleRecord { at_ms: now_ms, next_tick_ms }),
                ..*old(self)
            }),
    {
        self.last_idle = Some(IdleRecord { at_ms: now_ms, next_tick_ms });
    }
}

/// A runtime built from a builder reports exactly the attributes the
/// builder configured, whatever combination was chosen.
pub proof fn lemma_runtime_reports_built_attributes(
    attributes: RuntimeAttributes,
    memory_limit: Option<usize>,
    handle: Handle,
)
    ensures
        (Runtime { handle, attributes, memory_limit, last_idle: None }).attributes == attributes,
        (Runtime { handle, attributes, memory_limit, last_idle: None }).memory_limit
            == memory_limit,
{
}

/// Before any idle run the hook is always due; directly after a run that
/// asked for a positive pause it is not due until that pause has passed,
/// and it becomes due again as soon as the pause has passed.
pub proof fn lemma_idle_rate_limit(run_ms: u64, next_tick_ms: u64, now_ms: u64)
    requires
        now_ms >= run_ms,
    ensures
        idle_due(None, now_ms),
        idle_due(Some(IdleRecord { at_ms: run_ms, next_tick_ms }), now_ms) <==> now_ms - run_ms
            >= next_tick_ms,
{
}

} // verus!
