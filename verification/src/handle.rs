//! The native handle and its life: acquired once, owned by one value at a
//! time, torn down once.
//!
//! A [`NativeHandle`] stands for the component that the encoder core
//! constructed. It can be neither copied nor cloned, so at any moment one value
//! owns it: first the configuration stage, then the encoder session made from
//! it. The only way out is a [`Teardown`], which names the calls that release
//! the component and is itself used up by carrying them out.

use crate::status::ErrorType;
use vstd::prelude::*;

verus! {

/// The component record behind a handle, as the core lays it out. Both
/// addresses belong to the core; this side never reads through them.
#[derive(Debug, Copy, Clone)]
pub struct ComponentType {
    /// Size of the native record.
    pub size: u32,
    /// Address of the component's private state.
    pub p_component_private: usize,
    /// Address of the application's private state.
    pub p_application_private: usize,
}

impl ComponentType {
    /// The record whose every field is zero.
    pub open spec fn spec_default() -> ComponentType {
        ComponentType { size: 0, p_component_private: 0, p_application_private: 0 }
    }
}

impl Default for ComponentType {
    /// The record whose every field is zero.
    fn default() -> (component: ComponentType)
        ensures
            component == ComponentType::spec_default(),
    {
        ComponentType { size: 0, p_component_private: 0, p_application_private: 0 }
    }
}

/// A call that takes part in releasing a component.
#[derive(Debug, Copy, Clone, Hash, PartialEq, Eq, Structural)]
pub enum TeardownCall {
    /// Deinitialize the encoder.
    Deinit,
    /// Destroy the component.
    DeinitHandle,
}

/// Exclusive ownership of one native component, identified by its address.
#[derive(Debug)]
pub struct NativeHandle {
    addr: usize,
}

impl View for NativeHandle {
    type V = usize;

    /// The address of the component.
    closed spec fn view(&self) -> usize {
        self.addr
    }
}

impl NativeHandle {
    /// Takes ownership of the component that a construction call left at
    /// `addr`. There is a handle exactly when the call reported success; on any
    /// other status nothing was constructed and nothing can be owned.
    pub fn acquire(status: ErrorType, addr: usize) -> (handle: Option<NativeHandle>)
        ensures
            handle is Some <==> status == ErrorType::ErrorNone,
            handle is Some ==> handle->0@ == addr,
    {
        match status {
            ErrorType::ErrorNone => Some(NativeHandle { addr }),
            _ => None,
        }
    }

    /// The address of the component, for the call that is about to be made.
    pub fn addr(&self) -> (addr: usize)
        ensures
            addr == self@,
    {
        self.addr
    }
}

/// The calls that release a component: `Deinit` first where the encoder was
/// initialized, then `DeinitHandle`.
pub open spec fn teardown_calls(initialized: bool) -> Seq<TeardownCall> {
    if initialized {
        seq![TeardownCall::Deinit, TeardownCall::DeinitHandle]
    } else {
        seq![TeardownCall::DeinitHandle]
    }
}

/// How often `call` occurs in `calls`.
pub open spec fn occurrences(calls: Seq<TeardownCall>, call: TeardownCall) -> nat
    decreases calls.len(),
{
    if calls.len() == 0 {
        0
    } else {
        let rest = occurrences(calls.drop_last(), call);
        if calls.last() == call {
            rest + 1
        } else {
            rest
        }
    }
}

/// A handle on its way out, with what is left to do with it.
#[derive(Debug)]
pub struct Teardown {
    handle: NativeHandle,
    initialized: bool,
}

impl Teardown {
    /// The address of the component to release.
    pub closed spec fn spec_addr(&self) -> usize {
        self.handle@
    }

    /// Whether the encoder behind the handle was initialized, so that it has to
    /// be deinitialized before the component is destroyed.
    pub closed spec fn spec_initialized(&self) -> bool {
        self.initialized
    }

    /// Ends the life of `handle`.
    pub fn new(handle: NativeHandle, initialized: bool) -> (teardown: Teardown)
        ensures
            teardown.spec_addr() == handle@,
            teardown.spec_initialized() == initialized,
    {
        Teardown { handle, initialized }
    }

    /// The address of the component to release.
    pub fn addr(&self) -> (addr: usize)
        ensures
            addr == self.spec_addr(),
    {
        self.handle.addr()
    }

    /// Whether the encoder behind the handle was initialized.
    pub fn initialized(&self) -> (initialized: bool)
        ensures
            initialized == self.spec_initialized(),
    {
        self.initialized
    }

    /// The calls to make on the component, in order. The teardown is used up:
    /// the same handle cannot be released a second time.
    pub fn calls(self) -> (plan: (usize, Vec<TeardownCall>))
        ensures
            plan.0 == self.spec_addr(),
            plan.1@ == teardown_calls(self.spec_initialized()),
    {
        let mut calls: Vec<TeardownCall> = Vec::new();
        if self.initialized {
            calls.push(TeardownCall::Deinit);
        }
        calls.push(TeardownCall::DeinitHandle);
        assert(calls@ =~= teardown_calls(self.initialized));
        (self.handle.addr, calls)
    }
}

/// A teardown destroys the component exactly once, as its last call, and
/// deinitializes the encoder exactly once before that where it was initialized
/// and not at all where it was not.
pub proof fn lemma_teardown_once(initialized: bool)
    ensures
        occurrences(teardown_calls(initialized), TeardownCall::DeinitHandle) == 1,
        occurrences(teardown_calls(initialized), TeardownCall::Deinit) == (if initialized {
            1nat
        } else {
            0nat
        }),
        teardown_calls(initialized).last() == TeardownCall::DeinitHandle,
        initialized ==> teardown_calls(initialized).first() == TeardownCall::Deinit,
{
    let calls = teardown_calls(initialized);
    if initialized {
        let first = calls.drop_last();
        assert(first =~= seq![TeardownCall::Deinit]);
        assert(first.drop_last() =~= Seq::<TeardownCall>::empty());
        reveal_with_fuel(occurrences, 3);
    } else {
        assert(calls.drop_last() =~= Seq::<TeardownCall>::empty());
        reveal_with_fuel(occurrences, 2);
    }
}

} // verus!
