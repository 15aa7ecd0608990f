//! Write-once bindings of the bot's services.

use vstd::prelude::*;

verus! {

/// Why a binding could not be made or read.
#[derive(Debug, Clone, Copy, PartialEq, Eq, Structural)]
pub enum RegistryError {
    /// The slot already holds an implementation.
    AlreadyBound,
    /// The slot holds no implementation yet.
    Unbound,
}

/// A place for one implementation of a service. It starts empty, can be
/// filled once and is never changed after that.
pub struct Slot<T> {
    value: Option<T>,
}

impl<T> View for Slot<T> {
    type V = Option<T>;

    closed spec fn view(&self) -> Option<T> {
        self.value
    }
}

/// What a slot holds after an attempt to fill it with `value`: what it held
/// before, or `value` where it held nothing.
pub open spec fn after_bind<T>(before: Option<T>, value: T) -> Option<T> {
    match before {
        Some(_) => before,
        None => Some(value),
    }
}

impl<T> Slot<T> {
    /// An empty slot.
    pub fn new() -> (slot: Self)
        ensures
            slot@ is None,
    {
        Slot { value: None }
    }

    /// Whether the slot holds an implementation.
    pub fn is_bound(&self) -> (bound: bool)
        ensures
            bound == (self@ is Some),
    {
        self.value.is_some()
    }

    /// Fills an empty slot with `value`. A slot that is filled already
    /// refuses and stays as it is.
    pub fn bind(&mut self, value: T) -> (outcome: Result<(), RegistryError>)
        ensures
            final(self)@ == after_bind(old(self)@, value),
            outcome is Ok <==> old(self)@ is None,
            outcome is Err ==> outcome == Err::<(), RegistryError>(RegistryError::AlreadyBound),
    {
        if self.value.is_some() {
            Err(RegistryError::AlreadyBound)
        } else {
            self.value = Some(value);
            Ok(())
        }
    }

    /// The implementation that the slot holds; an error while it holds none.
    pub fn get(&self) -> (outcome: Result<&T, RegistryError>)
        ensures
            match outcome {
                Ok(value) => self@ == Some(*value),
                Err(e) => self@ is None && e == RegistryError::Unbound,
            },
    {
        match &self.value {
            Some(value) => Ok(value),
            None => Err(RegistryError::Unbound),
        }
    }
}

/// The four services of the bot, each in a slot of its own: chat transport,
/// recipient store, language model and weather service.
pub struct Capabilities<P, D, A, W> {
    pub platform: Slot<P>,
    pub database: Slot<D>,
    pub ai: Slot<A>,
    pub weather: Slot<W>,
}

impl<P, D, A, W> Capabilities<P, D, A, W> {
    /// A registry in which nothing is bound.
    pub fn new() -> (registry: Self)
        ensures
            registry.platform@ is None,
            registry.database@ is None,
            registry.ai@ is None,
            registry.weather@ is None,
    {
        Capabilities {
            platform: Slot::new(),
            database: Slot::new(),
            ai: Slot::new(),
            weather: Slot::new(),
        }
    }

    /// Every service is bound.
    pub open spec fn complete(&self) -> bool {
        &&& self.platform@ is Some
        &&& self.database@ is Some
        &&& self.ai@ is Some
        &&& self.weather@ is Some
    }

    /// Whether every service is bound.
    pub fn is_complete(&self) -> (ready: bool)
        ensures
            ready == self.complete(),
    {
        self.platform.is_bound() && self.database.is_bound() && self.ai.is_bound()
            && self.weather.is_bound()
    }
}

/// Of two attempts to fill an empty slot the first one stays: the second
/// changes nothing.
pub proof fn lemma_first_binding_stays<T>(first: T, second: T)
    ensures
        after_bind(after_bind(None, first), second) == Some(first),
{
}

/// A filled slot is the same after any attempt to fill it.
pub proof fn lemma_bound_slot_is_fixed<T>(before: Option<T>, value: T)
    requires
        before is Some,
    ensures
        after_bind(before, value) == before,
{
}

} // verus!
