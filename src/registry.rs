//! Resource ownership registry: every hardware resource group is handed out
//! at most once for the lifetime of the process.

use vstd::prelude::*;

verus! {

/// What a take does to a slot holding `slot`: the slot is left empty and the
/// caller receives what it held.
pub open spec fn take_outcome<T>(slot: Option<T>) -> (Option<T>, Option<T>) {
    (None, slot)
}

/// A one-way slot: `Present(group)` until the first take, `Taken` after.
pub struct ResourceSlot<T> {
    item: Option<T>,
}

impl<T> View for ResourceSlot<T> {
    type V = Option<T>;

    closed spec fn view(&self) -> Option<T> {
        self.item
    }
}

impl<T> ResourceSlot<T> {
    /// A slot holding `item`.
    pub fn new(item: T) -> (r: ResourceSlot<T>)
        ensures
            r@ == Some(item),
    {
        ResourceSlot { item: Some(item) }
    }

    /// Hands out the group the first time and `None` every time after.
    pub fn take(&mut self) -> (r: Option<T>)
        ensures
            (final(self)@, r) == take_outcome(old(self)@),
    {
        self.item.take()
    }

    /// Whether the group is still in the slot.
    pub fn is_available(&self) -> (r: bool)
        ensures
            r == self@ is Some,
    {
        self.item.is_some()
    }
}

/// A take on a slot that has been taken once returns nothing, whatever the
/// slot first held: no group is handed out twice.
pub proof fn lemma_second_take_is_empty<T>(slot: Option<T>)
    ensures
        take_outcome(take_outcome(slot).0).1 is None,
        take_outcome(take_outcome(slot).0).0 is None,
        take_outcome(slot).1 == slot,
{
}

/// The registry of the node's hardware resource groups: the display bus and
/// reset line (`D`), the radio bus and control lines (`L`), the network radio
/// with its entropy source and timer (`W`), the servo PWM timer and pin
/// (`S`), and the scheduler's timer group (`T`).
///
/// The registry is built once from the whole peripheral set; each group can
/// then be taken once.
pub struct PeripheralManager<D, L, W, S, T> {
    display_peripherals: ResourceSlot<D>,
    lora_peripherals: ResourceSlot<L>,
    wifi_peripherals: ResourceSlot<W>,
    servo_peripherals: ResourceSlot<S>,
    time_peripherals: ResourceSlot<T>,
}

impl<D, L, W, S, T> PeripheralManager<D, L, W, S, T> {
    /// Slot of the display group.
    pub closed spec fn display_slot(&self) -> Option<D> {
        self.display_peripherals@
    }

    /// Slot of the radio group.
    pub closed spec fn lora_slot(&self) -> Option<L> {
        self.lora_peripherals@
    }

    /// Slot of the network group.
    pub closed spec fn wifi_slot(&self) -> Option<W> {
        self.wifi_peripherals@
    }

    /// Slot of the servo group.
    pub closed spec fn servo_slot(&self) -> Option<S> {
        self.servo_peripherals@
    }

    /// Slot of the scheduler timer group.
    pub closed spec fn time_slot(&self) -> Option<T> {
        self.time_peripherals@
    }

    /// A registry holding every group.
    pub fn new(display: D, lora: L, wifi: W, servo: S, time: T) -> (r: Self)
        ensures
            r.display_slot() == Some(display),
            r.lora_slot() == Some(lora),
            r.wifi_slot() == Some(wifi),
            r.servo_slot() == Some(servo),
            r.time_slot() == Some(time),
    {
        PeripheralManager {
            display_peripherals: ResourceSlot::new(display),
            lora_peripherals: ResourceSlot::new(lora),
            wifi_peripherals: ResourceSlot::new(wifi),
            servo_peripherals: ResourceSlot::new(servo),
            time_peripherals: ResourceSlot::new(time),
        }
    }

    /// Takes the display group; `None` once it has been taken.
    pub fn take_display_peripherals(&mut self) -> (r: Option<D>)
        ensures
            (final(self).display_slot(), r) == take_outcome(old(self).display_slot()),
            final(self).lora_slot() == old(self).lora_slot(),
            final(self).wifi_slot() == old(self).wifi_slot(),
            final(self).servo_slot() == old(self).servo_slot(),
            final(self).time_slot() == old(self).time_slot(),
    {
        self.display_peripherals.take()
    }

    /// Takes the radio group; `None` once it has been taken.
    pub fn take_lora_peripherals(&mut self) -> (r: Option<L>)
        ensures
            (final(self).lora_slot(), r) == take_outcome(old(self).lora_slot()),
            final(self).display_slot() == old(self).display_slot(),
            final(self).wifi_slot() == old(self).wifi_slot(),
            final(self).servo_slot() == old(self).servo_slot(),
            final(self).time_slot() == old(self).time_slot(),
    {
        self.lora_peripherals.take()
    }

    /// Takes the network group; `None` once it has been taken.
    pub fn take_wifi_peripherals(&mut self) -> (r: Option<W>)
        ensures
            (final(self).wifi_slot(), r) == take_outcome(old(self).wifi_slot()),
            final(self).display_slot() == old(self).display_slot(),
            final(self).lora_slot() == old(self).lora_slot(),
            final(self).servo_slot() == old(self).servo_slot(),
            final(self).time_slot() == old(self).time_slot(),
    {
        self.wifi_peripherals.take()
    }

    /// Takes the servo group; `None` once it has been taken.
    pub fn take_servo_peripherals(&mut self) -> (r: Option<S>)
        ensures
            (final(self).servo_slot(), r) == take_outcome(old(self).servo_slot()),
            final(self).display_slot() == old(self).display_slot(),
            final(self).lora_slot() == old(self).lora_slot(),
            final(self).wifi_slot() == old(self).wifi_slot(),
            final(self).time_slot() == old(self).time_slot(),
    {
        self.servo_peripherals.take()
    }

    /// Takes the scheduler timer group; `None` once it has been taken.
    pub fn take_time_peripherals(&mut self) -> (r: Option<T>)
        ensures
            (final(self).time_slot(), r) == take_outcome(old(self).time_slot()),
            final(self).display_slot() == old(self).display_slot(),
            final(self).lora_slot() == old(self).lora_slot(),
            final(self).wifi_slot() == old(self).wifi_slot(),
            final(self).servo_slot() == old(self).servo_slot(),
    {
        self.time_peripherals.take()
    }

    /// Takes the scheduler timer group, which must still be present: the
    /// scheduler cannot run without it, so its absence is a wiring error.
    pub fn time_per(&mut self) -> (r: T)
        requires
            old(self).time_slot() is Some,
        ensures
            Some(r) == old(self).time_slot(),
            final(self).time_slot() is None,
            final(self).display_slot() == old(self).display_slot(),
            final(self).lora_slot() == old(self).lora_slot(),
            final(self).wifi_slot() == old(self).wifi_slot(),
            final(self).servo_slot() == old(self).servo_slot(),
    {
        match self.time_peripherals.take() {
            Some(t) => t,
            None => unreached(),
        }
    }
}

/// Holder of the process-wide registry: it is built at most once, and is
/// reachable only after it has been built.
pub struct PeripheralManagerStatic<D, L, W, S, T> {
    initialized: bool,
    manager: Option<PeripheralManager<D, L, W, S, T>>,
}

impl<D, L, W, S, T> PeripheralManagerStatic<D, L, W, S, T> {
    /// The holder's invariant: it is marked initialized exactly when it holds
    /// a registry.
    pub closed spec fn wf(&self) -> bool {
        self.initialized <==> self.manager is Some
    }

    /// Whether the registry has been built.
    pub closed spec fn spec_initialized(&self) -> bool {
        self.initialized
    }

    /// The registry, once built.
    pub closed spec fn spec_manager(&self) -> Option<PeripheralManager<D, L, W, S, T>> {
        self.manager
    }

    /// An empty holder.
    pub fn new() -> (r: Self)
        ensures
            r.wf(),
            !r.spec_initialized(),
    {
        PeripheralManagerStatic { initialized: false, manager: None }
    }

    /// Whether the registry has been built.
    pub fn is_initialized(&self) -> (r: bool)
        ensures
            r == self.spec_initialized(),
    {
        self.initialized
    }

    /// Builds the registry from the whole peripheral set and returns it.
    /// Building it twice would hand out the same pins twice, so a second
    /// call is ruled out.
    pub fn init(&mut self, display: D, lora: L, wifi: W, servo: S, time: T) -> (r: &mut PeripheralManager<D, L, W, S, T>)
        requires
            old(self).wf(),
            !old(self).spec_initialized(),
        ensures
            final(self).wf(),
            final(self).spec_initialized(),
            final(self).spec_manager() == Some(*final(r)),
            r.display_slot() == Some(display),
            r.lora_slot() == Some(lora),
            r.wifi_slot() == Some(wifi),
            r.servo_slot() == Some(servo),
            r.time_slot() == Some(time),
    {
        self.initialized = true;
        self.manager = Some(PeripheralManager::new(display, lora, wifi, servo, time));
        match &mut self.manager {
            Some(m) => m,
            None => unreached(),
        }
    }

    /// The registry built by `init`.
    pub fn get(&mut self) -> (r: &mut PeripheralManager<D, L, W, S, T>)
        requires
            old(self).wf(),
            old(self).spec_initialized(),
        ensures
            final(self).wf(),
            final(self).spec_initialized(),
            Some(*r) == old(self).spec_manager(),
            final(self).spec_manager() == Some(*final(r)),
    {
        match &mut self.manager {
            Some(m) => m,
            None => unreached(),
        }
    }
}

} // verus!
