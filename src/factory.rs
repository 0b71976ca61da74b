//! Factories: each takes its resource group from the registry once and
//! carries the bus settings its device is brought up with.

use vstd::prelude::*;
use crate::registry::{take_outcome, PeripheralManager};

verus! {

/// The registry no longer holds the group: another consumer has it.
#[derive(Debug, Clone, Copy, PartialEq, Eq, Structural)]
pub struct ResourceUnavailable;

/// I2C address of the display controller.
pub const DISPLAY_I2C_ADDRESS: u8 = 0x3c;

/// Length of the display's reset pulse, and of the wait after it, in
/// milliseconds.
pub const DISPLAY_RESET_MS: u32 = 100;

/// SPI clock of the radio bus, in kilohertz.
pub const LORA_SPI_FREQUENCY_KHZ: u32 = 100;

/// SPI mode of the radio bus.
pub const LORA_SPI_MODE: u8 = 0;

/// Brings up the display from its resource group.
pub struct DisplayFactory;

/// Brings up the radio from its resource group.
pub struct LoraFactory;

/// Bus settings of the radio.
#[derive(Debug, Clone, Copy, PartialEq, Eq, Structural)]
pub struct SpiSettings {
    pub frequency_khz: u32,
    pub mode: u8,
}

impl DisplayFactory {
    /// Takes the display group for a new display; `ResourceUnavailable` once
    /// another consumer has taken it. Only that group's slot changes.
    pub fn take_peripherals<D, L, W, S, T>(manager: &mut PeripheralManager<D, L, W, S, T>) -> (r: Result<D, ResourceUnavailable>)
        ensures
            final(manager).display_slot() == take_outcome(old(manager).display_slot()).0,
            match old(manager).display_slot() {
                Some(d) => r == Ok::<D, ResourceUnavailable>(d),
                None => r == Err::<D, ResourceUnavailable>(ResourceUnavailable),
            },
            final(manager).lora_slot() == old(manager).lora_slot(),
            final(manager).wifi_slot() == old(manager).wifi_slot(),
            final(manager).servo_slot() == old(manager).servo_slot(),
            final(manager).time_slot() == old(manager).time_slot(),
    {
        match manager.take_display_peripherals() {
            Some(d) => Ok(d),
            None => Err(ResourceUnavailable),
        }
    }

    /// I2C address of the display controller.
    pub fn i2c_address() -> (r: u8)
        ensures
            r == DISPLAY_I2C_ADDRESS,
    {
        DISPLAY_I2C_ADDRESS
    }
}

impl LoraFactory {
    /// Takes the radio group for a new radio; `ResourceUnavailable` once
    /// another consumer has taken it. Only that group's slot changes.
    pub fn take_peripherals<D, L, W, S, T>(manager: &mut PeripheralManager<D, L, W, S, T>) -> (r: Result<L, ResourceUnavailable>)
        ensures
            final(manager).lora_slot() == take_outcome(old(manager).lora_slot()).0,
            match old(manager).lora_slot() {
                Some(l) => r == Ok::<L, ResourceUnavailable>(l),
                None => r == Err::<L, ResourceUnavailable>(ResourceUnavailable),
            },
            final(manager).display_slot() == old(manager).display_slot(),
            final(manager).wifi_slot() == old(manager).wifi_slot(),
            final(manager).servo_slot() == old(manager).servo_slot(),
            final(manager).time_slot() == old(manager).time_slot(),
    {
        match manager.take_lora_peripherals() {
            Some(l) => Ok(l),
            None => Err(ResourceUnavailable),
        }
    }

    /// The radio bus: 100 kHz, mode 0.
    pub fn spi_settings() -> (r: SpiSettings)
        ensures
            r == (SpiSettings { frequency_khz: LORA_SPI_FREQUENCY_KHZ, mode: LORA_SPI_MODE }),
    {
        SpiSettings { frequency_khz: LORA_SPI_FREQUENCY_KHZ, mode: LORA_SPI_MODE }
    }
}

} // verus!
