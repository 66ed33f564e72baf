//! Verified core of a BLE GATT server for the STM32WB wireless stack.
//!
//! The firmware's decisions live here: how the device addresses are derived
//! from the chip's identity registers, which command the host sends to the
//! BLE stack at each stage of bring-up, how each reply of the stack is
//! checked, and what the GATT handles of the service end up being.
//! Everything that touches the radio co-processor (sending a command,
//! awaiting its reply) is done by the caller, which feeds each reply back
//! into [`init::BleInit::advance`].

pub mod address;
pub mod event;
pub mod gatt;
pub mod command;
pub mod init;
