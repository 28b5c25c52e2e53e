//! Interfaces to the board's flash and serial hardware.
use vstd::prelude::*;

use crate::status::StatusCode;

verus! {

/// What can go wrong with a flash operation.
#[derive(Copy, Clone, Debug, Eq, PartialEq, Structural)]
pub enum Error {
    /// An error occurred during the flash operation.
    FlashError,
    /// A flash memory protection violation was detected.
    FlashMemoryProtectionError,
}

/// Page-wise access to a flash device.
pub trait Flash {
    /// Type of a single flash page for the given implementation.
    type Page: Default;

    /// Read a page of flash into the buffer.
    fn read_page(&self, page_number: usize, buf: &'static mut Self::Page) -> Result<(), (StatusCode, &'static mut Self::Page)>;

    /// Write a page of flash from the buffer.
    fn write_page(&self, page_number: usize, buf: &'static mut Self::Page) -> Result<(), (StatusCode, &'static mut Self::Page)>;

    /// Erase a page of flash by setting every byte to 0xFF.
    fn erase_page(&self, page_number: usize) -> Result<(), StatusCode>;
}

/// What can go wrong with a serial transfer.
#[derive(Clone, Copy, Debug, Eq, PartialEq, Structural)]
pub enum SerialError {
    Busy,
    Size,
    NoSupport,
    Off,
    Fail,
}

/// Blocking access to a serial port.
pub trait SerialSync {
    fn initialize(&self) -> Result<(), SerialError>;

    fn uninitialize(&self) -> Result<(), SerialError>;

    fn send(&self, data: &[u8]) -> Result<(), (SerialError, &'static mut [u8])>;

    fn receive(&self, data: &'static mut [u8], num: usize) -> Result<(), (SerialError, &'static mut [u8])>;

    fn transfer(&self, data_out: &'static mut [u8], data_in: &'static mut [u8], num: usize) -> Result<
        (),
        (SerialError, &'static mut [u8], &'static mut [u8]),
    >;
}

} // verus!
