//! Model-level firmware logic for a USB debug probe.
//!
//! The probe bridges a host debugger to a target's SWD/JTAG port. Every
//! peripheral the protocol logic touches (DMA controller, shift-register
//! peripheral, UART, GPIO, USB transport) is modelled here as plain data,
//! so the sequencing rules — DMA arming order, SWD phase framing, ring-buffer
//! cursor arithmetic, the composite-device state machine — are verified.
//! A board layer applies the modelled register values to the real hardware
//! and feeds hardware events back in.

pub mod app;
pub mod clock;
pub mod dap_v2;
pub mod delay;
pub mod dfu;
pub mod dma;
pub mod gpio;
pub mod spi;
pub mod uart;
pub mod usb;
