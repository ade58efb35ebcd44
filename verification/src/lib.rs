//! Core coordination logic for a battery-powered, network-connected
//! e-paper picture frame.
//!
//! The crate holds the event-driven orchestration subsystem of the device:
//! the bounded event queue and single-slot wake signals that the tasks use to
//! talk to each other, the shared application state record, the orchestrator's
//! dispatch table, the interruptible periodic scheduler, the network-connection
//! lifecycle decisions, the button-debounce state machine, the battery
//! sampling filter, and the battery-percentage overlay drawn onto the image.
//!
//! Hardware access (GPIO, ADC, the radio, the panel, HTTP transport) and the
//! async executor that suspends tasks are kept outside this crate; the
//! functions here take the values those drivers produce and return the
//! decisions and data the drivers act on.

pub mod battery;
pub mod buttons;
pub mod config;
pub mod display;
pub mod events;
pub mod network;
pub mod orchestrator;
pub mod scheduler;
pub mod state;
pub mod wake;
