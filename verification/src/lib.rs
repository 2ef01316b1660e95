//! Typed client-side proxy logic for a Bluetooth adapter object exposed by
//! the BlueZ daemon over D-Bus.
//!
//! The verified library holds everything that can be stated of plain values:
//! derivation of the adapter's object path, parsing of hardware addresses,
//! address types and modalias strings, decoding of variant-typed property
//! replies, construction of the `ConnectDevice` filter map, and the scan
//! that extracts device addresses from a managed-objects reply.  The bus
//! transport itself (connection handling and the asynchronous calls) lives
//! outside the library and hands it plain values.

pub mod adapter;
pub mod address;
pub mod address_type;
pub mod error;
pub mod modalias;
pub mod property;
pub mod text;
pub mod variant;
