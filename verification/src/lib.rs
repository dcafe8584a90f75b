//! Decoder for the M-Bus (Meter-Bus, EN 13757-3) wire format: from the bytes
//! of a telegram to records with units, scales and labels.
//!
//! A telegram is decoded in layers, each a function from bytes to a value:
//!
//! - [`frames`] delimits the link-layer frame and checks its checksum;
//! - [`user_data`] tells the structures of the application layer apart and
//!   reads the header of a variable data response;
//! - [`user_data::variable_user_data`] decodes the stream of records, each
//!   from a data information block ([`user_data::data_information`]), a value
//!   information block ([`user_data::value_information`], with the extensions
//!   of [`user_data::orthogonal`]) and a payload ([`user_data::payload`]).
//!
//! Every layer has an error type of its own; [`error`] gathers them in one.
//! [`extension`] reads the chains of extension bytes that data and value
//! information share, and [`radix`] holds the arithmetic of numbers that
//! arrive digit by digit.
//!
//! Every executable function carries a contract over the bytes that it is
//! given, and the contracts are proved. What is only believed is listed in
//! [`inline_bytes`]: the behaviour of the fixed-capacity vector in which names
//! and extension chains are kept.
pub mod bits;
pub mod error;
pub mod extension;
pub mod frames;
pub mod inline_bytes;
pub mod radix;
pub mod user_data;
