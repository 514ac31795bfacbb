//! Safe, verified logic for a PAM module's extension layer: reading
//! host statuses, item kinds, string encoding for the C boundary,
//! conversation decisions, environment directives and log requests.
#![allow(non_camel_case_types)]

pub mod severity;
pub mod status;
pub mod items;
pub mod cstr;
pub mod ops;
pub mod conv;
pub mod env;
pub mod sealed;
