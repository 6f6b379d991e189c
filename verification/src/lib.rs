//! Flexbox layout trees and the code that other UI toolkits need to build them.

pub mod fmt;
pub mod config;
pub mod palette;
pub mod order;
pub mod codegen;
pub mod history;
pub mod edit;
pub mod templates;
pub mod fixtures;
pub mod naming;
pub mod text;
