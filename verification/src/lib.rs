//! A verified model of the ICNS (Interchain Name Service) contracts: the name
//! ownership contract, the resolver and the message types of the registrars.

pub mod assoc;
pub mod byte_order;
pub mod default_registrar;
pub mod name;
pub mod outside;
pub mod registrar;
pub mod resolver;
pub mod response;
