//! Verified core of a purpose-bound-money (PBM) payment service: ABI call
//! data for the PBM and ERC-20 contracts, Ethereum hex quantities and
//! addresses, cookie sessions, and the decision logic of the registration,
//! activation, login, payment, funding and redemption flows.
#![allow(unused_imports)]

pub mod hex;
pub mod text;
pub mod accounts;
pub mod session;
pub mod eth;
pub mod abi;
pub mod register;
pub mod messages;
pub mod activate;
pub mod grants;
pub mod tx;
pub mod login;
pub mod payment;
pub mod profile;
pub mod sms;
pub mod keys;
pub mod rpc;
pub mod request;
