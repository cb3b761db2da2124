//! Locating and fetching photometric (IES) files from lighting makers' web
//! catalogs: the text rules each maker needs, the choice of one file out of an
//! archive, the registry of makers, and the step machines that drive a single
//! download and a whole batch. Network and disk access stay with the caller,
//! which performs each request that a machine hands out and reports back.

pub mod archive;
pub mod batch;
pub mod koizumi;
pub mod pattern;
pub mod provider;
pub mod registry;
pub mod session;
pub mod text;
pub mod tokistar;
pub mod unpack;
