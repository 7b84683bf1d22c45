//! A short-alias resolver: aliases map to destination URLs in a table of a
//! transactional embedded key-value store (LMDB, through heed).
pub mod model;
pub mod service;
pub mod storage;
