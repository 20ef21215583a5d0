//! Derivative generation and caching pipeline for a personal media library.
//!
//! Given a source media file, the library produces a bounded-size JPEG
//! representation through format-specific decode strategies with fallback
//! chains, addresses it in a content-addressed disk cache, and supplies the
//! decision logic for background workers that keep the cache warm while
//! yielding to live interactive traffic.
//!
//! The library itself never touches the filesystem, the process table or the
//! network: callers read source bytes, run external extraction tools and
//! persist cache entries, while everything that decides or computes lives
//! here, specified and verified.

pub mod cache;
pub mod cli;
pub mod keys;
pub mod locator;
pub mod media;
pub mod paths;
pub mod pipeline;
pub mod raster;
pub mod rawchain;
pub mod scale;
pub mod scheduler;
pub mod search;
pub mod strutil;
pub mod tier;
pub mod tiffconv;
