//! A minimal single-owner heap allocation abstraction.
//!
//! The central type, [`boks::Boks`], exclusively owns one heap-resident value
//! and offers shared and exclusive dereference with verified contracts: every
//! read yields the owned value, and a write through the exclusive view is the
//! value observed afterwards. The allocation itself, its single release when
//! the owner is destroyed or reassigned, and the covariance and drop-check
//! behaviour of the type are delegated to the standard heap box that backs it.
//!
//! [`empty_iter::EmptyIterator`] is a small companion: a sequence producer
//! that is generic over its element type but never holds or yields a value of
//! it, and therefore carries only a covariant, drop-exempt marker.

pub mod boks;
pub mod empty_iter;
