//! A collection of small, independent example libraries, each verified:
//! a bounded worker pool with a two-phase shutdown protocol, a blog-post
//! state machine, a cons list, a grep-style line search, and a number of
//! smaller data-type and ownership demonstrations.

pub mod advanced_functions;
pub mod beings;
pub mod blog;
pub mod cons_list;
pub mod data_types;
pub mod functional_language_features;
pub mod generics;
pub mod guess;
pub mod gui;
pub mod integer_statistics;
pub mod length;
pub mod lifetimes;
pub mod minigrep;
pub mod mock_objects;
pub mod ownership;
pub mod pool;
pub mod rectangles;
pub mod references;
pub mod restaurant;
pub mod slices;
pub mod structures;
pub mod traits;
pub mod tree;
pub mod twelve_days;
pub mod vec_wrapper;
