//! The pass pipeline: an ordered sequence of independent, composable passes,
//! each total over the bodies it targets.  A pass must not change what it
//! does not recognize, and treats opaque (error) declarations as inert.

pub mod ctx;
pub mod inline_local_panic_functions;
pub mod insert_assign_return_unit;
pub mod reconstruct_asserts;
pub mod simplify_constants;
pub mod ops_to_function_calls;
pub mod pipeline;
