use vstd::prelude::*;

verus! {

/// Floats in one instance transform, a 4×4 matrix.
pub const MATRIX_FLOATS: usize = 16;

/// Why an instance cannot be written.
#[derive(Clone, Copy, Debug, PartialEq, Eq, Structural)]
pub enum ScatterError {
    /// The caller's transform buffer has no room left for another instance.
    CapacityExceeded,
}

/// Number of instance transforms that a buffer of `buffer_len` floats holds.
pub fn instance_capacity(buffer_len: usize) -> (r: usize)
    ensures
        r == buffer_len / MATRIX_FLOATS,
{
    buffer_len / MATRIX_FLOATS
}

/// Offset in a buffer of `buffer_len` floats at which the transform of instance `index`
/// starts; refused where the whole matrix would not fit, so nothing is written past the
/// buffer.
pub fn instance_slot(index: usize, buffer_len: usize) -> (r: Result<usize, ScatterError>)
    ensures
        (MATRIX_FLOATS * index + MATRIX_FLOATS <= buffer_len) ==> r == Ok::<usize, ScatterError>(
            (MATRIX_FLOATS * index) as usize,
        ),
        (MATRIX_FLOATS * index + MATRIX_FLOATS > buffer_len) ==> r == Err::<usize, ScatterError>(
            ScatterError::CapacityExceeded,
        ),
{
    if index < instance_capacity(buffer_len) {
        Ok(MATRIX_FLOATS * index)
    } else {
        Err(ScatterError::CapacityExceeded)
    }
}

} // verus!
