//! Shape checking for the transformation engine's output.
//!
//! The engine hands back a tensor whose dimensions must be `[1, height,
//! width, 3]` with both extents small enough to index an image.  The numeric
//! pixel data itself is the engine's business; only the shape is checked here.

use vstd::prelude::*;

verus! {

/// Why a tensor cannot be turned back into an image.
#[derive(Debug)]
pub enum ConversionError {
    InvalidDimensions,
    InvalidDimension { dimension: String, value: u64 },
}

/// Whether `dims` has the one-image RGB shape `[1, height, width, 3]`.
pub open spec fn rgb_tensor_shape(dims: Seq<u64>) -> bool {
    dims.len() == 4 && dims[0] == 1 && dims[3] == 3
}

/// Checks that `dims` is `[1, height, width, 3]` with height and width that
/// fit an image's extents, and returns `(height, width)`.
///
/// The wrong number or placement of dimensions is `InvalidDimensions`; an
/// extent too large to fit is `InvalidDimension`, naming the offending extent
/// (height is checked first).
pub fn validate_tensor_dims(dims: &Vec<u64>) -> (r: Result<(u32, u32), ConversionError>)
    ensures
        r is Ok <==> rgb_tensor_shape(dims@) && dims@[1] <= u32::MAX && dims@[2] <= u32::MAX,
        r matches Ok(hw) ==> hw.0 == dims@[1] && hw.1 == dims@[2],
        r matches Err(e) ==> (e is InvalidDimensions <==> !rgb_tensor_shape(dims@)),
        r matches Err(ConversionError::InvalidDimension { dimension, value }) ==> {
            &&& rgb_tensor_shape(dims@)
            &&& if dims@[1] > u32::MAX {
                dimension@ == "Height"@ && value == dims@[1]
            } else {
                dimension@ == "Width"@ && value == dims@[2] && dims@[2] > u32::MAX
            }
        },
{
    if dims.len() != 4 || dims[0] != 1 || dims[3] != 3 {
        return Err(ConversionError::InvalidDimensions);
    }
    let height: u64 = dims[1];
    if height > u32::MAX as u64 {
        return Err(
            ConversionError::InvalidDimension {
                dimension: String::from_str("Height"),
                value: height,
            },
        );
    }
    let width: u64 = dims[2];
    if width > u32::MAX as u64 {
        return Err(
            ConversionError::InvalidDimension { dimension: String::from_str("Width"), value: width },
        );
    }
    Ok((height as u32, width as u32))
}

} // verus!
