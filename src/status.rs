use vstd::prelude::*;
use crate::error::{error_of_code, is_status_code, OpusFileError, OpusFileResult};

verus! {

/// The link index that the engine reads for an optional link: the index itself,
/// or -1, the engine's sentinel for the current link or the whole file.
pub open spec fn spec_link_arg(li: Option<i32>) -> int {
    match li {
        Some(i) => i as int,
        None => -1,
    }
}

/// Translates an optional link index into the engine's argument.
pub fn link_arg(li: Option<i32>) -> (r: i32)
    ensures
        r as int == spec_link_arg(li),
{
    match li {
        Some(i) => i,
        None => -1,
    }
}

/// Surfaces a 64-bit engine answer (a total, a position) as a value or an error.
pub fn result_from_i64(v: i64) -> (r: OpusFileResult<i64>)
    requires
        v >= 0 || is_status_code(v as int),
    ensures
        r matches Ok(n) ==> v >= 0 && n == v,
        r matches Err(e) ==> v < 0 && Some(e) == error_of_code(v as int),
        r.is_ok() <==> v >= 0,
{
    if v < 0 {
        match OpusFileError::from_code(v) {
            Some(e) => Err(e),
            None => Err(OpusFileError::False),
        }
    } else {
        Ok(v)
    }
}

/// Surfaces a 32-bit engine answer (a sample count, a bitrate, a link index) as
/// a value or an error.
pub fn result_from_i32(v: i32) -> (r: OpusFileResult<i32>)
    requires
        v >= 0 || is_status_code(v as int),
    ensures
        r matches Ok(n) ==> v >= 0 && n == v,
        r matches Err(e) ==> v < 0 && Some(e) == error_of_code(v as int),
        r.is_ok() <==> v >= 0,
{
    if v < 0 {
        match OpusFileError::from_code(v as i64) {
            Some(e) => Err(e),
            None => Err(OpusFileError::False),
        }
    } else {
        Ok(v)
    }
}

/// Surfaces the status of a seek: success on 0, else the error its code names.
pub fn result_from_seek(status: i32) -> (r: OpusFileResult<()>)
    requires
        status == 0 || is_status_code(status as int),
    ensures
        r.is_ok() <==> status == 0,
        r matches Err(e) ==> Some(e) == error_of_code(status as int),
{
    if status == 0 {
        Ok(())
    } else {
        match OpusFileError::from_code(status as i64) {
            Some(e) => Err(e),
            None => Err(OpusFileError::False),
        }
    }
}

} // verus!
