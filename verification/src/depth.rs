//! The `Depth` request header: shallow versus recursive collection delete.

use vstd::prelude::*;

use crate::status::STATUS_BAD_REQUEST;

verus! {

/// Whether a collection delete is shallow (`Zero`: succeeds only on an
/// empty collection) or recursive (`Infinity`).
#[derive(Clone, Copy, Debug, PartialEq, Eq, Structural)]
pub enum DepthSpec {
    Zero,
    Infinity,
}

/// What parsing the `Depth` header value owes: an absent header or
/// `infinity` means recursive, `0` means shallow, anything else is
/// rejected as a bad request.
pub open spec fn parse_depth_spec(h: Option<Seq<char>>) -> Result<DepthSpec, u16> {
    match h {
        Option::None => Result::Ok(DepthSpec::Infinity),
        Option::Some(s) => if s == "infinity"@ {
            Result::Ok(DepthSpec::Infinity)
        } else if s == "0"@ {
            Result::Ok(DepthSpec::Zero)
        } else {
            Result::Err(STATUS_BAD_REQUEST)
        },
    }
}

/// Parses the `Depth` header value, rejecting any unsupported value
/// before any filesystem access.
pub fn parse_depth(h: Option<&String>) -> (r: Result<DepthSpec, u16>)
    ensures
        r == parse_depth_spec(match h {
            Option::Some(s) => Option::Some(s@),
            Option::None => Option::None,
        }),
{
    match h {
        Option::None => Result::Ok(DepthSpec::Infinity),
        Option::Some(s) => {
            let infinity: String = "infinity".to_owned();
            let zero: String = "0".to_owned();
            if *s == infinity {
                Result::Ok(DepthSpec::Infinity)
            } else if *s == zero {
                Result::Ok(DepthSpec::Zero)
            } else {
                Result::Err(STATUS_BAD_REQUEST)
            }
        },
    }
}

} // verus!
