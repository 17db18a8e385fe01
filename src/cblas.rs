//! The layout and transpose flags of the CBLAS matrix interface.
use vstd::prelude::*;

verus! {

/// How a dense matrix is laid out in memory.
#[allow(non_camel_case_types)]
#[derive(Clone, Copy, Debug, PartialEq, Eq, Structural)]
pub enum CBLAS_LAYOUT {
    RowMajor,
    ColMajor,
}

/// Whether a matrix operand is used as it is or transposed.
#[allow(non_camel_case_types)]
#[derive(Clone, Copy, Debug, PartialEq, Eq, Structural)]
pub enum CBLAS_TRANSPOSE {
    NoTrans,
    Trans,
}

impl CBLAS_LAYOUT {
    /// The flag's value in the C interface.
    pub open spec fn spec_code(self) -> i32 {
        match self {
            CBLAS_LAYOUT::RowMajor => 101,
            CBLAS_LAYOUT::ColMajor => 102,
        }
    }

    pub fn code(self) -> (r: i32)
        ensures
            r == self.spec_code(),
    {
        match self {
            CBLAS_LAYOUT::RowMajor => 101,
            CBLAS_LAYOUT::ColMajor => 102,
        }
    }
}

impl CBLAS_TRANSPOSE {
    /// The flag's value in the C interface.
    pub open spec fn spec_code(self) -> i32 {
        match self {
            CBLAS_TRANSPOSE::NoTrans => 111,
            CBLAS_TRANSPOSE::Trans => 112,
        }
    }

    pub fn code(self) -> (r: i32)
        ensures
            r == self.spec_code(),
    {
        match self {
            CBLAS_TRANSPOSE::NoTrans => 111,
            CBLAS_TRANSPOSE::Trans => 112,
        }
    }
}

} // verus!
