use forward_mode::cblas::{CBLAS_LAYOUT, CBLAS_TRANSPOSE};

#[test]
fn flag_codes_match_the_c_interface() {
    assert_eq!(CBLAS_LAYOUT::RowMajor.code(), 101);
    assert_eq!(CBLAS_LAYOUT::ColMajor.code(), 102);
    assert_eq!(CBLAS_TRANSPOSE::NoTrans.code(), 111);
    assert_eq!(CBLAS_TRANSPOSE::Trans.code(), 112);
}

