//! Smoke test for the version description type.

#[test]
fn there_is_bindgen_generated_code() {
    let mxl_version = mxl::VersionType {
        major: 3,
        minor: 2,
        bugfix: 1,
        ..Default::default()
    };

    println!("mxl_version: {:?}", mxl_version);
}
