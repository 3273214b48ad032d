use gles_adapter::adapter::Adapter;
use gles_adapter::version::InstanceError;

#[test]
fn test_version_parse() {
    let error = Err(InstanceError);
    assert_eq!(Adapter::parse_version("1"), error);
    assert_eq!(Adapter::parse_version("1."), error);
    assert_eq!(Adapter::parse_version("1 h3l1o. W0rld"), error);
    assert_eq!(Adapter::parse_version("1. h3l1o. W0rld"), error);
    assert_eq!(Adapter::parse_version("1.2.3"), error);
    assert_eq!(Adapter::parse_version("OpenGL ES 3.1"), Ok((3, 1)));
    assert_eq!(
        Adapter::parse_version("OpenGL ES 2.0 Google Nexus"),
        Ok((2, 0))
    );
    assert_eq!(Adapter::parse_version("GLSL ES 1.1"), Ok((1, 1)));
    assert_eq!(Adapter::parse_version("OpenGL ES GLSL ES 3.20"), Ok((3, 2)));
    assert_eq!(
        Adapter::parse_version("WebGL 2.0 (OpenGL ES 3.0 Chromium)"),
        Ok((3, 0))
    );
    assert_eq!(
        Adapter::parse_version("WebGL GLSL ES 3.00 (OpenGL ES GLSL ES 3.0 Chromium)"),
        Ok((3, 0))
    );
}

#[test]
fn marker_then_major_minor() {
    assert_eq!(Adapter::parse_version("Vendor GL ES 4.7"), Ok((4, 7)));
    assert_eq!(Adapter::parse_version("X ES 12.5 extra"), Ok((12, 5)));
    assert_eq!(Adapter::parse_version("OpenGL ES 0.0"), Ok((0, 0)));
}

#[test]
fn minor_normalization() {
    assert_eq!(Adapter::parse_version("OpenGL ES 3.05"), Ok((3, 0)));
    assert_eq!(Adapter::parse_version("OpenGL ES 3.100"), Ok((3, 1)));
    assert_eq!(Adapter::parse_version("OpenGL ES 3.2.9"), Ok((3, 2)));
    assert_eq!(Adapter::parse_version("OpenGL ES +3.+1"), Ok((3, 1)));
}

#[test]
fn malformed_versions_fail() {
    let error = Err(InstanceError);
    assert_eq!(Adapter::parse_version(""), error);
    assert_eq!(Adapter::parse_version("ES 3.0"), error);
    assert_eq!(Adapter::parse_version("OpenGL 4.6"), error);
    assert_eq!(Adapter::parse_version("OpenGL ES 3"), error);
    assert_eq!(Adapter::parse_version("OpenGL ES 3."), error);
    assert_eq!(Adapter::parse_version("OpenGL ES x.1"), error);
    assert_eq!(Adapter::parse_version("OpenGL ES 3.1x"), error);
    assert_eq!(Adapter::parse_version("OpenGL ES 256.0"), error);
    assert_eq!(Adapter::parse_version("OpenGL ES -3.0"), error);
    assert_eq!(Adapter::parse_version("OpenGL ES "), error);
}

#[test]
fn web_version_remap_edges() {
    assert_eq!(Adapter::parse_version("WebGL 1.0"), Ok((2, 0)));
    assert_eq!(Adapter::parse_version("WebGL 254.3"), Ok((255, 3)));
    assert_eq!(Adapter::parse_version("WebGL 255.0"), Err(InstanceError));
    assert_eq!(Adapter::parse_version("WebGL GLSL ES 1.0"), Ok((1, 0)));
    assert_eq!(Adapter::parse_version("WebGL x WebGL 2.0"), Ok((3, 0)));
}
