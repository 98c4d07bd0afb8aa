use glow_bloom::shader::shader_source;

#[test]
fn version_line_precedes_body() {
    assert_eq!(shader_source("#version 330", "void main() {}"), "#version 330\nvoid main() {}");
}

#[test]
fn empty_parts() {
    assert_eq!(shader_source("", ""), "\n");
    assert_eq!(shader_source("#version 300 es", ""), "#version 300 es\n");
}
