use real_live_wall::shader::{
    wrap_shadertoy_glsl, DEFAULT_WGSL_FS, FULLSCREEN_VS, GLSL_EPILOGUE, GLSL_PREAMBLE,
};
use real_live_wall::text::{decimal_chars, to_wide};

#[test]
fn wraps_user_code_between_preamble_and_main() {
    let user = "void mainImage(out vec4 c, in vec2 p) { c = vec4(1.0); }";
    let w = wrap_shadertoy_glsl(user);
    assert!(w.starts_with("#version 450"));
    assert!(w.starts_with(GLSL_PREAMBLE));
    assert!(w.ends_with(GLSL_EPILOGUE));
    let expected = format!(
        "{GLSL_PREAMBLE}\n// ---- user shader ----\n{user}\n// ---- end user shader ----\n{GLSL_EPILOGUE}"
    );
    assert_eq!(w, expected);
    assert!(w.contains("mainImage(color, fragCoord);"));
}

#[test]
fn builtin_sources_are_present() {
    assert!(FULLSCREEN_VS.contains("fn vs_main"));
    assert!(DEFAULT_WGSL_FS.contains("struct Uniforms"));
}

#[test]
fn utf16_with_terminator() {
    assert_eq!(to_wide(""), vec![0]);
    assert_eq!(to_wide("Ab"), vec![0x41, 0x62, 0]);
    let emoji = "a\u{1F600}";
    let mut expected: Vec<u16> = emoji.encode_utf16().collect();
    expected.push(0);
    assert_eq!(to_wide(emoji), expected);
    assert_eq!(to_wide(emoji), vec![0x61, 0xD83D, 0xDE00, 0]);
}

#[test]
fn decimal_digits() {
    let s: String = decimal_chars(0).into_iter().collect();
    assert_eq!(s, "0");
    let s: String = decimal_chars(18446744073709551615).into_iter().collect();
    assert_eq!(s, "18446744073709551615");
    let s: String = decimal_chars(4096).into_iter().collect();
    assert_eq!(s, "4096");
}
