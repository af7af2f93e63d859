use game_of_life::template::{decimal_bytes, render_template, workgroup_token_bytes};

#[test]
fn decimal_of_single_digit() {
    assert_eq!(decimal_bytes(0), b"0".to_vec());
    assert_eq!(decimal_bytes(8), b"8".to_vec());
    assert_eq!(decimal_bytes(9), b"9".to_vec());
}

#[test]
fn decimal_of_multi_digit() {
    assert_eq!(decimal_bytes(10), b"10".to_vec());
    assert_eq!(decimal_bytes(32), b"32".to_vec());
    assert_eq!(decimal_bytes(1234), b"1234".to_vec());
    assert_eq!(decimal_bytes(4294967295), b"4294967295".to_vec());
}

#[test]
fn token_bytes_spell_the_placeholder() {
    assert_eq!(workgroup_token_bytes(), b"${WORKGROUP_SIZE}".to_vec());
}

#[test]
fn render_substitutes_one_token() {
    let out = render_template(b"x${WORKGROUP_SIZE}y", 8);
    assert_eq!(out, b"x8y".to_vec());
}

#[test]
fn render_substitutes_multi_digit_value() {
    let out = render_template(b"@workgroup_size(${WORKGROUP_SIZE}, ${WORKGROUP_SIZE})", 32);
    assert_eq!(out, b"@workgroup_size(32, 32)".to_vec());
}

#[test]
fn render_without_token_changes_nothing() {
    let source = b"fn compute() { let a = 1; }";
    let out = render_template(source, 8);
    assert_eq!(out, source.to_vec());
}

#[test]
fn render_on_empty_source_is_empty() {
    let out = render_template(b"", 8);
    assert!(out.is_empty());
}

#[test]
fn render_token_at_start_and_end() {
    assert_eq!(render_template(b"${WORKGROUP_SIZE}tail", 7), b"7tail".to_vec());
    assert_eq!(render_template(b"head${WORKGROUP_SIZE}", 7), b"head7".to_vec());
    assert_eq!(render_template(b"${WORKGROUP_SIZE}", 7), b"7".to_vec());
}

#[test]
fn render_leaves_partial_token_alone() {
    let source = b"a${WORKGROUP_SIZ}b";
    let out = render_template(source, 8);
    assert_eq!(out, source.to_vec());
}
