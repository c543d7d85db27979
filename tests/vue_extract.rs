use rust_code_analysis::extract_vue_sections;

#[test]
fn test_extract_simple_vue() {
    let vue_content = r#"
<template>
  <div>Hello {{ name }}</div>
</template>

<script>
export default {
  data() {
    return { name: 'World' }
  }
}
</script>

<style>
.container {
  color: blue;
}
</style>
"#;

    let sections = extract_vue_sections(vue_content.as_bytes());

    assert!(sections.template.is_some());
    assert!(sections.script.is_some());
    assert!(sections.style.is_some());

    let template = sections.template.unwrap();
    assert!(String::from_utf8_lossy(&template.content).contains("Hello"));
    assert_eq!(template.lang, None);

    let script = sections.script.unwrap();
    assert!(String::from_utf8_lossy(&script.content).contains("export default"));

    let style = sections.style.unwrap();
    assert!(String::from_utf8_lossy(&style.content).contains("color: blue"));
}

#[test]
fn test_extract_vue_with_lang_attributes() {
    let vue_content = r#"
<template lang="pug">
  div Hello
</template>

<script lang="ts">
const greeting: string = "Hello";
</script>

<style lang="scss">
$color: blue;
</style>
"#;

    let sections = extract_vue_sections(vue_content.as_bytes());

    assert_eq!(
        sections.template.as_ref().and_then(|s| s.lang.as_deref()),
        Some("pug")
    );
    assert_eq!(
        sections.script.as_ref().and_then(|s| s.lang.as_deref()),
        Some("ts")
    );
    assert_eq!(
        sections.style.as_ref().and_then(|s| s.lang.as_deref()),
        Some("scss")
    );
}

#[test]
fn test_extract_vue_with_setup() {
    let vue_content = r#"
<script setup lang="ts">
import { ref } from 'vue';
const count = ref(0);
</script>
"#;

    let sections = extract_vue_sections(vue_content.as_bytes());

    assert!(sections.script.is_some());
    let script = sections.script.unwrap();
    assert_eq!(script.lang.as_deref(), Some("ts"));
    assert!(String::from_utf8_lossy(&script.content).contains("ref"));
}

#[test]
fn sections_keep_line_and_trimmed_content() {
    let src = "a\n\n<script>\n  x = 1;  \n</script>\n";
    let sections = extract_vue_sections(src.as_bytes());
    let script = sections.script.unwrap();
    assert_eq!(script.start_line, 3);
    assert_eq!(script.content, b"x = 1;".to_vec());
    assert_eq!(script.lang, None);
    assert!(sections.template.is_none());
    assert!(sections.style.is_none());
}

#[test]
fn section_needs_content_and_closing_tag() {
    assert!(extract_vue_sections(b"<style></style>").style.is_none());
    assert!(extract_vue_sections(b"<style>a{}").style.is_none());
    assert!(extract_vue_sections(b"<styles>a</styles>").style.is_none());
    let s = extract_vue_sections(b"<style scoped lang='less'>a</style>").style.unwrap();
    assert_eq!(s.lang.as_deref(), Some("less"));
    assert_eq!(s.content, b"a".to_vec());
}

#[test]
fn empty_input_has_no_sections() {
    let sections = extract_vue_sections(b"");
    assert!(sections.template.is_none());
    assert!(sections.script.is_none());
    assert!(sections.style.is_none());
}

#[test]
fn invalid_bytes_are_decoded_lossily_and_unicode_space_is_trimmed() {
    let s = extract_vue_sections(b"<script>\xff</script>").script.unwrap();
    assert_eq!(s.content, "\u{FFFD}".as_bytes().to_vec());
    assert_eq!(s.start_line, 1);
    assert_eq!(s.lang, None);
    let s = extract_vue_sections("<style>\u{a0}a\u{3000}</style>".as_bytes()).style.unwrap();
    assert_eq!(s.content, b"a".to_vec());
}
