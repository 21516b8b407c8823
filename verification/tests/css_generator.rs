use rolldown_resolver::css_generator::CssModule;
use rolldown_resolver::CssGenerator;

fn module(exec_order: u32, source: &str) -> CssModule {
    CssModule { exec_order, source: source.to_string() }
}

#[test]
fn chunk_without_css_has_no_stylesheet() {
    assert_eq!(CssGenerator::instantiate_chunk(&vec![]), None);
}

#[test]
fn single_module_ends_with_a_line_break() {
    let content = CssGenerator::instantiate_chunk(&vec![module(7, "a{}")]);
    assert_eq!(content, Some("a{}\n".to_string()));
}

#[test]
fn modules_come_in_execution_order() {
    let modules = vec![module(3, "c{}"), module(1, "a{}"), module(2, "b{}")];
    let content = CssGenerator::instantiate_chunk(&modules);
    assert_eq!(content, Some("a{}\nb{}\nc{}\n".to_string()));
}

#[test]
fn modules_of_one_order_keep_their_place() {
    let modules =
        vec![module(2, "x"), module(1, "first"), module(2, "y"), module(1, "second"), module(2, "z")];
    let content = CssGenerator::instantiate_chunk(&modules);
    assert_eq!(content, Some("first\nsecond\nx\ny\nz\n".to_string()));
}

#[test]
fn empty_sources_still_get_their_line_break() {
    let modules = vec![module(0, ""), module(u32::MAX, "end"), module(0, "")];
    assert_eq!(CssGenerator::instantiate_chunk(&modules), Some("\n\nend\n".to_string()));
}

#[test]
fn sorted_input_is_unchanged() {
    let modules = vec![module(1, "a"), module(2, "b"), module(3, "c"), module(4, "d")];
    assert_eq!(CssGenerator::instantiate_chunk(&modules), Some("a\nb\nc\nd\n".to_string()));
    let modules = vec![module(4, "d"), module(3, "c"), module(2, "b"), module(1, "a")];
    assert_eq!(CssGenerator::instantiate_chunk(&modules), Some("a\nb\nc\nd\n".to_string()));
}

#[test]
fn file_dir_is_the_parent_of_the_file_under_the_output_directory() {
    let dir = CssGenerator::file_dir("/proj", "dist", "assets/main.css");
    assert_eq!(dir, Some("/proj/dist/assets".to_string()));
    let dir = CssGenerator::file_dir("/proj", "dist", "main.css");
    assert_eq!(dir, Some("/proj/dist".to_string()));
    let dir = CssGenerator::file_dir("/proj", "/out", "main.css");
    assert_eq!(dir, Some("/out".to_string()));
}

#[test]
fn file_dir_of_a_root_is_none() {
    assert_eq!(CssGenerator::file_dir("/proj", "dist", "/"), None);
    assert_eq!(CssGenerator::file_dir("", "", ""), None);
}

#[test]
fn each_order_keeps_the_sequence_of_the_list() {
    let modules = vec![
        module(5, "e1"),
        module(1, "a1"),
        module(5, "e2"),
        module(3, "c1"),
        module(1, "a2"),
        module(5, "e3"),
        module(3, "c2"),
    ];
    let content = CssGenerator::instantiate_chunk(&modules);
    assert_eq!(content, Some("a1\na2\nc1\nc2\ne1\ne2\ne3\n".to_string()));
}
