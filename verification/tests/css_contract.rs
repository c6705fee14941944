use haushalt_frontend::css_contract::{
    classes_in, frontend_root, is_checked_class, is_defined, relative, undefined_classes,
    undefined_report,
};

#[test]
fn classes_are_collected_sorted_and_once() {
    let source = r#"<div class="modal-backdrop form-input"><p class="form-input  modal-title">x</p>"#;
    assert_eq!(classes_in(source), vec!["form-input", "modal-backdrop", "modal-title"]);
}

#[test]
fn an_unterminated_attribute_ends_the_scan() {
    assert_eq!(classes_in(r#"class="a b" class="c"#), vec!["a", "b"]);
    assert!(classes_in("no attributes here").is_empty());
}

#[test]
fn a_selector_must_not_continue_the_name() {
    let stylesheet = ".modal-backdropx { } .modal-backdrop { position: fixed; }";
    assert!(is_defined(stylesheet, "modal-backdrop"));
    assert!(!is_defined(".modal-backdrop-dark {}", "modal-backdrop"));
    assert!(!is_defined(".modal_x {}", "modal"));
    assert!(is_defined(".modal", "modal"));
    assert!(!is_defined("modal {}", "modal"));
}

#[test]
fn modal_overlay_is_not_defined_by_a_backdrop_rule() {
    let stylesheet = ".modal-backdrop {\n  position: fixed;\n  z-index: 1000;\n}";
    assert!(!is_defined(stylesheet, "modal-overlay"));
    assert!(is_defined(stylesheet, "modal-backdrop"));
}

#[test]
fn only_the_checked_namespaces_count() {
    assert!(is_checked_class("modal-title"));
    assert!(is_checked_class("form-input"));
    assert!(is_checked_class("public-report-row"));
    assert!(is_checked_class("api-token-secret"));
    assert!(!is_checked_class("modal-body"));
    assert!(!is_checked_class("modal-sm"));
    assert!(!is_checked_class("btn"));
}

#[test]
fn undefined_checked_classes_are_reported() {
    let source = r#"<div class="modal-overlay modal-body btn"><h3 class="modal-title">x</h3></div>"#;
    let stylesheet = ".modal-title { font-weight: 600; }";
    assert_eq!(undefined_classes(source, stylesheet), vec!["modal-overlay".to_string()]);
    assert_eq!(
        undefined_report("src/components/category_modal.rs", "modal-overlay"),
        "src/components/category_modal.rs uses undefined .modal-overlay"
    );
}

#[test]
fn paths_are_shown_relative_to_the_frontend() {
    let root = frontend_root("/work/frontend");
    assert_eq!(root, "/work/frontend");
    assert_eq!(relative("/work/frontend/src/components/card.rs", &root), "src/components/card.rs");
    assert_eq!(relative("/elsewhere/card.rs", &root), "/elsewhere/card.rs");
    assert_eq!(relative("/work/frontendx/a.rs", &root), "/work/frontendx/a.rs");
}
