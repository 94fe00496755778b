//! Runtime checks of the filter groups and the extension check.

use policy_shell::filters::{
    document_filter_extensions, document_filter_name, image_filter_extensions, image_filter_name,
    path_has_extension, path_matches_filters,
};

#[test]
fn document_group_is_pdf() {
    assert_eq!(document_filter_name(), "PDF Documents");
    assert_eq!(document_filter_extensions(), vec!["pdf"]);
}

#[test]
fn image_group_lists_the_six_image_extensions() {
    assert_eq!(image_filter_name(), "Images");
    assert_eq!(
        image_filter_extensions(),
        vec!["png", "jpg", "jpeg", "heic", "tiff", "webp"]
    );
}

#[test]
fn every_supported_extension_matches() {
    assert!(path_matches_filters("/tmp/doc.pdf"));
    assert!(path_matches_filters("/home/user/photo.png"));
    assert!(path_matches_filters("scan.jpg"));
    assert!(path_matches_filters("scan.jpeg"));
    assert!(path_matches_filters("shot.heic"));
    assert!(path_matches_filters("page.tiff"));
    assert!(path_matches_filters("img.webp"));
}

#[test]
fn unsupported_paths_do_not_match() {
    assert!(!path_matches_filters("notes.txt"));
    assert!(!path_matches_filters("pdf"));
    assert!(!path_matches_filters("archive.pdfx"));
    assert!(!path_matches_filters("no_extension"));
    assert!(!path_matches_filters(""));
}

#[test]
fn extension_check_needs_the_dot() {
    assert!(path_has_extension("a.pdf", "pdf"));
    assert!(path_has_extension(".pdf", "pdf"));
    assert!(!path_has_extension("apdf", "pdf"));
    assert!(!path_has_extension("pdf", "pdf"));
}

#[test]
fn extension_check_is_exact() {
    assert!(!path_has_extension("a.pd", "pdf"));
    assert!(!path_has_extension("a.pdff", "pdf"));
    assert!(!path_has_extension("a.PDF", "pdf"));
    assert!(path_has_extension("b.tar.pdf", "pdf"));
}
