use transparente::batch::is_batch_candidate;

#[test]
fn image_extensions_in_any_case() {
    assert!(is_batch_candidate("photo.png", "png"));
    assert!(is_batch_candidate("photo.PNG", "PNG"));
    assert!(is_batch_candidate("photo.JpEg", "JpEg"));
    assert!(is_batch_candidate("photo.jpg", "jpg"));
}

#[test]
fn other_extensions_are_skipped() {
    assert!(!is_batch_candidate("anim.gif", "gif"));
    assert!(!is_batch_candidate("photo.png.bak", "bak"));
}

#[test]
fn intermediate_files_are_skipped() {
    assert!(!is_batch_candidate("a.temp.png", "png"));
    assert!(!is_batch_candidate("a.vtrace_temp.jpg", "jpg"));
    assert!(is_batch_candidate("temp.png", "png"));
    assert!(is_batch_candidate("a.tempo.png", "png"));
}
