use gallery_core::paths::{filter_media_files, is_image, is_no_extension, is_video};

#[test]
fn recognizes_image_extensions_case_insensitively() {
    assert!(is_image("photo.png"));
    assert!(is_image("photo.PNG"));
    assert!(is_image("shot.JpEg"));
    assert!(is_image("scan.tiff"));
    assert!(is_image("doc.jb2"));
    assert!(is_image("game.rpgmvp"));
    assert!(is_image("weird.png_"));
    assert!(is_image("/some/dir/raw.NEF"));
}

#[test]
fn rejects_unknown_or_missing_extensions_as_images() {
    assert!(!is_image("archive.tar"));
    assert!(!is_image("noext"));
    assert!(!is_image(".gitignore"));
    assert!(!is_image("dir.d/file"));
    assert!(!is_image("movie.mkv"));
}

#[test]
fn recognizes_video_extensions() {
    assert!(is_video("clip.mkv"));
    assert!(is_video("clip.MP4"));
    assert!(is_video("old.rm"));
    assert!(!is_video("photo.png"));
    assert!(!is_video("clip"));
}

#[test]
fn no_extension_detection() {
    assert!(is_no_extension("file"));
    assert!(is_no_extension("/a/b/file"));
    assert!(is_no_extension(".hidden"));
    assert!(is_no_extension("/a/.hidden"));
    assert!(!is_no_extension("file.txt"));
    // a trailing dot makes an empty extension, not a missing one
    assert!(!is_no_extension("file."));
}

#[test]
fn hidden_file_with_second_dot_has_extension() {
    assert!(is_image(".hidden.png"));
}

#[test]
fn filter_keeps_media_candidates_in_order() {
    let files = vec![
        String::from("a.png"),
        String::from("b.txt"),
        String::from("c.mkv"),
        String::from("plain"),
        String::from("d.docx"),
        String::from("e.GIF"),
    ];
    let kept = filter_media_files(files);
    assert_eq!(
        kept,
        vec![
            String::from("a.png"),
            String::from("c.mkv"),
            String::from("plain"),
            String::from("e.GIF"),
        ]
    );
}

#[test]
fn filter_of_empty_is_empty() {
    let kept = filter_media_files(Vec::new());
    assert!(kept.is_empty());
}
