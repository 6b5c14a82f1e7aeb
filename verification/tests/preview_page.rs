use stu_core::item::{FileDetail, RawObject};
use stu_core::object_preview::{ObjectPreviewPage, PreviewViewState};
use stu_core::text_preview::TextPreview;

fn page() -> ObjectPreviewPage {
    let file_detail = FileDetail {
        name: "file.txt".to_string(),
        size_byte: 1024 + 10,
        last_modified: 1_704_200_462,
        e_tag: "bef684de-a260-48a4-8178-8a535ecccadb".to_string(),
        content_type: "text/plain".to_string(),
        storage_class: "STANDARD".to_string(),
        key: "file.txt".to_string(),
        s3_uri: "s3://bucket-1/file.txt".to_string(),
        arn: "arn:aws:s3:::bucket-1/file.txt".to_string(),
        object_url: "https://bucket-1.example.com/file.txt".to_string(),
    };
    let object = RawObject { bytes: b"Hello, world!".to_vec() };
    ObjectPreviewPage::new(file_detail, object, "file.txt".to_string())
}

#[test]
fn test_new_page_shows_plain_preview() {
    let page = page();
    assert_eq!(page.view_state, PreviewViewState::Plain);
    assert_eq!(page.path(), "file.txt");
    assert_eq!(page.file_detail().name, "file.txt");
    assert_eq!(page.object().bytes, b"Hello, world!".to_vec());
    assert_eq!(page.save_dialog_key_input(), None);
}

#[test]
fn test_save_dialog_opens_empty_and_closes() {
    let mut page = page();
    page.open_save_dialog();
    assert_eq!(page.save_dialog_key_input(), Some(String::new()));
    if let PreviewViewState::SaveDialog(state) = &mut page.view_state {
        state.input.push_str("copy.txt");
    }
    assert_eq!(page.save_dialog_key_input(), Some("copy.txt".to_string()));
    page.close_save_dialog();
    assert_eq!(page.view_state, PreviewViewState::Plain);
    assert_eq!(page.save_dialog_key_input(), None);
}

#[test]
fn test_helps_follow_the_dialog_state() {
    let mut page = page();
    let plain = page.helps();
    assert_eq!(plain.len(), 6);
    assert_eq!(plain[0], "Esc/Ctrl-c: Quit app");
    let plain_short = page.short_helps();
    assert_eq!(plain_short.len(), 6);
    assert_eq!(plain_short[2], ("g/G: Top/End".to_string(), 4));
    page.open_save_dialog();
    let dialog = page.helps();
    assert_eq!(dialog.len(), 3);
    assert_eq!(dialog[1], "Esc: Close save dialog");
    assert_eq!(page.short_helps().len(), 3);
}

#[test]
fn test_text_preview_header_data() {
    let preview = TextPreview::new("file.txt".to_string(), Some("ver-1".to_string()));
    assert_eq!(preview.file_name, "file.txt");
    assert_eq!(preview.file_version_id, Some("ver-1".to_string()));
}
