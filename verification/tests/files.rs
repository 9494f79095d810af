use std::path::{Component, Path};

use picker::dynamic_picker::DynamicPicker;
use picker::file_picker::{FilePicker, IdleTarget};
use picker::graphics::{Position, Rect};
use picker::input::{Command, Event, KeyCode, KeyEvent, KeyModifiers};
use picker::item::{Item, Span};
use picker::path::{FilePath, PathComponent};
use picker::preview::{
    align_document, judge_contents, judge_file, CachedPreview, DocumentId, FileProbe, FileVerdict,
    PathOrId, Preview, PreviewContents, MAX_FILE_SIZE_FOR_PREVIEW,
};

type Files = FilePicker<String, (), &'static str>;

fn named(name: &str) -> Item<String, ()> {
    Item {
        value: name.to_string(),
        label: vec![Span { content: name.to_string(), style: () }],
        filter_text: name.to_string(),
        sort_text: name.to_string(),
    }
}

fn files(names: &[&str]) -> Files {
    FilePicker::new(names.iter().map(|name| named(name)).collect())
}

fn path(text: &str) -> FilePath {
    let components = Path::new(text)
        .components()
        .map(|component| match component {
            Component::Prefix(prefix) => {
                PathComponent::Prefix(prefix.as_os_str().as_encoded_bytes().to_vec())
            }
            Component::RootDir => PathComponent::RootDir,
            Component::CurDir => PathComponent::CurDir,
            Component::ParentDir => PathComponent::ParentDir,
            Component::Normal(name) => PathComponent::Normal(name.as_encoded_bytes().to_vec()),
        })
        .collect();
    FilePath { components }
}

fn probe(size: u64, head: &[u8]) -> Option<FileProbe> {
    Some(FileProbe { size, head: head.to_vec() })
}

#[test]
fn text_is_opened() {
    assert_eq!(judge_file(&probe(5, b"hello")), FileVerdict::Open);
    assert_eq!(judge_file(&probe(0, b"")), FileVerdict::Open);
    assert_eq!(
        judge_file(&probe(MAX_FILE_SIZE_FOR_PREVIEW, b"hello")),
        FileVerdict::Open
    );
}

#[test]
fn large_files_are_not_opened() {
    assert_eq!(
        judge_file(&probe(MAX_FILE_SIZE_FOR_PREVIEW + 1, b"hello")),
        FileVerdict::LargeFile
    );
    assert_eq!(judge_contents(false, 10485761), FileVerdict::LargeFile);
}

#[test]
fn binary_files_are_not_opened() {
    assert_eq!(judge_file(&probe(3, b"a\0b")), FileVerdict::Binary);
    assert_eq!(judge_file(&probe(9, b"%PDF-1.4\n")), FileVerdict::Binary);
    assert_eq!(judge_file(&probe(4, b"\x89PNG")), FileVerdict::Binary);
    assert_eq!(
        judge_file(&probe(MAX_FILE_SIZE_FOR_PREVIEW + 1, b"a\0b")),
        FileVerdict::Binary
    );
    assert_eq!(judge_contents(true, 0), FileVerdict::Binary);
}

#[test]
fn byte_order_marks_mean_text() {
    assert_eq!(judge_file(&probe(4, b"\xff\xfea\0")), FileVerdict::Open);
    assert_eq!(judge_file(&probe(4, b"\xfe\xff\0a")), FileVerdict::Open);
    assert_eq!(judge_file(&probe(5, b"\xef\xbb\xbf\0a")), FileVerdict::Open);
    assert_eq!(judge_file(&probe(8, b"\0\0\xfe\xff\0\0\0a")), FileVerdict::Open);
    assert_eq!(judge_file(&probe(8, b"\xff\xfe\0\0a\0\0\0")), FileVerdict::Open);
}

#[test]
fn only_the_first_bytes_are_searched() {
    let mut head = vec![b'a'; 1025];
    head[1024] = 0;
    assert_eq!(judge_file(&probe(1025, &head)), FileVerdict::Open);
    head[1023] = 0;
    assert_eq!(judge_file(&probe(1025, &head)), FileVerdict::Binary);
}

#[test]
fn unreadable_files_are_not_found() {
    assert_eq!(judge_file(&None), FileVerdict::NotFound);
}

#[test]
fn previews_are_remembered() {
    let mut picker = files(&["a"]);
    let id = PathOrId::from(path("/a"));
    assert!(picker.get_preview(&id, None).is_none());
    picker.load_preview(path("/a"), FileVerdict::Open, Some("contents"));
    picker.load_preview(path("/b"), FileVerdict::Binary, None);
    picker.load_preview(path("/c"), FileVerdict::Open, None);
    picker.load_preview(path("/d"), FileVerdict::LargeFile, None);
    let preview = picker.get_preview(&id, None).unwrap();
    assert_eq!(preview.document(), Some(&"contents"));
    assert_eq!(preview.placeholder(), "<File preview>");
    let placeholder = |name: &str| {
        let preview = picker.get_preview(&PathOrId::Path(path(name)), None).unwrap();
        assert!(preview.document().is_none());
        preview.placeholder()
    };
    assert_eq!(placeholder("/b"), "<Binary file>");
    assert_eq!(placeholder("/c"), "<File not found>");
    assert_eq!(placeholder("/d"), "<File too large to preview>");
    assert!(picker.get_preview(&PathOrId::Path(path("/e")), None).is_none());
    picker.load_preview(path("/b"), FileVerdict::Open, Some("later"));
    let preview = picker.get_preview(&PathOrId::Path(path("/b")), None).unwrap();
    assert_eq!(preview.document(), Some(&"later"));
}

#[test]
fn paths_are_compared_by_component() {
    let mut picker = files(&["a"]);
    picker.load_preview(path("/a/b"), FileVerdict::Binary, None);
    for same in ["/a/b", "/a/b/", "/a//b", "/a/./b"] {
        let preview = picker.get_preview(&PathOrId::Path(path(same)), None).unwrap();
        assert_eq!(preview.placeholder(), "<Binary file>");
    }
    for other in ["/a/b/..", "a/b", "/a", "/a/bc", "/A/b"] {
        assert!(picker.get_preview(&PathOrId::Path(path(other)), None).is_none());
    }
    picker.load_preview(path("/a/b/"), FileVerdict::LargeFile, None);
    let preview = picker.get_preview(&PathOrId::Path(path("/a/b")), None).unwrap();
    assert_eq!(preview.placeholder(), "<File too large to preview>");
}

#[test]
fn probes_decide_what_is_remembered() {
    let mut picker = files(&["a"]);
    picker.load_file(path("/text"), &probe(5, b"hello"), Some("contents"));
    picker.load_file(path("/closed"), &probe(5, b"hello"), None);
    picker.load_file(path("/binary"), &probe(3, b"a\0b"), Some("unused"));
    picker.load_file(path("/large"), &probe(MAX_FILE_SIZE_FOR_PREVIEW + 1, b"a"), None);
    picker.load_file(path("/gone"), &None, None);
    let shown = |name: &str| {
        let preview = picker.get_preview(&PathOrId::Path(path(name)), None).unwrap();
        (preview.document().copied(), preview.placeholder())
    };
    assert_eq!(shown("/text"), (Some("contents"), "<File preview>"));
    assert_eq!(shown("/closed"), (None, "<File not found>"));
    assert_eq!(shown("/binary"), (None, "<Binary file>"));
    assert_eq!(shown("/large"), (None, "<File too large to preview>"));
    assert_eq!(shown("/gone"), (None, "<File not found>"));
}

#[test]
fn open_documents_come_first() {
    let mut picker = files(&["a"]);
    picker.load_preview(path("/a"), FileVerdict::Binary, None);
    let document = "in the editor";
    let preview = picker.get_preview(&PathOrId::Path(path("/a")), Some(&document)).unwrap();
    assert_eq!(preview.document(), Some(&"in the editor"));
    let id = PathOrId::from(DocumentId(3));
    let preview = picker.get_preview(&id, Some(&document)).unwrap();
    assert_eq!(preview.placeholder(), "<File preview>");
}

#[test]
fn selection_without_a_location() {
    let picker = files(&["a"]);
    assert_eq!(picker.current_file::<()>(None, Ok(path("/a"))), None);
    let nothing = files(&[]);
    let location = Some((PathOrId::Id(DocumentId(1)), None));
    assert_eq!(nothing.current_file::<()>(location, Err(())), None);
}

#[test]
fn selection_in_a_file() {
    let picker = files(&["a"]);
    let location = || Some((PathOrId::Path(path("a")), Some((3, 4))));
    assert_eq!(
        picker.current_file::<()>(location(), Ok(path("/a"))),
        Some((PathOrId::Path(path("/a")), Some((3, 4))))
    );
    assert_eq!(picker.current_file(location(), Err("gone")), None);
    let location = Some((PathOrId::Id(DocumentId(1)), None));
    assert_eq!(
        picker.current_file(location, Err("no path")),
        Some((PathOrId::Id(DocumentId(1)), None))
    );
}

#[test]
fn canonical_paths() {
    let canonical = PathOrId::Path(path("a")).get_canonicalized::<()>(Ok(path("/a")));
    assert_eq!(canonical, Ok(PathOrId::Path(path("/a"))));
    let failed = PathOrId::Path(path("a")).get_canonicalized(Err("gone"));
    assert_eq!(failed, Err("gone"));
    let id = PathOrId::Id(DocumentId(2)).get_canonicalized(Err("gone"));
    assert_eq!(id, Ok(PathOrId::Id(DocumentId(2))));
}

#[test]
fn idle_documents() {
    let mut picker = files(&["a"]);
    picker.load_preview(path("/a"), FileVerdict::Open, Some("contents"));
    picker.load_preview(path("/b"), FileVerdict::Binary, None);
    let at = |name: &str| Some((PathOrId::Path(path(name)), None));
    assert_eq!(picker.handle_idle_timeout(None), IdleTarget::Nothing);
    assert_eq!(picker.handle_idle_timeout(at("/a")), IdleTarget::Cached(path("/a")));
    assert_eq!(picker.handle_idle_timeout(at("/b")), IdleTarget::Nothing);
    assert_eq!(picker.handle_idle_timeout(at("/c")), IdleTarget::Nothing);
    assert_eq!(
        picker.handle_idle_timeout(Some((PathOrId::Id(DocumentId(7)), None))),
        IdleTarget::Editor(DocumentId(7))
    );
    assert!(IdleTarget::Editor(DocumentId(7)).wants_language(false));
    assert!(!IdleTarget::Editor(DocumentId(7)).wants_language(true));
    assert!(!IdleTarget::Nothing.wants_language(false));
    *picker.cached_document_mut(&path("/a")).unwrap() = "changed";
    assert!(picker.cached_document_mut(&path("/b")).is_none());
    assert!(picker.cached_document_mut(&path("/c")).is_none());
    let preview = picker.get_preview(&PathOrId::Path(path("/a")), None).unwrap();
    assert_eq!(preview.document(), Some(&"changed"));
}

#[test]
fn panes() {
    let mut picker = files(&["a"]);
    let wide = Rect { x: 1, y: 2, width: 101, height: 20 };
    let frame = picker.render(wide);
    assert_eq!(frame.picker.area, Rect { x: 1, y: 2, width: 50, height: 20 });
    let preview = frame.preview.unwrap();
    assert_eq!(preview.area, Rect { x: 51, y: 2, width: 51, height: 20 });
    assert_eq!(preview.inner, Rect { x: 53, y: 3, width: 47, height: 18 });
    let narrow = Rect { x: 0, y: 0, width: 72, height: 20 };
    let frame = picker.render(narrow);
    assert_eq!(frame.picker.area, narrow);
    assert_eq!(frame.preview, None);
    assert!(picker.can_render(wide));
    assert!(!picker.can_render(Rect { x: 65435, y: 2, width: 101, height: 20 }));
    picker.picker_mut().toggle_preview();
    let frame = picker.render(wide);
    assert_eq!(frame.picker.area, wide);
    assert_eq!(frame.preview, None);
}

#[test]
fn size_is_taken_whole() {
    let mut picker = files(&["a", "b", "c"]);
    assert_eq!(picker.required_size((100, 6)), Some((100, 6)));
    picker.picker_mut().page_up();
    assert_eq!(picker.picker().selection().unwrap(), "c");
    assert_eq!(picker.required_size((60, 3)), Some((60, 3)));
    picker.picker_mut().page_up();
    assert_eq!(picker.picker().selection().unwrap(), "c");
}

#[test]
fn start_of_labels_is_kept_on_demand() {
    let picker = files(&["a"]);
    assert!(picker.truncate_start);
    let picker = picker.truncate_start(false);
    assert!(!picker.truncate_start);
    assert!(!picker.picker().truncate_start);
    assert!(!picker.render(Rect { x: 0, y: 0, width: 20, height: 9 }).picker.truncate_start);
}

#[test]
fn placeholders_are_centred() {
    let cached: CachedPreview<&'static str> = CachedPreview::Binary;
    let preview = Preview::Cached(&cached);
    let inner = Rect { x: 10, y: 4, width: 21, height: 5 };
    assert_eq!(preview.placeholder_origin(inner), (14, 6));
    let narrow = Rect { x: 10, y: 4, width: 5, height: 1 };
    assert_eq!(preview.placeholder_origin(narrow), (10, 4));
}

#[test]
fn pane_shows_the_document_or_the_placeholder() {
    let inner = Rect { x: 10, y: 4, width: 21, height: 5 };
    let missing: CachedPreview<&'static str> = CachedPreview::NotFound;
    match Preview::Cached(&missing).contents(Some((7, 9)), inner) {
        PreviewContents::Placeholder { text, x, y, width } => {
            assert_eq!(text, "<File not found>");
            assert_eq!((x, y, width), (12, 6, 21));
        }
        PreviewContents::Document(_) => panic!("there is no document"),
    }
    let document = "text";
    match Preview::EditorDocument(&document).contents(Some((7, 9)), inner) {
        PreviewContents::Document(frame) => {
            assert_eq!(frame.offset, Position { row: 6, col: 0 });
            assert_eq!(frame.highlight, Some(Rect { x: 10, y: 5, width: 21, height: 3 }));
        }
        PreviewContents::Placeholder { .. } => panic!("there is a document"),
    }
}

#[test]
fn ranges_are_centred() {
    let inner = Rect { x: 2, y: 3, width: 30, height: 10 };
    let frame = align_document(Some((100, 102)), inner);
    assert_eq!(frame.offset, Position { row: 96, col: 0 });
    assert_eq!(frame.highlight, Some(Rect { x: 2, y: 7, width: 30, height: 3 }));
    let frame = align_document(None, inner);
    assert_eq!(frame.offset, Position { row: 0, col: 0 });
    assert_eq!(frame.highlight, None);
}

#[test]
fn ranges_near_the_start_and_long_ranges() {
    let inner = Rect { x: 0, y: 0, width: 30, height: 10 };
    let frame = align_document(Some((1, 2)), inner);
    assert_eq!(frame.offset.row, 0);
    assert_eq!(frame.highlight, Some(Rect { x: 0, y: 1, width: 30, height: 2 }));
    let frame = align_document(Some((50, 150)), inner);
    assert_eq!(frame.offset.row, 50);
    assert_eq!(frame.highlight, Some(Rect { x: 0, y: 0, width: 30, height: 10 }));
    let frame = align_document(Some((50, 40)), inner);
    assert_eq!(frame.offset.row, 45);
    assert_eq!(frame.highlight, Some(Rect { x: 0, y: 5, width: 30, height: 1 }));
}

#[test]
fn even_pane_cuts_a_range_of_its_height() {
    let inner = Rect { x: 0, y: 0, width: 30, height: 4 };
    let frame = align_document(Some((10, 13)), inner);
    assert_eq!(frame.offset.row, 9);
    assert_eq!(frame.highlight, Some(Rect { x: 0, y: 1, width: 30, height: 3 }));
}

#[test]
fn very_long_ranges_fill_the_pane() {
    let inner = Rect { x: 0, y: 0, width: 30, height: 10 };
    let filled = Some(Rect { x: 0, y: 0, width: 30, height: 10 });
    assert_eq!(align_document(Some((0, 65535)), inner).highlight, filled);
    assert_eq!(align_document(Some((0, 65536)), inner).highlight, filled);
    let frame = align_document(Some((0, usize::MAX)), inner);
    assert_eq!(frame.offset.row, 0);
    assert_eq!(frame.highlight, filled);
}

#[test]
fn queries_are_asked_once() {
    let mut picker = DynamicPicker::new(files(&["a"]));
    assert_eq!(picker.id(), Some("dynamic-picker"));
    let answer = picker.handle_event(Event::IdleTimeout);
    assert_eq!(answer.query, None);
    assert_eq!(answer.outcome.command, Command::DetectLanguage);
    assert!(answer.outcome.consumed);
    picker.file_picker_mut().picker_mut().prompt_handle_event(true, "qu".to_string());
    assert_eq!(picker.handle_event(Event::Paste).query, None);
    assert_eq!(picker.handle_event(Event::IdleTimeout).query, Some("qu".to_string()));
    assert_eq!(picker.handle_event(Event::IdleTimeout).query, None);
}

#[test]
fn answers_replace_the_options() {
    let mut picker = DynamicPicker::new(files(&["x", "y"]));
    picker.file_picker_mut().picker_mut().prompt_handle_event(true, "b".to_string());
    let key = KeyEvent {
        code: KeyCode::Down,
        modifiers: KeyModifiers { shift: false, control: false, alt: false },
    };
    picker.handle_event(Event::Key(key));
    let outcome = picker.update_options(vec![named("a"), named("bb"), named("b")]);
    assert!(outcome.reset_idle_timer);
    let frame = picker.render(Rect { x: 0, y: 0, width: 40, height: 12 });
    assert_eq!(frame.picker.count, "2/3");
    assert_eq!(frame.picker.rows[0].option, 2);
    assert_eq!(frame.picker.rows[1].option, 1);
    assert!(frame.picker.rows[0].is_active);
    assert_eq!(picker.cursor(Rect { x: 0, y: 0, width: 40, height: 12 }).y, 1);
    assert_eq!(picker.required_size((10, 20)), Some((10, 20)));
}
