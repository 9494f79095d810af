//! A picker with a preview pane beside it.

use vstd::prelude::*;

use crate::content;
use crate::frame;
use crate::frame::PickerFrame;
use crate::graphics::Rect;
use crate::input::{Command, Event, Outcome};
use crate::item::Item;
use crate::path::{ComponentView, FilePath};
use crate::picker::{Picker, PickerView};
use crate::preview;
use crate::preview::{
    CachedPreview, DocumentId, FileLocation, FileProbe, FileVerdict, PathOrId, Preview,
};
use crate::preview_cache::PreviewCache;

verus! {

/// A picker of things that are found in files. `D` is the type of documents.
pub struct FilePicker<T, S, D> {
    picker: Picker<T, S>,
    pub truncate_start: bool,
    /// Caches paths to documents.
    preview_cache: PreviewCache<D>,
}

/// The state of a file picker.
pub struct FilePickerView<T, S, D> {
    pub picker: PickerView<T, S>,
    pub truncate_start: bool,
    /// The previews of the files that were looked at, by their paths.
    pub cache: Map<Seq<ComponentView>, CachedPreview<D>>,
}

/// The two panes of a file picker.
pub struct FileFrame<'a, S> {
    pub picker: PickerFrame<'a, S>,
    pub preview: Option<PreviewFrame>,
}

/// The preview pane.
#[derive(Clone, Copy, PartialEq, Eq, Structural, Debug)]
pub struct PreviewFrame {
    /// The area to draw a border around.
    pub area: Rect,
    /// The area of the document.
    pub inner: Rect,
}

/// A document whose language may have to be detected.
#[derive(PartialEq, Eq, Debug)]
pub enum IdleTarget {
    Nothing,
    /// A document that is open in the editor.
    Editor(DocumentId),
    /// The cached document with this path.
    Cached(FilePath),
}

impl IdleTarget {
    /// Whether the language of the document is to be detected, given whether it has one.
    pub fn wants_language(&self, has_language: bool) -> (wants: bool)
        ensures
            wants == (*self != IdleTarget::Nothing && !has_language),
    {
        match self {
            IdleTarget::Nothing => false,
            _ => !has_language,
        }
    }
}

/// There is room for a preview beside the picker.
pub open spec fn has_room(width: int) -> bool {
    width > preview::MIN_AREA_WIDTH_FOR_PREVIEW
}

/// The width of the picker: half of the area if there is a preview, all of it otherwise.
pub open spec fn picker_width(width: int, with_preview: bool) -> int {
    if with_preview {
        width / 2
    } else {
        width
    }
}

impl<T, S, D> FilePickerView<T, S, D> {
    /// Whether the preview pane is drawn.
    pub open spec fn shows_preview(self, area: Rect) -> bool {
        self.picker.show_preview && has_room(area.width as int)
    }

    /// The area of the picker itself.
    pub open spec fn picker_area(self, area: Rect) -> Rect {
        Rect { width: picker_width(area.width as int, self.shows_preview(area)) as u16, ..area }
    }

    /// Both panes can be drawn.
    pub open spec fn can_render(self, area: Rect) -> bool {
        area.fits() && self.picker.can_render(self.picker_area(area))
    }

    /// The preview pane: what is beside the picker, with a border and a gap of one column on
    /// either side.
    pub open spec fn preview_frame(self, area: Rect) -> Option<PreviewFrame> {
        if self.shows_preview(area) {
            let pane = area.without_left(area.width as int / 2);
            Some(PreviewFrame { area: pane, inner: pane.within_border().within_gap() })
        } else {
            None
        }
    }

    /// The state after an event. An idle timeout is not for the picker.
    pub open spec fn after_event(self, event: Event) -> FilePickerView<T, S, D> {
        if event is IdleTimeout {
            self
        } else {
            FilePickerView { picker: self.picker.after_event(event), ..self }
        }
    }

    /// The answer to an event: that of the picker, but after an idle timeout the language of the
    /// previewed document is to be detected.
    pub open spec fn outcome(self, event: Event) -> Outcome {
        if event is IdleTimeout {
            Outcome { consumed: true, reset_idle_timer: false, command: Command::DetectLanguage }
        } else {
            self.picker.outcome(event)
        }
    }

    /// Where the selection is found, given where its option says it is and the outcome of looking
    /// for the canonical form of its path.
    pub open spec fn located<E>(
        self,
        location: Option<FileLocation>,
        canonical: Result<FilePath, E>,
    ) -> Option<FileLocation> {
        if self.picker.selected() is None {
            None
        } else {
            match (location, canonical) {
                (Some((PathOrId::Path(_), range)), Ok(path)) => Some((PathOrId::Path(path), range)),
                (Some((PathOrId::Path(_), _)), Err(_)) => None,
                _ => location,
            }
        }
    }

    /// What is remembered of a file.
    pub open spec fn cached(self, path: Seq<ComponentView>) -> Option<CachedPreview<D>> {
        if self.cache.contains_key(path) {
            Some(self.cache[path])
        } else {
            None
        }
    }

    /// The state after a file was looked at.
    pub open spec fn after_load(
        self,
        path: Seq<ComponentView>,
        verdict: FileVerdict,
        opened: Option<D>,
    ) -> FilePickerView<T, S, D> {
        FilePickerView {
            cache: self.cache.insert(path, preview::loaded(verdict, opened)),
            ..self
        }
    }

    /// The document at a location that may need a language: one in the editor, or a cached file
    /// that was opened.
    pub open spec fn idle_target_is(
        self,
        location: Option<FileLocation>,
        target: IdleTarget,
    ) -> bool {
        match location {
            None => target == IdleTarget::Nothing,
            Some((PathOrId::Id(id), _)) => target == IdleTarget::Editor(id),
            Some((PathOrId::Path(path), _)) => match self.cached(path@) {
                Some(CachedPreview::Document(_)) => target == IdleTarget::Cached(path),
                _ => target == IdleTarget::Nothing,
            },
        }
    }
}

impl<T, S, D> View for FilePicker<T, S, D> {
    type V = FilePickerView<T, S, D>;

    closed spec fn view(&self) -> FilePickerView<T, S, D> {
        FilePickerView {
            picker: self.picker@,
            truncate_start: self.truncate_start,
            cache: self.preview_cache@,
        }
    }
}

impl<T, S, D> FilePicker<T, S, D> {
    /// The state is sound.
    pub closed spec fn wf(&self) -> bool {
        self.picker@.wf() && self.preview_cache.wf()
    }

    /// A file picker with an empty prompt and no previews.
    pub fn new(options: Vec<Item<T, S>>) -> (file_picker: FilePicker<T, S, D>)
        requires
            forall|i: int| 0 <= i < options@.len() ==> (#[trigger] options@[i]).matchable(),
        ensures
            file_picker.wf(),
            file_picker@.picker == PickerView::fresh(options@),
            file_picker@.picker.wf(),
            file_picker@.picker.lists_matches_of(seq![]),
            file_picker@.truncate_start,
            file_picker@.cache == Map::<Seq<ComponentView>, CachedPreview<D>>::empty(),
    {
        let picker = Picker::new(options);
        FilePicker { picker, truncate_start: true, preview_cache: PreviewCache::new() }
    }

    /// Sets whether labels that are too long lose their start.
    pub fn truncate_start(self, truncate_start: bool) -> (changed: FilePicker<T, S, D>)
        ensures
            changed@.truncate_start == truncate_start,
            changed@.picker == (PickerView { truncate_start, ..self@.picker }),
            changed@.cache == self@.cache,
            self.wf() ==> changed.wf(),
    {
        let mut changed = self;
        changed.truncate_start = truncate_start;
        changed.picker.set_truncate_start(truncate_start);
        changed
    }

    /// The picker.
    pub fn picker(&self) -> (picker: &Picker<T, S>)
        ensures
            picker@ == self@.picker,
            self.wf() ==> picker@.wf(),
    {
        &self.picker
    }

    /// The picker, to be changed.
    pub fn picker_mut(&mut self) -> (picker: &mut Picker<T, S>)
        ensures
            (*picker)@ == old(self)@.picker,
            old(self).wf() ==> (*picker)@.wf(),
            final(self)@ == (FilePickerView { picker: (*final(picker))@, ..old(self)@ }),
            old(self).wf() && (*final(picker))@.wf() ==> final(self).wf(),
    {
        &mut self.picker
    }

    /// Where the selection is found. `location` is where the selected option says it is, and
    /// `canonical` the outcome of looking for the canonical form of its path. A path without one
    /// is no location.
    pub fn current_file<E>(
        &self,
        location: Option<FileLocation>,
        canonical: Result<FilePath, E>,
    ) -> (file: Option<FileLocation>)
        ensures
            file == (match (self@.picker.selected(), location) {
                (Some(_), Some((PathOrId::Id(id), range))) => Some((PathOrId::Id(id), range)),
                (Some(_), Some((PathOrId::Path(_), range))) => match canonical {
                    Ok(path) => Some((PathOrId::Path(path), range)),
                    Err(_) => None,
                },
                _ => None,
            }),
            file == self@.located(location, canonical),
    {
        if !self.picker.has_selection() {
            return None;
        }
        match location {
            Some((path_or_id, range)) => match path_or_id.get_canonicalized(canonical) {
                Ok(path_or_id) => Some((path_or_id, range)),
                Err(_) => None,
            },
            None => None,
        }
    }

    /// The preview for a path or a document. `editor_document` is that document, or the one that
    /// is open in the editor under that path; it is used in place of a cached preview. There is
    /// nothing to show yet of a file that is neither open nor cached.
    pub fn get_preview<'picker, 'editor>(
        &'picker self,
        path_or_id: &PathOrId,
        editor_document: Option<&'editor D>,
    ) -> (preview: Option<Preview<'picker, 'editor, D>>)
        requires
            self.wf(),
            path_or_id is Id ==> editor_document is Some,
        ensures
            preview == (match editor_document {
                Some(document) => Some(Preview::EditorDocument(document)),
                None => match self@.cached(path_or_id->Path_0@) {
                    Some(preview) => Some(Preview::Cached(&preview)),
                    None => None,
                },
            }),
            editor_document is None ==> (preview is Some <==> self@.cache.contains_key(
                path_or_id->Path_0@,
            )),
            editor_document is None && preview is Some ==> preview == Some(
                Preview::<'picker, 'editor, D>::Cached(&self@.cache[path_or_id->Path_0@]),
            ),
    {
        if let Some(document) = editor_document {
            return Some(Preview::EditorDocument(document));
        }
        match path_or_id {
            PathOrId::Path(path) => match self.preview_cache.get(path) {
                Some(preview) => Some(Preview::Cached(preview)),
                None => None,
            },
            PathOrId::Id(_) => None,
        }
    }

    /// Remembers the preview of a file that was looked at.
    pub fn load_preview(&mut self, path: FilePath, verdict: FileVerdict, opened: Option<D>)
        requires
            old(self).wf(),
        ensures
            final(self).wf(),
            final(self)@ == old(self)@.after_load(path@, verdict, opened),
    {
        let preview = preview::load(verdict, opened);
        self.preview_cache.insert(path, preview);
    }

    /// Judges a file by its probe and remembers its preview. `opened` is the document, if the file
    /// was to be opened and could be.
    pub fn load_file(&mut self, path: FilePath, probe: &Option<FileProbe>, opened: Option<D>)
        requires
            old(self).wf(),
        ensures
            final(self).wf(),
            final(self)@ == old(self)@.after_load(path@, preview::verdict_on(*probe), opened),
    {
        let verdict = preview::judge_file(probe);
        self.load_preview(path, verdict, opened);
    }

    /// Finds the previewed document when nothing has happened for a while.
    pub fn handle_idle_timeout(&self, location: Option<FileLocation>) -> (target: IdleTarget)
        requires
            self.wf(),
        ensures
            self@.idle_target_is(location, target),
    {
        match location {
            None => IdleTarget::Nothing,
            Some((PathOrId::Id(id), _)) => IdleTarget::Editor(id),
            Some((PathOrId::Path(path), _)) => match self.preview_cache.get(&path) {
                Some(CachedPreview::Document(_)) => IdleTarget::Cached(path),
                _ => IdleTarget::Nothing,
            },
        }
    }

    /// A cached document, to be changed.
    pub fn cached_document_mut(&mut self, path: &FilePath) -> (document: Option<&mut D>)
        requires
            old(self).wf(),
        ensures
            final(self).wf(),
            match document {
                Some(document) => {
                    &&& old(self)@.cached(path@) == Some(
                        CachedPreview::Document(Box::new(*document)),
                    )
                    &&& final(self)@ == old(self)@.after_load(
                        path@,
                        FileVerdict::Open,
                        Some(*final(document)),
                    )
                },
                None => {
                    &&& final(self)@ == old(self)@
                    &&& !(old(self)@.cached(path@) matches Some(CachedPreview::Document(_)))
                },
            },
    {
        self.preview_cache.get_document_mut(path)
    }

    /// Whether both panes can be drawn in `area`.
    pub fn can_render(&self, area: Rect) -> (can: bool)
        requires
            self.wf(),
        ensures
            can == self@.can_render(area),
    {
        if area.x > u16::MAX - area.width || area.y > u16::MAX - area.height {
            return false;
        }
        self.picker.can_render(self.list_area(area))
    }

    /// The area of the picker itself.
    fn list_area(&self, area: Rect) -> (list: Rect)
        ensures
            list == self@.picker_area(area),
    {
        if self.picker.shows_preview() && area.width > preview::MIN_AREA_WIDTH_FOR_PREVIEW {
            area.with_width(area.width / 2)
        } else {
            area
        }
    }

    /// Lays the two panes out in `area`.
    pub fn render(&self, area: Rect) -> (frame: FileFrame<'_, S>)
        requires
            self.wf(),
            self@.can_render(area),
        ensures
            self@.picker.is_frame(self@.picker_area(area), frame.picker@),
            frame.preview == self@.preview_frame(area),
    {
        let render_preview = self.picker.shows_preview() && area.width
            > preview::MIN_AREA_WIDTH_FOR_PREVIEW;
        let picker_area = self.list_area(area);
        let picker = self.picker.render(picker_area);
        let preview = if render_preview {
            let pane = area.clip_left(picker_area.width);
            Some(PreviewFrame { area: pane, inner: pane.inside_border().inside_gap() })
        } else {
            None
        };
        FileFrame { picker, preview }
    }

    /// Lets the file picker see an event.
    pub fn handle_event(&mut self, event: Event) -> (outcome: Outcome)
        ensures
            old(self).wf() ==> final(self).wf(),
            final(self)@ == old(self)@.after_event(event),
            outcome == old(self)@.outcome(event),
    {
        match event {
            Event::IdleTimeout => Outcome {
                consumed: true,
                reset_idle_timer: false,
                command: Command::DetectLanguage,
            },
            _ => self.picker.handle_event(event),
        }
    }

    /// The area of the prompt, which decides where the terminal's cursor is.
    pub fn cursor(&self, area: Rect) -> (prompt: Rect)
        requires
            area.fits(),
        ensures
            prompt == frame::prompt_area(area),
    {
        self.picker.cursor(area)
    }

    /// Gives the file picker its size.
    pub fn required_size(&mut self, size: (u16, u16)) -> (required: Option<(u16, u16)>)
        ensures
            required == Some(size),
            final(self)@ == (FilePickerView {
                picker: old(self)@.picker.after_size(size),
                ..old(self)@
            }),
            old(self).wf() ==> final(self).wf(),
    {
        let picker_width: u16 = if size.0 > preview::MIN_AREA_WIDTH_FOR_PREVIEW {
            size.0 / 2
        } else {
            size.0
        };
        match self.picker.required_size((picker_width, size.1)) {
            Some(_) => Some(size),
            None => None,
        }
    }
}

/// A file is looked at once: what was made of it is what is shown from then on, and what is
/// remembered of other files stays.
pub proof fn law_loaded_preview_is_kept<T, S, D>(
    view: FilePickerView<T, S, D>,
    path: Seq<ComponentView>,
    verdict: FileVerdict,
    opened: Option<D>,
    other: Seq<ComponentView>,
)
    ensures
        view.after_load(path, verdict, opened).cached(path) == Some(
            preview::loaded(verdict, opened),
        ),
        other != path ==> view.after_load(path, verdict, opened).cached(other) == view.cached(
            other,
        ),
{
}

/// There is a preview pane exactly if the preview is switched on and the area is wider than 72
/// columns. The two panes then divide the area: they are as high as it is, their widths, of which
/// that of the list is half, add up to its width, and every cell of it belongs to exactly one of
/// them, as long as its columns have numbers. Otherwise the list has all of the area.
pub proof fn law_panes_divide_the_area<T, S, D>(
    view: FilePickerView<T, S, D>,
    area: Rect,
    x: int,
    y: int,
)
    ensures
        view.preview_frame(area) is Some <==> view.picker.show_preview && area.width > 72,
        view.preview_frame(area) is None ==> view.picker_area(area) == area,
        view.preview_frame(area) is Some ==> ({
            let pane = view.preview_frame(area).unwrap().area;
            let list = view.picker_area(area);
            &&& list.height == area.height
            &&& pane.height == area.height
            &&& list.width == area.width / 2
            &&& list.width + pane.width == area.width
            &&& area.end_col() <= u16::MAX ==> (area.has_cell(x, y) <==> list.has_cell(x, y)
                || pane.has_cell(x, y)) && !(list.has_cell(x, y) && pane.has_cell(x, y))
        }),
{
}

/// Loading a file remembers, under its path, what was made of it: a document if it could be opened
/// and is text of up to ten mebibytes, and otherwise why there is none. The list stays as it is.
pub proof fn law_file_is_judged_and_kept<T, S, D>(
    view: FilePickerView<T, S, D>,
    path: Seq<ComponentView>,
    probe: Option<FileProbe>,
    opened: Option<D>,
)
    ensures
        ({
            let after = view.after_load(path, preview::verdict_on(probe), opened);
            let text = probe is Some && !content::looks_binary(probe.unwrap().head@);
            let large = probe is Some && probe.unwrap().size > 10485760;
            &&& after.picker == view.picker
            &&& after.truncate_start == view.truncate_start
            &&& after.cache.dom() == view.cache.dom().insert(path)
            &&& forall|other: Seq<ComponentView>|
                other != path && view.cache.contains_key(other) ==> #[trigger] after.cache[other]
                    == view.cache[other]
            &&& probe is None ==> after.cache[path] is NotFound
            &&& probe is Some && !text ==> after.cache[path] is Binary
            &&& text && large ==> after.cache[path] is LargeFile
            &&& text && !large && opened is None ==> after.cache[path] is NotFound
            &&& text && !large && opened is Some ==> after.cache[path] == CachedPreview::Document(
                Box::new(opened.unwrap()),
            )
        }),
{
}

/// What is remembered of a file is what the cache holds under its path.
pub proof fn law_cache_is_asked_by_path<T, S, D>(
    view: FilePickerView<T, S, D>,
    path: Seq<ComponentView>,
)
    ensures
        view.cached(path) is Some <==> view.cache.dom().contains(path),
        view.cached(path) is Some ==> view.cached(path) == Some(view.cache[path]),
{
}

/// The document whose language is looked at is the one at the location: any that is open in the
/// editor, and a file exactly if a document is remembered for its path.
pub proof fn law_idle_target_is_the_document_shown<T, S, D>(
    view: FilePickerView<T, S, D>,
    path: FilePath,
    id: DocumentId,
    range: Option<(usize, usize)>,
    target: IdleTarget,
)
    ensures
        view.idle_target_is(None, target) ==> target is Nothing,
        view.idle_target_is(Some((PathOrId::Id(id), range)), target) ==> target
            == IdleTarget::Editor(id),
        view.idle_target_is(Some((PathOrId::Path(path), range)), target) && view.cache.contains_key(
            path@,
        ) && view.cache[path@] is Document ==> target == IdleTarget::Cached(path),
        view.idle_target_is(Some((PathOrId::Path(path), range)), target) && !(
        view.cache.contains_key(path@) && view.cache[path@] is Document) ==> target is Nothing,
{
}

/// An idle timeout changes nothing, ends here and asks for the language of the document; every
/// other event is the picker's, and no event changes what is remembered of files.
pub proof fn law_only_idle_timeouts_are_for_the_preview<T, S, D>(
    view: FilePickerView<T, S, D>,
    event: Event,
)
    ensures
        view.after_event(event).cache == view.cache,
        view.after_event(event).truncate_start == view.truncate_start,
        event is IdleTimeout ==> view.after_event(event).picker == view.picker && view.outcome(
            event,
        ).consumed && !view.outcome(event).reset_idle_timer && view.outcome(event).command
            == Command::DetectLanguage,
        !(event is IdleTimeout) ==> view.after_event(event).picker == view.picker.after_event(event)
            && view.outcome(event) == view.picker.outcome(event),
{
}

/// The preview pane begins in the middle of the area and has all of its height. The document has
/// what is inside the border, without a column on either side.
pub proof fn law_place_of_the_preview<T, S, D>(view: FilePickerView<T, S, D>, area: Rect)
    requires
        area.fits(),
        view.picker.show_preview,
        area.width > 72,
    ensures
        view.preview_frame(area) is Some,
        ({
            let pane = view.preview_frame(area).unwrap();
            &&& pane.area.x == area.x + area.width as int / 2
            &&& pane.area.width == area.width - area.width as int / 2
            &&& pane.area.y == area.y
            &&& pane.area.height == area.height
            &&& pane.inner.x == pane.area.x + 2
            &&& pane.inner.width == pane.area.width - 4
            &&& area.height >= 2 ==> pane.inner.y == area.y + 1 && pane.inner.height == area.height
                - 2
            &&& area.height < 2 ==> pane.inner.height == 0
        }),
{
}

/// Nothing is located past the end of the list or for an option without a location. A document is
/// located by its id, whatever became of looking for a path; a file is located under the canonical
/// path alone, and not at all without one. The range of lines is that of the option.
pub proof fn law_files_are_located_by_their_canonical_paths<T, S, D>(
    view: FilePickerView<T, S, D>,
    id: DocumentId,
    path: FilePath,
    range: Option<(usize, usize)>,
    canonical: FilePath,
)
    ensures
        ({
            let on_entry = view.picker.cursor < view.picker.matches.len();
            let file = Some((PathOrId::Path(path), range));
            let document = Some((PathOrId::Id(id), range));
            let found = Ok::<FilePath, ()>(canonical);
            let missing = Err::<FilePath, ()>(());
            &&& view.located(None, found) is None
            &&& view.located(None, missing) is None
            &&& !on_entry ==> view.located(file, found) is None && view.located(document, found)
                is None
            &&& on_entry ==> view.located(document, found) == document && view.located(
                document,
                missing,
            ) == document
            &&& on_entry ==> view.located(file, found) == Some((PathOrId::Path(canonical), range))
            &&& view.located(file, missing) is None
        }),
{
}

} // verus!
