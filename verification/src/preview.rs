//! What the preview pane shows.

use vstd::prelude::*;

use crate::content;
use crate::graphics;
use crate::graphics::{Position, Rect};
use crate::path::FilePath;

verus! {

/// Terminals of up to this many columns have no room for a preview.
pub const MIN_AREA_WIDTH_FOR_PREVIEW: u16 = 72;

/// Biggest file size to preview in bytes.
pub const MAX_FILE_SIZE_FOR_PREVIEW: u64 = 10 * 1024 * 1024;

/// Identifies a document that is open in the editor.
#[derive(Clone, Copy, PartialEq, Eq, Structural, Hash, Debug)]
pub struct DocumentId(pub usize);

/// A document that is open in the editor, or the path of a file.
#[derive(PartialEq, Eq, Hash, Debug)]
pub enum PathOrId {
    Id(DocumentId),
    Path(FilePath),
}

/// File path and range of lines (used to align and highlight lines).
pub type FileLocation = (PathOrId, Option<(usize, usize)>);

impl PathOrId {
    /// Puts the canonical form in the place of a path. `canonical` is the outcome of looking for
    /// it; a document has no path to look for.
    pub fn get_canonicalized<E>(self, canonical: Result<FilePath, E>) -> (found: Result<PathOrId, E>)
        ensures
            found == (match self {
                PathOrId::Id(id) => Ok(PathOrId::Id(id)),
                PathOrId::Path(_) => match canonical {
                    Ok(path) => Ok(PathOrId::Path(path)),
                    Err(error) => Err(error),
                },
            }),
    {
        match self {
            PathOrId::Id(id) => Ok(PathOrId::Id(id)),
            PathOrId::Path(_) => match canonical {
                Ok(path) => Ok(PathOrId::Path(path)),
                Err(error) => Err(error),
            },
        }
    }
}

impl From<FilePath> for PathOrId {
    fn from(v: FilePath) -> (path: PathOrId) {
        PathOrId::Path(v)
    }
}

impl vstd::std_specs::convert::FromSpecImpl<FilePath> for PathOrId {
    open spec fn obeys_from_spec() -> bool {
        true
    }

    open spec fn from_spec(v: FilePath) -> PathOrId {
        PathOrId::Path(v)
    }
}

impl From<DocumentId> for PathOrId {
    fn from(v: DocumentId) -> (id: PathOrId) {
        PathOrId::Id(v)
    }
}

impl vstd::std_specs::convert::FromSpecImpl<DocumentId> for PathOrId {
    open spec fn obeys_from_spec() -> bool {
        true
    }

    open spec fn from_spec(v: DocumentId) -> PathOrId {
        PathOrId::Id(v)
    }
}

/// What is remembered of a file that was looked at.
pub enum CachedPreview<D> {
    Document(Box<D>),
    Binary,
    LargeFile,
    NotFound,
}

/// A preview: one that is remembered, or a document that is open in the editor.
pub enum Preview<'picker, 'editor, D> {
    Cached(&'picker CachedPreview<D>),
    EditorDocument(&'editor D),
}

impl<'picker, 'editor, D> Preview<'picker, 'editor, D> {
    /// The document that is shown.
    pub open spec fn shown_document(self) -> Option<D> {
        match self {
            Preview::EditorDocument(document) => Some(*document),
            Preview::Cached(CachedPreview::Document(document)) => Some(**document),
            _ => None,
        }
    }

    /// The text that stands for the preview.
    pub open spec fn placeholder_text(self) -> Seq<char> {
        match self {
            Preview::EditorDocument(_) => "<File preview>"@,
            Preview::Cached(CachedPreview::Document(_)) => "<File preview>"@,
            Preview::Cached(CachedPreview::Binary) => "<Binary file>"@,
            Preview::Cached(CachedPreview::LargeFile) => "<File too large to preview>"@,
            Preview::Cached(CachedPreview::NotFound) => "<File not found>"@,
        }
    }

    /// The document to show, if there is one.
    pub fn document(&self) -> (document: Option<&D>)
        ensures
            match document {
                Some(shown) => self.shown_document() == Some(*shown),
                None => self.shown_document() is None,
            },
    {
        match self {
            Preview::EditorDocument(document) => Some(*document),
            Preview::Cached(CachedPreview::Document(document)) => Some(&**document),
            _ => None,
        }
    }

    /// Alternate text to show for the preview.
    pub fn placeholder(&self) -> (text: &'static str)
        ensures
            text@ == self.placeholder_text(),
    {
        match self {
            Preview::EditorDocument(_) => "<File preview>",
            Preview::Cached(preview) => match preview {
                CachedPreview::Document(_) => "<File preview>",
                CachedPreview::Binary => "<Binary file>",
                CachedPreview::LargeFile => "<File too large to preview>",
                CachedPreview::NotFound => "<File not found>",
            },
        }
    }

    /// Where the alternate text begins, so that it stands in the middle of `inner`.
    pub fn placeholder_origin(&self, inner: Rect) -> (origin: (u16, u16))
        requires
            inner.fits(),
        ensures
            origin.0 == inner.x + graphics::max_int(
                inner.width - self.placeholder_text().len(),
                0,
            ) / 2,
            origin.1 == inner.y + inner.height / 2,
    {
        proof {
            reveal_strlit("<File preview>");
            reveal_strlit("<Binary file>");
            reveal_strlit("<File too large to preview>");
            reveal_strlit("<File not found>");
        }
        let len: usize = self.placeholder().unicode_len();
        (inner.x + inner.width.saturating_sub(len as u16) / 2, inner.y + inner.height / 2)
    }
}

/// What was seen of a file.
pub struct FileProbe {
    pub size: u64,
    /// Up to 1024 bytes from its start.
    pub head: Vec<u8>,
}

/// How a file is to be previewed.
#[derive(Clone, Copy, PartialEq, Eq, Structural, Debug)]
pub enum FileVerdict {
    /// Say that there is no such file.
    NotFound,
    /// Say that it is no text.
    Binary,
    /// Say that it is too large.
    LargeFile,
    /// Open it as a document.
    Open,
}

/// How a file is to be previewed: one that could not be read, of which there is no probe, is not
/// found; of the others, binary files and large ones are not opened.
pub open spec fn verdict_on(probe: Option<FileProbe>) -> FileVerdict {
    match probe {
        None => FileVerdict::NotFound,
        Some(file) => if content::looks_binary(file.head@) {
            FileVerdict::Binary
        } else if file.size > MAX_FILE_SIZE_FOR_PREVIEW {
            FileVerdict::LargeFile
        } else {
            FileVerdict::Open
        },
    }
}

/// Decides how a file is to be previewed. There is no probe of a file that could not be read.
pub fn judge_file(probe: &Option<FileProbe>) -> (verdict: FileVerdict)
    ensures
        verdict == verdict_on(*probe),
        verdict is NotFound <==> probe is None,
        match *probe {
            Some(file) => {
                &&& verdict is Binary <==> content::looks_binary(file.head@)
                &&& verdict is LargeFile <==> !content::looks_binary(file.head@) && file.size
                    > 10 * 1024 * 1024
                &&& verdict is Open <==> !content::looks_binary(file.head@) && file.size <= 10
                    * 1024 * 1024
            },
            None => true,
        },
{
    match probe {
        None => FileVerdict::NotFound,
        Some(file) => judge_contents(content::inspect_is_binary(&file.head), file.size),
    }
}

/// Decides how a file of this size is to be previewed, once it is known whether it is binary.
pub fn judge_contents(binary: bool, size: u64) -> (verdict: FileVerdict)
    ensures
        verdict == (if binary {
            FileVerdict::Binary
        } else if size > MAX_FILE_SIZE_FOR_PREVIEW {
            FileVerdict::LargeFile
        } else {
            FileVerdict::Open
        }),
{
    if binary {
        FileVerdict::Binary
    } else if size > MAX_FILE_SIZE_FOR_PREVIEW {
        FileVerdict::LargeFile
    } else {
        FileVerdict::Open
    }
}

/// What is remembered of a file with this verdict. `opened` is the document, if it was to be
/// opened and could be.
pub open spec fn loaded<D>(verdict: FileVerdict, opened: Option<D>) -> CachedPreview<D> {
    match verdict {
        FileVerdict::NotFound => CachedPreview::NotFound,
        FileVerdict::Binary => CachedPreview::Binary,
        FileVerdict::LargeFile => CachedPreview::LargeFile,
        FileVerdict::Open => match opened {
            Some(document) => CachedPreview::Document(Box::new(document)),
            None => CachedPreview::NotFound,
        },
    }
}

/// Makes the preview to remember.
pub fn load<D>(verdict: FileVerdict, opened: Option<D>) -> (preview: CachedPreview<D>)
    ensures
        preview == loaded(verdict, opened),
{
    match verdict {
        FileVerdict::NotFound => CachedPreview::NotFound,
        FileVerdict::Binary => CachedPreview::Binary,
        FileVerdict::LargeFile => CachedPreview::LargeFile,
        FileVerdict::Open => match opened {
            Some(document) => CachedPreview::Document(Box::new(document)),
            None => CachedPreview::NotFound,
        },
    }
}

/// How a document is shown in the preview pane.
#[derive(Clone, Copy, PartialEq, Eq, Structural, Debug)]
pub struct DocumentFrame {
    /// The place in the text that is shown in the top left cell.
    pub offset: Position,
    /// The area of the lines to highlight.
    pub highlight: Option<Rect>,
}

/// The number of lines from `start` to `end`, less one.
pub open spec fn extent(range: (usize, usize)) -> int {
    graphics::max_int(range.1 - range.0, 0)
}

/// The first line to show, so that the middle of the range is in the middle of a pane of `height`
/// lines; but the start of the range is never above the pane.
pub open spec fn first_line(range: Option<(usize, usize)>, height: int) -> int {
    match range {
        Some(lines) => {
            let middle = lines.0 + extent(lines) / 2;
            graphics::min_int(graphics::max_int(middle - height / 2, 0), lines.0 as int)
        },
        None => 0,
    }
}

/// The area of the lines of the range, as far as they are in the pane.
pub open spec fn highlight(lines: (usize, usize), inner: Rect) -> Rect {
    let offset = lines.0 - first_line(Some(lines), inner.height as int);
    Rect {
        y: (inner.y + offset) as u16,
        height: graphics::min_int(
            extent(lines) + 1,
            inner.height - offset,
        ) as u16,
        ..inner
    }
}

/// How a document is shown: from the line that the range asks for, with the range highlighted.
pub open spec fn document_frame(range: Option<(usize, usize)>, inner: Rect) -> DocumentFrame {
    DocumentFrame {
        offset: Position { row: first_line(range, inner.height as int) as usize, col: 0 },
        highlight: match range {
            Some(lines) => Some(highlight(lines, inner)),
            None => None,
        },
    }
}

/// The start of a range is in the upper half of the pane, or on its middle row.
pub proof fn law_range_starts_in_the_upper_half(lines: (usize, usize), height: int)
    requires
        0 <= height,
    ensures
        0 <= lines.0 - first_line(Some(lines), height) <= height / 2,
{
}

/// Aligns a document to a range of lines and highlights these.
pub fn align_document(range: Option<(usize, usize)>, inner: Rect) -> (frame: DocumentFrame)
    requires
        inner.fits(),
    ensures
        frame == document_frame(range, inner),
        0 <= first_line(range, inner.height as int) <= usize::MAX,
{
    match range {
        Some((start, end)) => {
            proof {
                law_range_starts_in_the_upper_half((start, end), inner.height as int);
            }
            let extent: usize = end.saturating_sub(start);
            let middle: usize = start + extent / 2;
            let above: usize = middle.saturating_sub(inner.height as usize / 2);
            let row: usize = if above < start {
                above
            } else {
                start
            };
            let offset: u16 = (start - row) as u16;
            let rest: u16 = inner.height - offset;
            let height: u16 = if extent < rest as usize {
                extent as u16 + 1
            } else {
                rest
            };
            DocumentFrame {
                offset: Position { row, col: 0 },
                highlight: Some(
                    Rect { x: inner.x, y: inner.y + offset, width: inner.width, height },
                ),
            }
        },
        None => DocumentFrame { offset: Position { row: 0, col: 0 }, highlight: None },
    }
}

/// What is drawn in the preview pane.
#[derive(Clone, Copy, Debug)]
pub enum PreviewContents {
    /// A text in place of a document, where it begins and how many columns it may take.
    Placeholder { text: &'static str, x: u16, y: u16, width: usize },
    /// A document.
    Document(DocumentFrame),
}

impl<'picker, 'editor, D> Preview<'picker, 'editor, D> {
    /// Decides what is drawn in the area `inner` of the preview pane: the document, aligned to the
    /// range, or the alternate text in the middle if there is no document.
    pub fn contents(&self, range: Option<(usize, usize)>, inner: Rect) -> (contents:
        PreviewContents)
        requires
            inner.fits(),
        ensures
            self.shown_document() is Some ==> contents == PreviewContents::Document(
                document_frame(range, inner),
            ),
            self.shown_document() is None ==> (contents matches PreviewContents::Placeholder {
                text,
                x,
                y,
                width,
            } && text@ == self.placeholder_text() && x == inner.x + graphics::max_int(
                inner.width - self.placeholder_text().len(),
                0,
            ) / 2 && y == inner.y + inner.height / 2 && width == inner.width),
    {
        match self.document() {
            Some(_) => PreviewContents::Document(align_document(range, inner)),
            None => {
                let (x, y) = self.placeholder_origin(inner);
                PreviewContents::Placeholder {
                    text: self.placeholder(),
                    x,
                    y,
                    width: inner.width as usize,
                }
            },
        }
    }
}

/// The highlight stays inside the pane.
pub proof fn law_highlight_lies_in_the_pane(lines: (usize, usize), inner: Rect)
    requires
        inner.fits(),
    ensures
        inner.encloses(highlight(lines, inner)),
{
    law_range_starts_in_the_upper_half(lines, inner.height as int);
}

/// The highlight covers exactly the rows of the pane on which a line of the range is shown. A range
/// that ends before it starts has one line, its start.
pub proof fn law_highlight_covers_the_range(lines: (usize, usize), inner: Rect, row: int)
    requires
        inner.fits(),
        inner.y <= row < inner.end_row(),
    ensures
        ({
            let line = first_line(Some(lines), inner.height as int) + (row - inner.y);
            highlight(lines, inner).y <= row < highlight(lines, inner).end_row() <==> lines.0
                <= line <= lines.0 + extent(lines)
        }),
{
    law_range_starts_in_the_upper_half(lines, inner.height as int);
}

/// A range that has fewer lines than the pane is shown whole; so is one that has as many, if their
/// number is odd or the range starts with the first line of the text.
pub proof fn law_short_range_is_shown_whole(lines: (usize, usize), height: int)
    requires
        lines.0 <= lines.1,
        extent(lines) + 1 < height || (extent(lines) + 1 == height && (height % 2 == 1
            || lines.0 == 0)),
    ensures
        first_line(Some(lines), height) <= lines.0,
        lines.1 < first_line(Some(lines), height) + height,
{
}

/// A range that is longer than the pane, by two lines or more, is shown from its start; so is one
/// that starts with the first line of the text.
pub proof fn law_long_range_is_shown_from_its_start(lines: (usize, usize), height: int)
    requires
        0 <= height,
        extent(lines) / 2 >= height / 2 || lines.0 == 0,
    ensures
        first_line(Some(lines), height) == lines.0,
{
}

/// The middle line of a range, start plus half its extent, is shown exactly half the height below
/// the top of the pane, if the range does not reach above the pane and the text above it does not
/// end there. Nearer to the start of the text, the text is shown from its first line; a range that
/// would reach above the pane is shown from its start.
pub proof fn law_range_stands_in_the_middle(lines: (usize, usize), inner: Rect)
    ensures
        ({
            let row = document_frame(Some(lines), inner).offset.row;
            let half = inner.height as int / 2;
            let beyond = if lines.1 > lines.0 {
                (lines.1 - lines.0) / 2
            } else {
                0
            };
            let middle = lines.0 + beyond;
            &&& beyond <= half && middle >= half ==> middle - row == half
            &&& middle < half ==> row == 0
            &&& beyond > half ==> row == lines.0
            &&& document_frame(Some(lines), inner).offset.col == 0
        }),
{
}

/// The highlight begins on the row of the range's first line and is as wide as the pane; it is as
/// high as the range has lines, or ends with the pane.
pub proof fn law_highlight_has_the_lines_of_the_range(lines: (usize, usize), inner: Rect)
    requires
        inner.fits(),
    ensures
        ({
            let frame = document_frame(Some(lines), inner);
            let above = lines.0 - frame.offset.row;
            let count = if lines.1 > lines.0 {
                lines.1 - lines.0 + 1
            } else {
                1
            };
            &&& frame.highlight is Some
            &&& frame.highlight.unwrap().x == inner.x
            &&& frame.highlight.unwrap().width == inner.width
            &&& frame.highlight.unwrap().y == inner.y + above
            &&& frame.highlight.unwrap().height <= count
            &&& above + frame.highlight.unwrap().height <= inner.height
            &&& frame.highlight.unwrap().height == count || above
                + frame.highlight.unwrap().height == inner.height
        }),
{
    law_range_starts_in_the_upper_half(lines, inner.height as int);
}

/// Without a range the text is shown from its start and nothing is highlighted.
pub proof fn law_no_range_no_highlight(inner: Rect)
    ensures
        document_frame(None, inner).offset.row == 0,
        document_frame(None, inner).offset.col == 0,
        document_frame(None, inner).highlight is None,
{
}

/// A file that cannot be read is not found. Of the others, those that look binary are binary,
/// whatever their size; the rest are opened up to a size of ten mebibytes, however long the part is
/// that was looked at, and are too large beyond.
pub proof fn law_verdict_goes_by_looks_and_size(size: u64, head: Vec<u8>)
    ensures
        verdict_on(None) == FileVerdict::NotFound,
        content::looks_binary(head@) ==> verdict_on(Some(FileProbe { size, head }))
            == FileVerdict::Binary,
        !content::looks_binary(head@) && size > 10485760 ==> verdict_on(
            Some(FileProbe { size, head }),
        ) == FileVerdict::LargeFile,
        !content::looks_binary(head@) && size <= 10485760 ==> verdict_on(
            Some(FileProbe { size, head }),
        ) == FileVerdict::Open,
{
}

/// The verdict on a file depends on its size only as far as this is over the limit, and on its
/// head only as far as this looks binary.
pub proof fn law_alike_files_are_judged_alike(a: FileProbe, b: FileProbe)
    requires
        content::looks_binary(a.head@) == content::looks_binary(b.head@),
        a.size > 10485760 <==> b.size > 10485760,
    ensures
        verdict_on(Some(a)) == verdict_on(Some(b)),
{
}

/// A document is remembered exactly if the file was to be opened and could be; a file that could
/// not be opened is not found, and otherwise the verdict is remembered.
pub proof fn law_verdict_is_remembered<D>(verdict: FileVerdict, document: D)
    ensures
        loaded(FileVerdict::Open, Some(document)) == CachedPreview::Document(Box::new(document)),
        loaded::<D>(FileVerdict::Open, None) is NotFound,
        verdict is Binary ==> loaded(verdict, Some(document)) is Binary && loaded::<D>(
            verdict,
            None,
        ) is Binary,
        verdict is LargeFile ==> loaded(verdict, Some(document)) is LargeFile && loaded::<D>(
            verdict,
            None,
        ) is LargeFile,
        verdict is NotFound ==> loaded(verdict, Some(document)) is NotFound && loaded::<D>(
            verdict,
            None,
        ) is NotFound,
{
}

/// A document is shown if it is open in the editor or is what is remembered of the file; in place
/// of any other preview a text says why there is none.
pub proof fn law_what_a_preview_shows<D>(document: D, cached: CachedPreview<D>)
    ensures
        Preview::<D>::EditorDocument(&document).shown_document() == Some(document),
        Preview::<D>::Cached(&CachedPreview::Document(Box::new(document))).shown_document() == Some(
            document,
        ),
        !(cached is Document) ==> Preview::<D>::Cached(&cached).shown_document() is None,
        cached is Binary ==> Preview::<D>::Cached(&cached).placeholder_text() == "<Binary file>"@,
        cached is LargeFile ==> Preview::<D>::Cached(&cached).placeholder_text()
            == "<File too large to preview>"@,
        cached is NotFound ==> Preview::<D>::Cached(&cached).placeholder_text()
            == "<File not found>"@,
{
}

} // verus!
