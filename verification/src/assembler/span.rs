//! Source files and positions in them.

use vstd::prelude::*;
use vstd::slice::slice_to_vec;
use vstd::string::StringSliceAdditionalSpecFns;

verus! {

/// Names a file of a [`FileServer`]. The index 0 stands for no file.
#[derive(Debug, Clone, Copy, PartialEq, Eq, Structural)]
pub struct FileId {
    pub index: usize,
}

impl FileId {
    pub open spec fn spec_none() -> FileId {
        FileId { index: 0 }
    }

    /// The id that stands for no file.
    pub fn none() -> (id: Self)
        ensures
            id == Self::spec_none(),
    {
        FileId { index: 0 }
    }

    pub fn is_none(self) -> (r: bool)
        ensures
            r == (self == Self::spec_none()),
    {
        self.index == 0
    }
}

/// A range of bytes in a source file.
#[derive(Debug, Clone, Copy, PartialEq, Eq, Structural)]
pub struct TextSpan {
    pub file_id: FileId,
    pub start_byte_offset: usize,
    pub end_byte_offset: usize,
}

pub open spec fn min(a: usize, b: usize) -> usize {
    if a <= b {
        a
    } else {
        b
    }
}

pub open spec fn max(a: usize, b: usize) -> usize {
    if a >= b {
        a
    } else {
        b
    }
}

impl TextSpan {
    pub open spec fn spec_empty() -> TextSpan {
        TextSpan { file_id: FileId::spec_none(), start_byte_offset: 0, end_byte_offset: 0 }
    }

    /// The empty span in no file.
    pub fn empty() -> (s: Self)
        ensures
            s == Self::spec_empty(),
    {
        TextSpan { file_id: FileId { index: 0 }, start_byte_offset: 0, end_byte_offset: 0 }
    }

    pub fn new(file_id: FileId, start_byte_offset: usize, end_byte_offset: usize) -> (s: Self)
        ensures
            s == (TextSpan { file_id, start_byte_offset, end_byte_offset }),
    {
        TextSpan { file_id, start_byte_offset, end_byte_offset }
    }

    /// The smallest span that holds both, if they lie in one file.
    pub open spec fn spec_join(self, other: TextSpan) -> Option<TextSpan> {
        if self.file_id != other.file_id {
            None
        } else {
            Some(
                TextSpan {
                    file_id: self.file_id,
                    start_byte_offset: min(self.start_byte_offset, other.start_byte_offset),
                    end_byte_offset: max(self.end_byte_offset, other.end_byte_offset),
                },
            )
        }
    }

    #[verifier::when_used_as_spec(spec_join)]
    pub fn join(self, other: TextSpan) -> (r: Option<TextSpan>)
        ensures
            r == self.spec_join(other),
    {
        if self.file_id.index != other.file_id.index {
            None
        } else {
            Some(
                TextSpan {
                    file_id: self.file_id,
                    start_byte_offset: if self.start_byte_offset <= other.start_byte_offset {
                        self.start_byte_offset
                    } else {
                        other.start_byte_offset
                    },
                    end_byte_offset: if self.end_byte_offset >= other.end_byte_offset {
                        self.end_byte_offset
                    } else {
                        other.end_byte_offset
                    },
                },
            )
        }
    }

    /// The smallest span that holds both; `self` if they lie in two files.
    pub open spec fn spec_cover(self, other: TextSpan) -> TextSpan {
        match self.spec_join(other) {
            Some(span) => span,
            None => self,
        }
    }

    #[verifier::when_used_as_spec(spec_cover)]
    pub fn cover(self, other: TextSpan) -> (r: TextSpan)
        ensures
            r == self.spec_cover(other),
    {
        match self.join(other) {
            Some(span) => span,
            None => self,
        }
    }

    /// The span of no length at the end of this one.
    pub open spec fn spec_end(self) -> TextSpan {
        TextSpan { start_byte_offset: self.end_byte_offset, ..self }
    }
}

/// Joining is commutative and idempotent, and the join holds both spans.
pub proof fn lemma_join(a: TextSpan, b: TextSpan)
    ensures
        a.spec_join(a) == Some(a) || a.start_byte_offset > a.end_byte_offset,
        a.file_id == b.file_id ==> a.spec_join(b) == b.spec_join(a),
        a.file_id == b.file_id ==> {
            let j = a.spec_join(b).unwrap();
            &&& j.start_byte_offset <= a.start_byte_offset
            &&& j.start_byte_offset <= b.start_byte_offset
            &&& j.end_byte_offset >= a.end_byte_offset
            &&& j.end_byte_offset >= b.end_byte_offset
        },
        a.file_id != b.file_id ==> a.spec_join(b).is_none(),
{
}

/// A file as the file server holds it.
pub struct SourceFileModel {
    pub path: Seq<u8>,
    /// The text, or the loader's message if `failed`.
    pub text: Seq<u8>,
    /// Whether the file could not be loaded.
    pub failed: bool,
}

/// One source file: its path and its text in UTF-8.
pub struct SourceFile {
    path: Vec<u8>,
    text: Vec<u8>,
    failed: bool,
}

impl View for SourceFile {
    type V = SourceFileModel;

    closed spec fn view(&self) -> SourceFileModel {
        SourceFileModel { path: self.path@, text: self.text@, failed: self.failed }
    }
}

impl SourceFile {
    pub fn path(&self) -> (path: &Vec<u8>)
        ensures
            path@ == self@.path,
    {
        &self.path
    }

    pub fn text(&self) -> (text: &Vec<u8>)
        ensures
            text@ == self@.text,
    {
        &self.text
    }

    pub fn failed(&self) -> (failed: bool)
        ensures
            failed == self@.failed,
    {
        self.failed
    }
}

/// Why a file could not be registered.
#[derive(Debug, Clone, Copy, PartialEq, Eq, Structural)]
pub enum RegisterMemoryFileError {
    /// A file of that name is registered already.
    NameAlreadyRegistered(FileId),
}

/// The first file of `files` after index 0 that has the path `path`.
pub open spec fn spec_find(files: Seq<SourceFileModel>, path: Seq<u8>, from: int) -> Option<FileId>
    decreases files.len() - from,
{
    if from >= files.len() || from < 1 {
        None
    } else if files[from].path == path {
        Some(FileId { index: from as usize })
    } else {
        spec_find(files, path, from + 1)
    }
}

/// Whether two byte strings are equal.
pub fn bytes_eq(a: &[u8], b: &[u8]) -> (r: bool)
    ensures
        r == (a@ == b@),
{
    if a.len() != b.len() {
        return false;
    }
    let mut i: usize = 0;
    while i < a.len()
        invariant
            i <= a@.len(),
            a@.len() == b@.len(),
            forall|j: int| 0 <= j < i ==> a@[j] == b@[j],
        decreases a@.len() - i,
    {
        if a[i] != b[i] {
            return false;
        }
        i += 1;
    }
    assert(a@ =~= b@);
    true
}

/// The source files of an assembly, held in memory. File 0 is a
/// placeholder that stands for no file.
pub struct FileServer {
    files: Vec<SourceFile>,
}

impl View for FileServer {
    type V = Seq<SourceFileModel>;

    closed spec fn view(&self) -> Seq<SourceFileModel> {
        Seq::new(self.files@.len(), |i: int| self.files@[i]@)
    }
}

impl FileServer {
    /// The placeholder is there.
    pub open spec fn wf(&self) -> bool {
        self@.len() >= 1
    }

    /// A server that holds no file yet.
    pub fn new() -> (server: Self)
        ensures
            server.wf(),
            server@.len() == 1,
            server@[0].text.len() == 0,
            server@[0].path.len() == 0,
            !server@[0].failed,
    {
        let mut files: Vec<SourceFile> = Vec::new();
        files.push(SourceFile { path: Vec::new(), text: Vec::new(), failed: false });
        FileServer { files }
    }

    /// The file that `id` names, if there is one.
    pub fn get_file(&self, id: FileId) -> (file: Option<&SourceFile>)
        ensures
            id.index < self@.len() ==> file.is_some() && file.unwrap()@ == self@[id.index as int],
            id.index >= self@.len() ==> file.is_none(),
    {
        if id.index < self.files.len() {
            Some(&self.files[id.index])
        } else {
            None
        }
    }

    /// The number of files, the placeholder included.
    pub fn len(&self) -> (n: usize)
        ensures
            n == self@.len(),
    {
        self.files.len()
    }

    /// The registered file with the path `path`.
    pub fn find(&self, path: &[u8]) -> (id: Option<FileId>)
        ensures
            id == spec_find(self@, path@, 1),
            id.is_some() ==> 1 <= id.unwrap().index < self@.len() && self@[id.unwrap().index as int].path
                == path@,
    {
        let mut i: usize = 1;
        while i < self.files.len()
            invariant
                1 <= i,
                spec_find(self@, path@, 1) == spec_find(self@, path@, i as int),
            decreases self.files@.len() - i,
        {
            if bytes_eq(self.files[i].path.as_slice(), path) {
                return Some(FileId { index: i });
            }
            i += 1;
        }
        None
    }

    fn add(&mut self, path: &[u8], text: &[u8], failed: bool) -> (r: Result<
        FileId,
        RegisterMemoryFileError,
    >)
        requires
            old(self).wf(),
        ensures
            final(self).wf(),
            match spec_find(old(self)@, path@, 1) {
                Some(id) => r == Err::<FileId, RegisterMemoryFileError>(
                    RegisterMemoryFileError::NameAlreadyRegistered(id),
                ) && final(self)@ == old(self)@,
                None => r == Ok::<FileId, RegisterMemoryFileError>(
                    FileId { index: old(self)@.len() as usize },
                ) && final(self)@ == old(self)@.push(
                    SourceFileModel { path: path@, text: text@, failed },
                ),
            },
    {
        match self.find(path) {
            Some(id) => Err(RegisterMemoryFileError::NameAlreadyRegistered(id)),
            None => {
                let index = self.files.len();
                self.files.push(
                    SourceFile { path: slice_to_vec(path), text: slice_to_vec(text), failed },
                );
                assert(self@ =~= old(self)@.push(
                    SourceFileModel { path: path@, text: text@, failed },
                ));
                Ok(FileId { index })
            },
        }
    }

    /// Registers the text of a file under `path`.
    pub fn register_file_memory(&mut self, path: &str, text: &str) -> (r: Result<
        FileId,
        RegisterMemoryFileError,
    >)
        requires
            old(self).wf(),
        ensures
            final(self).wf(),
            match spec_find(old(self)@, path.spec_bytes(), 1) {
                Some(id) => r == Err::<FileId, RegisterMemoryFileError>(
                    RegisterMemoryFileError::NameAlreadyRegistered(id),
                ) && final(self)@ == old(self)@,
                None => r == Ok::<FileId, RegisterMemoryFileError>(
                    FileId { index: old(self)@.len() as usize },
                ) && final(self)@ == old(self)@.push(
                    SourceFileModel {
                        path: path.spec_bytes(),
                        text: text.spec_bytes(),
                        failed: false,
                    },
                ),
            },
    {
        self.add(path.as_bytes(), text.as_bytes(), false)
    }

    /// Registers the text of a file, given as bytes, under `path`.
    pub fn register_file_bytes(&mut self, path: &[u8], text: &[u8]) -> (r: Result<
        FileId,
        RegisterMemoryFileError,
    >)
        requires
            old(self).wf(),
        ensures
            final(self).wf(),
            match spec_find(old(self)@, path@, 1) {
                Some(id) => r == Err::<FileId, RegisterMemoryFileError>(
                    RegisterMemoryFileError::NameAlreadyRegistered(id),
                ) && final(self)@ == old(self)@,
                None => r == Ok::<FileId, RegisterMemoryFileError>(
                    FileId { index: old(self)@.len() as usize },
                ) && final(self)@ == old(self)@.push(
                    SourceFileModel { path: path@, text: text@, failed: false },
                ),
            },
    {
        self.add(path, text, false)
    }

    /// Records that the file `path` could not be loaded, with the loader's
    /// message.
    pub fn register_failure(&mut self, path: &[u8], message: &[u8]) -> (r: Result<
        FileId,
        RegisterMemoryFileError,
    >)
        requires
            old(self).wf(),
        ensures
            final(self).wf(),
            match spec_find(old(self)@, path@, 1) {
                Some(id) => r == Err::<FileId, RegisterMemoryFileError>(
                    RegisterMemoryFileError::NameAlreadyRegistered(id),
                ) && final(self)@ == old(self)@,
                None => r == Ok::<FileId, RegisterMemoryFileError>(
                    FileId { index: old(self)@.len() as usize },
                ) && final(self)@ == old(self)@.push(
                    SourceFileModel { path: path@, text: message@, failed: true },
                ),
            },
    {
        self.add(path, message, true)
    }
}

/// The text of the file that `id` names; empty if there is none or if it
/// could not be loaded.
pub open spec fn spec_file_text(files: Seq<SourceFileModel>, id: FileId) -> Seq<u8> {
    if id.index < files.len() && !files[id.index as int].failed {
        files[id.index as int].text
    } else {
        Seq::empty()
    }
}

/// The bytes of `span` in its file, cut off at the end of the file.
pub open spec fn spec_span_bytes(files: Seq<SourceFileModel>, span: TextSpan) -> Seq<u8> {
    let text = spec_file_text(files, span.file_id);
    if span.start_byte_offset <= span.end_byte_offset <= text.len() {
        text.subrange(span.start_byte_offset as int, span.end_byte_offset as int)
    } else {
        Seq::empty()
    }
}

impl FileServer {
    /// The bytes that `span` covers.
    pub fn span_bytes(&self, span: TextSpan) -> (bytes: Vec<u8>)
        ensures
            bytes@ == spec_span_bytes(self@, span),
    {
        let mut bytes: Vec<u8> = Vec::new();
        match self.get_file(span.file_id) {
            Some(file) => {
                if !file.failed && span.start_byte_offset <= span.end_byte_offset
                    && span.end_byte_offset <= file.text.len() {
                    let mut i: usize = span.start_byte_offset;
                    while i < span.end_byte_offset
                        invariant
                            span.start_byte_offset <= i <= span.end_byte_offset,
                            span.end_byte_offset <= file.text@.len(),
                            bytes@ == file.text@.subrange(span.start_byte_offset as int, i as int),
                        decreases span.end_byte_offset - i,
                    {
                        bytes.push(file.text[i]);
                        i += 1;
                        assert(bytes@ =~= file.text@.subrange(
                            span.start_byte_offset as int,
                            i as int,
                        ));
                    }
                }
                assert(bytes@ =~= spec_span_bytes(self@, span));
            },
            None => {},
        }
        bytes
    }
}

} // verus!
