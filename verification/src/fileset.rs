//! The in-memory image of a writer's file set: the active file's content and
//! the contents of the numbered archives, newest first. The rotating writer
//! is specified entirely against this image; an I/O shell mirrors it onto a
//! real directory.

use vstd::prelude::*;

verus! {

/// The abstract file set: the active file's characters and the archives'
/// characters, index 0 being `basename.1`, the newest archive.
#[verifier::ext_equal]
pub struct FileSetView {
    pub active: Seq<char>,
    pub archives: Seq<Seq<char>>,
}

impl FileSetView {
    /// The file set right after construction: an existing, empty active file
    /// and no archives.
    pub open spec fn fresh() -> FileSetView {
        FileSetView { active: Seq::empty(), archives: Seq::empty() }
    }
}

/// The size of a file's content in bytes, as UTF-8 encodes it.
pub open spec fn byte_size(s: Seq<char>) -> nat {
    vstd::utf8::encode_utf8(s).len()
}

/// The rotation cascade, applied to the image with every step succeeding:
/// the active content becomes the newest archive, every archive moves up one
/// index, whatever falls beyond `max_files` is evicted, and the active file
/// starts over empty. When no archives are retained at all, the active
/// content is simply discarded.
pub open spec fn rotate_v(v: FileSetView, max_files: nat) -> FileSetView {
    if max_files == 0 {
        FileSetView { active: Seq::empty(), archives: v.archives }
    } else {
        FileSetView {
            active: Seq::empty(),
            archives: (seq![v.active] + v.archives).take(
                vstd::math::min(v.archives.len() as int + 1, max_files as int),
            ),
        }
    }
}

/// One write against the image: if the active content has reached
/// `max_size` bytes the cascade runs and the fresh active file receives the
/// rotation marker followed by the triggering line; otherwise the line is
/// appended. Both lines arrive newline-terminated.
pub open spec fn write_v(
    v: FileSetView,
    line: Seq<char>,
    marker: Seq<char>,
    max_size: nat,
    max_files: nat,
) -> FileSetView {
    if byte_size(v.active) >= max_size {
        FileSetView { active: marker + line, archives: rotate_v(v, max_files).archives }
    } else {
        FileSetView { active: v.active + line, archives: v.archives }
    }
}

/// The executable image of the file set.
pub struct LogFileSet {
    pub active: String,
    pub archives: Vec<String>,
}

impl View for LogFileSet {
    type V = FileSetView;

    open spec fn view(&self) -> FileSetView {
        FileSetView { active: self.active@, archives: self.archives.deep_view() }
    }
}

impl LogFileSet {
    /// The file set of a newly constructed writer: an empty active file,
    /// no archives.
    pub fn fresh() -> (r: LogFileSet)
        ensures
            r@ == FileSetView::fresh(),
    {
        let r = LogFileSet { active: String::new(), archives: Vec::new() };
        proof {
            assert(r@.archives =~= Seq::<Seq<char>>::empty());
            assert(r@ =~= FileSetView::fresh());
        }
        r
    }

    /// The active file's size in bytes.
    pub fn active_size(&self) -> (r: u64)
        ensures
            r as nat == byte_size(self@.active),
    {
        let bytes = self.active.as_str().as_bytes_vec();
        bytes.len() as u64
    }

    /// How many archives currently exist.
    pub fn archive_count(&self) -> (r: usize)
        ensures
            r as nat == self@.archives.len(),
    {
        self.archives.len()
    }

    /// The content of archive `basename.(index + 1)`.
    pub fn archive(&self, index: usize) -> (r: &String)
        requires
            index < self@.archives.len(),
        ensures
            r@ == self@.archives[index as int],
    {
        &self.archives[index]
    }

    /// Appends a newline-terminated line to the active file.
    pub fn append_line(&mut self, line: &str)
        ensures
            final(self)@.active == old(self)@.active + line@ + "\n"@,
            final(self)@.archives == old(self)@.archives,
    {
        self.active.append(line);
        self.active.append("\n");
    }

    /// Runs the rotation cascade on the image.
    pub fn rotate(&mut self, max_files: usize)
        ensures
            final(self)@ == rotate_v(old(self)@, max_files as nat),
    {
        let mut taken = String::new();
        core::mem::swap(&mut self.active, &mut taken);
        if max_files == 0 {
            proof {
                assert(self@ =~= rotate_v(old(self)@, max_files as nat));
            }
            return ;
        }
        self.archives.insert(0, taken);
        if self.archives.len() > max_files {
            self.archives.truncate(max_files);
        }
        proof {
            assert(self@.archives =~= rotate_v(old(self)@, max_files as nat).archives);
            assert(self@ =~= rotate_v(old(self)@, max_files as nat));
        }
    }
}

} // verus!
