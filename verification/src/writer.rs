//! The rotating file writer: a rotation policy, the in-memory image of its
//! file set, and the write path of a size-bounded log. The writer decides
//! when to rotate, what the cascade does, and what every line looks like;
//! the I/O shell that carries those decisions onto a real directory performs
//! each step and keeps nothing of its own.

use vstd::prelude::*;
use crate::clock::Timestamp;
use crate::fileset::FileSetView;
use crate::fileset::LogFileSet;
use crate::fileset::write_v;
use crate::level::LevelFilter;
use crate::level::LogLevel;
use crate::level::should_log;
use crate::level::spec_should_log;
use crate::line::format_log_line;
use crate::line::spec_rendered;

verus! {

/// The errors a logging component can report. Construction returns
/// `ConfigError` for a size floor violation and `IOError` when the directory
/// or file cannot be prepared; a failed rename or delete during the cascade
/// is a `RotationError`.
#[derive(Debug, Clone, Copy, PartialEq, Eq, Structural)]
pub enum LogError {
    ConfigError,
    IOError,
    RotationError,
}

/// The smallest accepted `max_size` in bytes: enough for the rotation
/// marker plus a few lines.
pub const MIN_SIZE: u64 = 256;

/// One step of the rotation cascade, named by archive index; index 0 is the
/// active file, index `i >= 1` is `basename.i`. `Remove` deletes the file if
/// present; `Rename` moves `from` onto `to` when `from` exists, deleting a
/// present `to` first. A failed rename abandons the rest of the cascade.
#[derive(Debug, Clone, Copy, PartialEq, Eq, Structural)]
pub enum RotateOp {
    Remove { index: usize },
    Rename { from: usize, to: usize },
}

/// The cascade's exact operation sequence for an archive count: evict
/// `basename.<max_files>`, shift each archive up by one index from the
/// oldest down, then move the active file to `basename.1`. With no archives
/// retained it only removes the active file.
pub open spec fn cascade_ops(max_files: usize) -> Seq<RotateOp> {
    if max_files == 0 {
        seq![(RotateOp::Remove { index: 0 })]
    } else {
        seq![(RotateOp::Remove { index: max_files })] + Seq::new(
            (max_files - 1) as nat,
            |k: int| (RotateOp::Rename {
                from: (max_files - 1 - k) as usize,
                to: (max_files - k) as usize,
            }),
        ) + seq![(RotateOp::Rename { from: 0, to: 1 })]
    }
}

/// The rotating writer: the policy it was constructed with and the image of
/// its file set.
pub struct RotatingWriter {
    pub dir: String,
    pub basename: String,
    pub max_size: u64,
    pub max_files: usize,
    pub app_info: String,
    pub files: LogFileSet,
}

impl RotatingWriter {
    /// The writer's invariant: the size floor holds and no more archives
    /// exist than the policy retains.
    pub open spec fn wf(self) -> bool {
        &&& self.max_size >= MIN_SIZE
        &&& self.files@.archives.len() <= self.max_files
    }

    /// The text of the rotation marker written into each fresh file.
    pub open spec fn marker_text(self) -> Seq<char> {
        "[ROTATION] Logger restarted — "@ + self.app_info@
    }

    /// Builds a writer. Fails with `ConfigError` exactly when `max_size` is
    /// under the floor; on success the file set is fresh: an existing, empty
    /// active file and no archives.
    pub fn new(
        dir: &str,
        basename: &str,
        max_size: u64,
        max_files: usize,
        app_info: &str,
    ) -> (r: Result<RotatingWriter, LogError>)
        ensures
            r is Err <==> max_size < MIN_SIZE,
            r is Err ==> r->Err_0 == LogError::ConfigError,
            r is Ok ==> {
                let w = r->Ok_0;
                &&& w.wf()
                &&& w.dir@ == dir@
                &&& w.basename@ == basename@
                &&& w.max_size == max_size
                &&& w.max_files == max_files
                &&& w.app_info@ == app_info@
                &&& w.files@ == FileSetView::fresh()
            },
    {
        if max_size < MIN_SIZE {
            return Err(LogError::ConfigError);
        }
        Ok(
            RotatingWriter {
                dir: String::from_str(dir),
                basename: String::from_str(basename),
                max_size,
                max_files,
                app_info: String::from_str(app_info),
                files: LogFileSet::fresh(),
            },
        )
    }

    /// Whether a file of `size` bytes has grown past the policy's bound.
    pub fn needs_rotation(&self, size: u64) -> (r: bool)
        ensures
            r == (size >= self.max_size),
    {
        size >= self.max_size
    }

    /// The message of the rotation marker line.
    pub fn marker_message(&self) -> (r: String)
        ensures
            r@ == self.marker_text(),
    {
        let mut s = String::from_str("[ROTATION] Logger restarted — ");
        s.append(self.app_info.as_str());
        s
    }

    /// The cascade as the exact sequence of file operations the I/O shell
    /// must perform, in order: evict `basename.<max_files>`, shift each
    /// existing archive up by one index from the oldest down, and finally
    /// move the active file to `basename.1`. With no archives retained the
    /// cascade only removes the active file.
    pub fn rotation_ops(&self) -> (r: Vec<RotateOp>)
        requires
            self.max_files < usize::MAX,
        ensures
            r@ == cascade_ops(self.max_files),
    {
        let mut ops: Vec<RotateOp> = Vec::new();
        if self.max_files == 0 {
            ops.push(RotateOp::Remove { index: 0 });
            proof {
                assert(ops@ =~= cascade_ops(self.max_files));
            }
            return ops;
        }
        ops.push(RotateOp::Remove { index: self.max_files });
        let mut i: usize = self.max_files - 1;
        while i >= 1
            invariant
                i < self.max_files < usize::MAX,
                ops@.len() == self.max_files - i,
                ops@[0] == (RotateOp::Remove { index: self.max_files }),
                forall|k: int|
                    1 <= k < ops@.len() ==> ops@[k] == (RotateOp::Rename {
                        from: (self.max_files - k) as usize,
                        to: (self.max_files - k + 1) as usize,
                    }),
            decreases i,
        {
            ops.push(RotateOp::Rename { from: i, to: i + 1 });
            i = i - 1;
        }
        ops.push(RotateOp::Rename { from: 0, to: 1 });
        proof {
            assert(ops@ =~= cascade_ops(self.max_files));
        }
        ops
    }

    /// One write, as the policy dictates. A call below the filter threshold
    /// changes nothing. Otherwise, if the active file has reached
    /// `max_size` bytes, the cascade runs and the fresh file receives a
    /// rotation marker at `Debug` severity followed by the triggering
    /// message; else the formatted line is appended. Every line follows the
    /// exact format and is newline-terminated.
    pub fn write(
        &mut self,
        filter: &LevelFilter,
        stamp: &Timestamp,
        pid: u32,
        tid: &str,
        level: LogLevel,
        message: &str,
    )
        requires
            old(self).wf(),
            stamp.wf(),
        ensures
            final(self).wf(),
            final(self).dir == old(self).dir,
            final(self).basename == old(self).basename,
            final(self).max_size == old(self).max_size,
            final(self).max_files == old(self).max_files,
            final(self).app_info == old(self).app_info,
            !spec_should_log(*filter, level) ==> *final(self) == *old(self),
            spec_should_log(*filter, level) ==> final(self).files@ == write_v(
                old(self).files@,
                spec_rendered(*stamp, level, pid as nat, tid@, message@),
                spec_rendered(
                    *stamp,
                    LogLevel::Debug,
                    pid as nat,
                    tid@,
                    old(self).marker_text(),
                ),
                old(self).max_size as nat,
                old(self).max_files as nat,
            ),
    {
        if !should_log(filter, level) {
            return ;
        }
        let size = self.files.active_size();
        let ghost pre = self.files@;
        if self.needs_rotation(size) {
            self.files.rotate(self.max_files);
            let marker_msg = self.marker_message();
            let marker = format_log_line(stamp, LogLevel::Debug, pid, tid, marker_msg.as_str());
            self.files.append_line(marker.as_str());
            let line = format_log_line(stamp, level, pid, tid, message);
            self.files.append_line(line.as_str());
            proof {
                let line_v = spec_rendered(*stamp, level, pid as nat, tid@, message@);
                let marker_v = spec_rendered(
                    *stamp,
                    LogLevel::Debug,
                    pid as nat,
                    tid@,
                    old(self).marker_text(),
                );
                assert(self.files@.active =~= marker_v + line_v);
                assert(self.files@ =~= write_v(
                    pre,
                    line_v,
                    marker_v,
                    old(self).max_size as nat,
                    old(self).max_files as nat,
                ));
            }
        } else {
            let line = format_log_line(stamp, level, pid, tid, message);
            self.files.append_line(line.as_str());
            proof {
                let line_v = spec_rendered(*stamp, level, pid as nat, tid@, message@);
                assert(self.files@.active =~= pre.active + line_v);
                assert(self.files@ =~= write_v(
                    pre,
                    line_v,
                    spec_rendered(
                        *stamp,
                        LogLevel::Debug,
                        pid as nat,
                        tid@,
                        old(self).marker_text(),
                    ),
                    old(self).max_size as nat,
                    old(self).max_files as nat,
                ));
            }
        }
    }
}

} // verus!
