//! The per-file worker.
//!
//! One worker owns all the work for one input file: it is fed the result
//! of decoding the file, hands out one encode operation per task in matrix
//! order, and is fed each operation's result. The first failure — decode,
//! degenerate size, unsupported format, or a reported encode or write
//! error — makes the worker terminal and aborts the file's remaining
//! tasks; tasks already completed stay completed (their outputs are not
//! rolled back). A worker that hands out no more operations is terminal
//! and yields the file's single outcome.
//!
//! The driving loop performs the decode, resize, encode and write calls
//! and the progress display; the worker decides everything else.

use crate::errors::FileOutcome;
use crate::errors::TaskError;
use crate::formats::classify_spec;
use crate::formats::classify_format;
use crate::formats::FormatKind;
use crate::geometry::degenerate_spec;
use crate::geometry::planned_dims;
use crate::geometry::planned_dims_spec;
use crate::geometry::scaled_dim;
use crate::geometry::scaled_dim_spec;
use crate::naming::file_name_chars;
use crate::naming::file_name_of;
use crate::naming::file_stem_of;
use crate::naming::join_path;
use crate::naming::join_spec;
use crate::naming::output_name;
use crate::naming::output_name_spec;
use crate::naming::parent_chars;
use crate::naming::parent_of;
use crate::naming::stem_chars;
use crate::tasks::TaskMatrix;
use vstd::prelude::*;
use vstd::string::StrSliceExecFns;
use vstd::string::StringExecFns;

verus! {

/// Where a worker stands: waiting for the decode, handing out operations,
/// or terminal with the file's fate settled.
#[derive(Clone, Copy, Debug, PartialEq, Eq, Structural)]
pub enum Phase {
    Pending,
    Running,
    Succeeded,
    Failed,
}

/// One encode operation handed to the driving loop: resize the decoded
/// image to `width` x `height` (an identity resize when `scale` is 100)
/// and write it to `out_path` with the encoder `kind` selects.
#[derive(Clone, Debug)]
pub struct EncodeOp {
    pub task_index: usize,
    pub scale: u32,
    pub format: String,
    pub kind: FormatKind,
    pub width: u32,
    pub height: u32,
    pub quality: u8,
    pub out_path: String,
}

/// The degenerate-size error a task earns, carrying the rounded dimensions.
pub open spec fn degenerate_error_spec(width: u32, height: u32, scale: u32) -> TaskError {
    TaskError::DegenerateSize {
        width: scaled_dim_spec(width, scale) as u32,
        height: scaled_dim_spec(height, scale) as u32,
        scale,
    }
}

/// The state of processing one input file.
pub struct FileWorker {
    /// The input path, kept for the outcome.
    pub input: String,
    /// Whether the input path has a file name to derive output names from.
    pub stem_ok: bool,
    /// The input file name's stem.
    pub stem: String,
    /// The directory every output of this file goes to.
    pub out_parent: String,
    /// The tasks to perform, in order.
    pub tasks: Vec<crate::tasks::ScaleFormatTask>,
    /// The encode quality handed to lossy encoders.
    pub quality: u8,
    /// The decoded image's width, once known.
    pub width: u32,
    /// The decoded image's height, once known.
    pub height: u32,
    /// Where the worker stands.
    pub state: Phase,
    /// How many tasks completed; while running, also the next task's index.
    pub completed: usize,
    /// The index of the task the failure struck, if one struck a task.
    pub failed_task: Option<usize>,
    /// The failure, once one struck.
    pub error: Option<TaskError>,
}

impl FileWorker {
    /// The worker's invariant: completed tasks never exceed the matrix, a
    /// successful worker completed all of them, a failed one carries its
    /// error, and every task's scale is in range.
    pub open spec fn wf(&self) -> bool {
        &&& self.completed <= self.tasks@.len()
        &&& (self.state == Phase::Pending ==> self.completed == 0)
        &&& (self.state == Phase::Succeeded ==> self.completed == self.tasks@.len())
        &&& (self.state == Phase::Failed ==> self.error is Some)
        &&& forall|k: int| 0 <= k < self.tasks@.len() ==> 10 <= (#[trigger] self.tasks@[k]).scale
            <= 100
    }

    /// Sets up the work for one input file: resolves the stem and the
    /// output directory from the path and the configured output directory,
    /// and waits for the decode.
    pub fn new(input: &str, matrix: TaskMatrix, quality: u8, out_dir: Option<&str>) -> (w:
        FileWorker)
        requires
            matrix.scales_in_range(),
        ensures
            w.wf(),
            w.state == Phase::Pending,
            w.completed == 0,
            w.input@ == input@,
            w.tasks == matrix.tasks,
            w.quality == quality,
            w.stem_ok == (file_name_chars(input@).len() > 0),
            w.stem@ == stem_chars(file_name_chars(input@)),
            w.out_parent@ == (match out_dir {
                Some(d) => d@,
                None => parent_chars(input@),
            }),
    {
        let name = file_name_of(input);
        let stem_ok = name.as_str().unicode_len() > 0;
        let stem = file_stem_of(input);
        let out_parent = match out_dir {
            Some(d) => String::from_str(d),
            None => parent_of(input),
        };
        FileWorker {
            input: String::from_str(input),
            stem_ok,
            stem,
            out_parent,
            tasks: matrix.tasks,
            quality,
            width: 0,
            height: 0,
            state: Phase::Pending,
            completed: 0,
            failed_task: None,
            error: None,
        }
    }

    /// The number of operations this file owes, for the progress display.
    pub fn total_ops(&self) -> (n: usize)
        ensures
            n == self.tasks@.len(),
    {
        self.tasks.len()
    }

    /// Whether the worker reached a terminal phase.
    pub fn finished(&self) -> (r: bool)
        ensures
            r == (self.state == Phase::Succeeded || self.state == Phase::Failed),
    {
        self.state == Phase::Succeeded || self.state == Phase::Failed
    }

    /// Whether the file succeeded.
    pub fn succeeded(&self) -> (r: bool)
        ensures
            r == (self.state == Phase::Succeeded),
    {
        self.state == Phase::Succeeded
    }

    /// The decode failed: the file fails before any task, with the
    /// decoder's message.
    pub fn on_decode_err(&mut self, message: String)
        requires
            old(self).wf(),
            old(self).state == Phase::Pending,
        ensures
            final(self).wf(),
            final(self).state == Phase::Failed,
            final(self).error == Some((TaskError::Decode { message })),
            final(self).failed_task is None,
            final(self).completed == 0,
            final(self).input == old(self).input,
            final(self).tasks == old(self).tasks,
    {
        self.state = Phase::Failed;
        self.failed_task = None;
        self.error = Some(TaskError::Decode { message });
    }

    /// The decode succeeded with the given pixel dimensions. The file
    /// starts running, unless its path yields no file name, which fails it
    /// before any task.
    pub fn on_decode_ok(&mut self, width: u32, height: u32)
        requires
            old(self).wf(),
            old(self).state == Phase::Pending,
        ensures
            final(self).wf(),
            final(self).completed == 0,
            final(self).input == old(self).input,
            final(self).tasks == old(self).tasks,
            final(self).stem == old(self).stem,
            final(self).out_parent == old(self).out_parent,
            final(self).quality == old(self).quality,
            old(self).stem_ok ==> {
                &&& final(self).state == Phase::Running
                &&& final(self).width == width
                &&& final(self).height == height
            },
            !old(self).stem_ok ==> {
                &&& final(self).state == Phase::Failed
                &&& final(self).error == Some(TaskError::InvalidFilename)
                &&& final(self).failed_task is None
            },
    {
        if self.stem_ok {
            self.width = width;
            self.height = height;
            self.state = Phase::Running;
        } else {
            self.state = Phase::Failed;
            self.failed_task = None;
            self.error = Some(TaskError::InvalidFilename);
        }
    }

    /// Hands out the next encode operation, in matrix order. Returns
    /// nothing when the worker is done with every task (it succeeds), or
    /// when the next task is degenerate or names no supported encoder (the
    /// file fails at that task and its remaining tasks are abandoned).
    pub fn next_op(&mut self) -> (r: Option<EncodeOp>)
        requires
            old(self).wf(),
            old(self).state == Phase::Running,
        ensures
            final(self).wf(),
            final(self).input == old(self).input,
            final(self).tasks == old(self).tasks,
            final(self).stem == old(self).stem,
            final(self).out_parent == old(self).out_parent,
            final(self).quality == old(self).quality,
            final(self).width == old(self).width,
            final(self).height == old(self).height,
            final(self).completed == old(self).completed,
            match r {
                Some(op) => {
                    &&& final(self).state == Phase::Running
                    &&& op.task_index == final(self).completed
                    &&& op.task_index < final(self).tasks@.len()
                    &&& op.scale == final(self).tasks@[op.task_index as int].scale
                    &&& op.format@ == final(self).tasks@[op.task_index as int].format@
                    &&& op.kind == classify_spec(op.format@)
                    &&& op.kind != FormatKind::Unsupported
                    &&& !degenerate_spec(final(self).width, final(self).height, op.scale)
                    &&& (op.width as int, op.height as int) == planned_dims_spec(
                        final(self).width,
                        final(self).height,
                        op.scale,
                    )
                    &&& op.quality == final(self).quality
                    &&& op.out_path@ == join_spec(
                        final(self).out_parent@,
                        output_name_spec(final(self).stem@, op.scale, op.format@),
                    )
                },
                None => {
                    if final(self).completed == final(self).tasks@.len() {
                        final(self).state == Phase::Succeeded
                    } else {
                        let scale = final(self).tasks@[final(self).completed as int].scale;
                        let format = final(self).tasks@[final(self).completed as int].format@;
                        &&& final(self).state == Phase::Failed
                        &&& final(self).failed_task == Some(final(self).completed)
                        &&& (degenerate_spec(final(self).width, final(self).height, scale)
                            ==> final(self).error == Some(
                            degenerate_error_spec(final(self).width, final(self).height, scale),
                        ))
                        &&& (!degenerate_spec(final(self).width, final(self).height, scale)
                            ==> {
                            &&& classify_spec(format) == FormatKind::Unsupported
                            &&& final(self).error matches Some(e) && e matches
                                TaskError::UnsupportedFormat { format: f } && f@ == format
                        })
                    }
                },
            },
    {
        if self.completed == self.tasks.len() {
            self.state = Phase::Succeeded;
            return None;
        }
        let scale = self.tasks[self.completed].scale;
        match planned_dims(self.width, self.height, scale) {
            None => {
                let w = scaled_dim(self.width, scale);
                let h = scaled_dim(self.height, scale);
                self.failed_task = Some(self.completed);
                self.error = Some(TaskError::DegenerateSize { width: w, height: h, scale });
                self.state = Phase::Failed;
                None
            },
            Some(dims) => {
                let kind = classify_format(self.tasks[self.completed].format.as_str());
                if let FormatKind::Unsupported = kind {
                    let format = self.tasks[self.completed].format.clone();
                    self.failed_task = Some(self.completed);
                    self.error = Some(TaskError::UnsupportedFormat { format });
                    self.state = Phase::Failed;
                    return None;
                }
                let format = self.tasks[self.completed].format.clone();
                let name = output_name(self.stem.as_str(), scale, format.as_str());
                let out_path = join_path(self.out_parent.as_str(), name.as_str());
                Some(
                    EncodeOp {
                        task_index: self.completed,
                        scale,
                        format,
                        kind,
                        width: dims.0,
                        height: dims.1,
                        quality: self.quality,
                        out_path,
                    },
                )
            },
        }
    }

    /// The handed-out operation's output was written: one more task is
    /// complete and the progress display may advance one step.
    pub fn on_save_ok(&mut self)
        requires
            old(self).wf(),
            old(self).state == Phase::Running,
            old(self).completed < old(self).tasks@.len(),
        ensures
            final(self).wf(),
            final(self).state == Phase::Running,
            final(self).completed == old(self).completed + 1,
            final(self).input == old(self).input,
            final(self).tasks == old(self).tasks,
            final(self).stem == old(self).stem,
            final(self).out_parent == old(self).out_parent,
            final(self).quality == old(self).quality,
            final(self).width == old(self).width,
            final(self).height == old(self).height,
    {
        let n = self.tasks.len();
        proof {
            assert(self.completed < n);
        }
        self.completed = self.completed + 1;
    }

    /// The handed-out operation failed in the encoder or on disk: the file
    /// fails at the task that was executing and abandons the rest.
    pub fn on_save_err(&mut self, error: TaskError)
        requires
            old(self).wf(),
            old(self).state == Phase::Running,
        ensures
            final(self).wf(),
            final(self).state == Phase::Failed,
            final(self).failed_task == Some(old(self).completed),
            final(self).error == Some(error),
            final(self).completed == old(self).completed,
            final(self).input == old(self).input,
            final(self).tasks == old(self).tasks,
    {
        self.failed_task = Some(self.completed);
        self.error = Some(error);
        self.state = Phase::Failed;
    }

    /// The file's single outcome, once the worker is terminal: success, or
    /// the input path with the first error that struck and the task it
    /// struck at.
    pub fn outcome(self) -> (r: FileOutcome)
        requires
            self.wf(),
            self.state == Phase::Succeeded || self.state == Phase::Failed,
        ensures
            self.state == Phase::Succeeded ==> r == (FileOutcome::Success {
                input: self.input,
            }),
            self.state == Phase::Failed ==> (self.error matches Some(e) && r == (
            FileOutcome::Failure {
                input: self.input,
                failed_task: self.failed_task,
                error: e,
            })),
    {
        if self.state == Phase::Succeeded {
            FileOutcome::Success { input: self.input }
        } else {
            match self.error {
                Some(e) => FileOutcome::Failure {
                    input: self.input,
                    failed_task: self.failed_task,
                    error: e,
                },
                None => {
                    proof {
                        assert(false);
                    }
                    FileOutcome::Failure {
                        input: self.input,
                        failed_task: self.failed_task,
                        error: TaskError::InvalidFilename,
                    }
                },
            }
        }
    }
}

/// One output per task: a file that succeeded completed exactly as many
/// operations as the matrix holds tasks — for a matrix built from `ns`
/// scales and `nf` formats, exactly `ns * nf` outputs.
pub proof fn lemma_success_output_count(w: FileWorker, ns: int, nf: int)
    requires
        w.wf(),
        w.state == Phase::Succeeded,
        w.tasks@.len() == ns * nf,
    ensures
        w.completed == ns * nf,
{
}

} // verus!
