//! Reading one kernel directory.
//!
//! A read goes in steps. Each step either asks the filesystem one question or
//! ends the read; `resume` takes the answer and gives the next step.

use crate::descriptor::{
    descriptor,
    kernelspec_of,
    law_descriptor_names_each_variable_once,
    parse_kernelspec,
};
use crate::filesystem::{FsReply, FsReplyView, FsRequest, FsRequestView};
use crate::json::json_document;
use crate::kernelspecs::{Runtime, RuntimeView};
use crate::paths::{file_name, final_segment, join, joined};
use crate::views::result_view;
use vstd::prelude::*;

verus! {

/// Why a directory gave no kernel.
#[derive(Clone, Copy, Debug, PartialEq, Eq, Structural)]
pub enum ReadError {
    /// The path has no final segment to name the kernel by.
    InvalidDirectory,
    NotADirectory,
    /// `kernel.json` is missing or cannot be read.
    MissingDescriptor,
    /// `kernel.json` does not hold a descriptor.
    MalformedDescriptor,
}

/// How far a read has come.
#[derive(Clone, Copy, Debug, PartialEq, Eq, Structural)]
pub enum ReadStage {
    CheckingDirectory,
    LoadingDescriptor,
}

/// The name of the file that describes a kernel.
pub open spec fn descriptor_file_name() -> Seq<char> {
    "kernel.json"@
}

/// A read under way, as a mathematical value.
pub struct ReadView {
    pub name: Seq<char>,
    pub dir: Seq<char>,
    pub stage: ReadStage,
}

/// A step of a read, as a mathematical value.
pub enum ReadStepView {
    Ask(ReadView),
    Done(Result<RuntimeView, ReadError>),
}

impl ReadView {
    /// The kernel's name is the final segment of its directory.
    pub open spec fn wf(self) -> bool {
        final_segment(self.dir) == Some(self.name)
    }

    /// The question that this read waits on.
    pub open spec fn request(self) -> FsRequestView {
        match self.stage {
            ReadStage::CheckingDirectory => FsRequestView::IsDirectory(self.dir),
            ReadStage::LoadingDescriptor => FsRequestView::Load(
                joined(self.dir, descriptor_file_name()),
            ),
        }
    }

    /// The step that follows `reply`. Any answer but the one that lets the
    /// read go on counts as a failure of what was asked.
    pub open spec fn resume(self, reply: FsReplyView) -> ReadStepView {
        match self.stage {
            ReadStage::CheckingDirectory => if reply == FsReplyView::IsDirectory(true) {
                ReadStepView::Ask(ReadView { stage: ReadStage::LoadingDescriptor, ..self })
            } else {
                ReadStepView::Done(Err(ReadError::NotADirectory))
            },
            ReadStage::LoadingDescriptor => match reply {
                FsReplyView::Text(Some(text)) => match descriptor(text) {
                    Some(spec) => ReadStepView::Done(
                        Ok(RuntimeView { name: self.name, path: self.dir, spec }),
                    ),
                    None => ReadStepView::Done(Err(ReadError::MalformedDescriptor)),
                },
                _ => ReadStepView::Done(Err(ReadError::MissingDescriptor)),
            },
        }
    }
}

impl ReadStepView {
    /// A read under way is well formed, and so is the kernel that a read ends
    /// with.
    pub open spec fn wf(self) -> bool {
        match self {
            ReadStepView::Ask(read) => read.wf(),
            ReadStepView::Done(Ok(runtime)) => runtime.wf(),
            ReadStepView::Done(Err(_)) => true,
        }
    }
}

/// The first step of reading the kernel directory `dir`.
pub open spec fn read_start(dir: Seq<char>) -> ReadStepView {
    match final_segment(dir) {
        Some(name) => ReadStepView::Ask(
            ReadView { name, dir, stage: ReadStage::CheckingDirectory },
        ),
        None => ReadStepView::Done(Err(ReadError::InvalidDirectory)),
    }
}

/// A read of one kernel directory that waits on the filesystem.
pub struct KernelspecRead {
    name: String,
    dir: String,
    stage: ReadStage,
}

impl View for KernelspecRead {
    type V = ReadView;

    closed spec fn view(&self) -> ReadView {
        ReadView { name: self.name@, dir: self.dir@, stage: self.stage }
    }
}

/// A step of a read: a question to bring the answer to, or the outcome.
pub enum ReadStep {
    Ask(KernelspecRead),
    Done(Result<Runtime, ReadError>),
}

impl View for ReadStep {
    type V = ReadStepView;

    open spec fn view(&self) -> ReadStepView {
        match self {
            ReadStep::Ask(read) => ReadStepView::Ask(read@),
            ReadStep::Done(outcome) => ReadStepView::Done(result_view(*outcome)),
        }
    }
}

/// Whatever the filesystem answers, a read stays well formed and ends with a
/// well-formed kernel.
pub proof fn lemma_read_stays_well_formed(read: ReadView, reply: FsReplyView)
    requires
        read.wf(),
    ensures
        read.resume(reply).wf(),
{
    if let FsReplyView::Text(Some(text)) = reply {
        if let Some(json) = json_document(text) {
            if kernelspec_of(json) is Some {
                law_descriptor_names_each_variable_once(json);
            }
        }
    }
}

impl KernelspecRead {
    #[verifier::type_invariant]
    spec fn named_by_directory(self) -> bool {
        self@.wf()
    }

    /// Begins to read the kernel in the directory `kernel_dir`, such as
    /// `/usr/local/share/jupyter/kernels/python3`.
    ///
    /// The kernel is named by the final segment of `kernel_dir`, whatever its
    /// descriptor holds. A path without one ends the read at once.
    pub fn start(kernel_dir: String) -> (step: ReadStep)
        ensures
            step@ == read_start(kernel_dir@),
            step@.wf(),
    {
        match file_name(kernel_dir.as_str()) {
            Some(name) => ReadStep::Ask(
                KernelspecRead { name, dir: kernel_dir, stage: ReadStage::CheckingDirectory },
            ),
            None => ReadStep::Done(Err(ReadError::InvalidDirectory)),
        }
    }

    /// The question to put to the filesystem.
    pub fn request(&self) -> (request: FsRequest)
        ensures
            request@ == self@.request(),
            self@.wf(),
    {
        proof {
            use_type_invariant(self);
        }
        match self.stage {
            ReadStage::CheckingDirectory => FsRequest::IsDirectory(self.dir.clone()),
            ReadStage::LoadingDescriptor => FsRequest::Load(join(self.dir.as_str(), "kernel.json")),
        }
    }

    /// Goes on with the filesystem's answer.
    pub fn resume(self, reply: FsReply) -> (step: ReadStep)
        ensures
            step@ == self@.resume(reply@),
            self@.wf(),
            step@.wf(),
    {
        proof {
            use_type_invariant(&self);
            lemma_read_stays_well_formed(self@, reply@);
        }
        match self.stage {
            ReadStage::CheckingDirectory => match reply {
                FsReply::IsDirectory(true) => ReadStep::Ask(
                    KernelspecRead {
                        name: self.name,
                        dir: self.dir,
                        stage: ReadStage::LoadingDescriptor,
                    },
                ),
                _ => ReadStep::Done(Err(ReadError::NotADirectory)),
            },
            ReadStage::LoadingDescriptor => match reply {
                FsReply::Text(Some(text)) => match parse_kernelspec(text.as_str()) {
                    Some(spec) => ReadStep::Done(
                        Ok(Runtime { name: self.name, path: self.dir, spec }),
                    ),
                    None => ReadStep::Done(Err(ReadError::MalformedDescriptor)),
                },
                _ => ReadStep::Done(Err(ReadError::MissingDescriptor)),
            },
        }
    }
}

} // verus!
