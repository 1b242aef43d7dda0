//! Scanning a directory of kernel directories.
//!
//! A scan lists its directory once and then takes the entries in order: it
//! asks whether the entry is a directory, and reads a kernel out of each one
//! that is. An entry that gives no kernel is passed over, whatever the
//! reason. A scan goes in steps, as a read does.

use crate::filesystem::{FsReply, FsReplyView, FsRequest, FsRequestView};
use crate::kernelspecs::{Runtime, RuntimeView};
use crate::reader::{
    lemma_read_stays_well_formed,
    read_start,
    KernelspecRead,
    ReadStage,
    ReadStep,
    ReadStepView,
    ReadView,
};
use crate::views::seq_view;
use vstd::prelude::*;

verus! {

/// Why a scan gave no list of kernels.
#[derive(Clone, Copy, Debug, PartialEq, Eq, Structural)]
pub enum ScanError {
    /// The directory could not be listed.
    ListingFailed,
}

/// How far a scan has come, as a mathematical value.
pub enum ScanStageView {
    /// The listing has been asked for.
    Listing,
    /// The entry at `next` is being asked about.
    CheckingEntry,
    /// The entry at `next` is being read.
    Reading(ReadView),
}

/// A scan under way, as a mathematical value.
pub struct ScanView {
    pub parent: Seq<char>,
    pub entries: Seq<Option<Seq<char>>>,
    pub next: int,
    pub found: Seq<RuntimeView>,
    pub stage: ScanStageView,
}

/// A step of a scan, as a mathematical value.
pub enum ScanStepView {
    Ask(ScanView),
    Done(Result<Seq<RuntimeView>, ScanError>),
}

/// Whether every kernel of the list is well formed.
pub open spec fn all_well_formed(kernels: Seq<RuntimeView>) -> bool {
    forall|i: int| 0 <= i < kernels.len() ==> (#[trigger] kernels[i]).wf()
}

impl ScanView {
    /// The kernels found so far are well formed. Before the listing has come
    /// nothing is held. After it, the entry at `next` is one that could be
    /// read, and a read under way is a read of that entry.
    pub open spec fn wf(self) -> bool {
        &&& all_well_formed(self.found)
        &&& match self.stage {
            ScanStageView::Listing => self.entries.len() == 0 && self.next == 0
                && self.found.len() == 0,
            ScanStageView::CheckingEntry => 0 <= self.next < self.entries.len()
                && self.entries[self.next] is Some,
            ScanStageView::Reading(read) => 0 <= self.next < self.entries.len()
                && self.entries[self.next] == Some(read.dir) && read.wf(),
        }
    }

    /// The question that this scan waits on.
    pub open spec fn request(self) -> FsRequestView {
        match self.stage {
            ScanStageView::Listing => FsRequestView::ReadDirectory(self.parent),
            ScanStageView::CheckingEntry => FsRequestView::IsDirectory(
                self.entries[self.next].unwrap(),
            ),
            ScanStageView::Reading(read) => read.request(),
        }
    }

    /// The step that follows `reply`. Any answer but the one that lets the
    /// scan go on with an entry counts as a failure of what was asked.
    pub open spec fn resume(self, reply: FsReplyView) -> ScanStepView {
        match self.stage {
            ScanStageView::Listing => match reply {
                FsReplyView::Entries(Some(entries)) => scan_from(
                    self.parent,
                    entries,
                    0,
                    self.found,
                ),
                _ => ScanStepView::Done(Err(ScanError::ListingFailed)),
            },
            ScanStageView::CheckingEntry => if reply == FsReplyView::IsDirectory(true) {
                match read_start(self.entries[self.next].unwrap()) {
                    ReadStepView::Ask(read) => ScanStepView::Ask(
                        ScanView { stage: ScanStageView::Reading(read), ..self },
                    ),
                    ReadStepView::Done(_) => scan_from(
                        self.parent,
                        self.entries,
                        self.next + 1,
                        self.found,
                    ),
                }
            } else {
                scan_from(self.parent, self.entries, self.next + 1, self.found)
            },
            ScanStageView::Reading(read) => match read.resume(reply) {
                ReadStepView::Ask(read) => ScanStepView::Ask(
                    ScanView { stage: ScanStageView::Reading(read), ..self },
                ),
                ReadStepView::Done(Ok(runtime)) => scan_from(
                    self.parent,
                    self.entries,
                    self.next + 1,
                    self.found.push(runtime),
                ),
                ReadStepView::Done(Err(_)) => scan_from(
                    self.parent,
                    self.entries,
                    self.next + 1,
                    self.found,
                ),
            },
        }
    }

    /// How many answers a scan that has its listing needs at most to come to
    /// its end: three for each entry that is left, less what the entry at
    /// `next` has had.
    pub open spec fn answers_left(self) -> int {
        match self.stage {
            ScanStageView::Listing => 0,
            ScanStageView::CheckingEntry => 3 * (self.entries.len() - self.next),
            ScanStageView::Reading(read) => match read.stage {
                ReadStage::CheckingDirectory => 3 * (self.entries.len() - self.next) - 1,
                ReadStage::LoadingDescriptor => 3 * (self.entries.len() - self.next) - 2,
            },
        }
    }
}

impl ScanStepView {
    /// A scan under way is well formed, and so are the kernels that a scan
    /// ends with.
    pub open spec fn wf(self) -> bool {
        match self {
            ScanStepView::Ask(scan) => scan.wf(),
            ScanStepView::Done(Ok(found)) => all_well_formed(found),
            ScanStepView::Done(Err(_)) => true,
        }
    }

    /// How many answers this step needs at most to come to the end of the
    /// scan, once the listing is there.
    pub open spec fn answers_left(self) -> int {
        match self {
            ScanStepView::Ask(scan) => scan.answers_left(),
            ScanStepView::Done(_) => 0,
        }
    }
}

/// The step that takes up the entries from `next` on: it asks about the first
/// of them that could be read, and ends the scan with `found` where there is
/// none.
pub open spec fn scan_from(
    parent: Seq<char>,
    entries: Seq<Option<Seq<char>>>,
    next: int,
    found: Seq<RuntimeView>,
) -> ScanStepView
    decreases entries.len() - next,
{
    if next < 0 || next >= entries.len() {
        ScanStepView::Done(Ok(found))
    } else if entries[next] is None {
        scan_from(parent, entries, next + 1, found)
    } else {
        ScanStepView::Ask(
            ScanView { parent, entries, next, found, stage: ScanStageView::CheckingEntry },
        )
    }
}

/// The first step of scanning the directory `parent`.
pub open spec fn scan_start(parent: Seq<char>) -> ScanStepView {
    ScanStepView::Ask(
        ScanView {
            parent,
            entries: Seq::empty(),
            next: 0,
            found: Seq::empty(),
            stage: ScanStageView::Listing,
        },
    )
}

/// Taking up the entries from `next` on gives a well-formed step that holds
/// what was held, at an entry that is not before `next`.
pub proof fn lemma_scan_from_goes_on(
    parent: Seq<char>,
    entries: Seq<Option<Seq<char>>>,
    next: int,
    found: Seq<RuntimeView>,
)
    requires
        0 <= next <= entries.len(),
        all_well_formed(found),
    ensures
        match scan_from(parent, entries, next, found) {
            ScanStepView::Ask(scan) => scan.wf() && scan.stage == ScanStageView::CheckingEntry
                && next <= scan.next && scan.parent == parent && scan.entries == entries
                && scan.found == found,
            ScanStepView::Done(outcome) => outcome == Ok::<Seq<RuntimeView>, ScanError>(found),
        },
    decreases entries.len() - next,
{
    if next < entries.len() && entries[next] is None {
        lemma_scan_from_goes_on(parent, entries, next + 1, found);
    }
}

/// Whatever the filesystem answers, a scan stays well formed, and once it has
/// its listing each answer brings it nearer to its end.
pub proof fn lemma_scan_goes_on(scan: ScanView, reply: FsReplyView)
    requires
        scan.wf(),
    ensures
        scan.resume(reply).wf(),
        scan.resume(reply) matches ScanStepView::Ask(next) ==> !(next.stage is Listing),
        scan.resume(reply).answers_left() >= 0,
        !(scan.stage is Listing) ==> scan.resume(reply).answers_left() < scan.answers_left(),
{
    match scan.stage {
        ScanStageView::Listing => {
            if let FsReplyView::Entries(Some(entries)) = reply {
                lemma_scan_from_goes_on(scan.parent, entries, 0, scan.found);
            }
        },
        ScanStageView::CheckingEntry => {
            lemma_scan_from_goes_on(scan.parent, scan.entries, scan.next + 1, scan.found);
        },
        ScanStageView::Reading(read) => {
            lemma_read_stays_well_formed(read, reply);
            match read.resume(reply) {
                ReadStepView::Ask(_) => {},
                ReadStepView::Done(Ok(runtime)) => {
                    lemma_scan_from_goes_on(
                        scan.parent,
                        scan.entries,
                        scan.next + 1,
                        scan.found.push(runtime),
                    );
                },
                ReadStepView::Done(Err(_)) => {
                    lemma_scan_from_goes_on(scan.parent, scan.entries, scan.next + 1, scan.found);
                },
            }
        },
    }
}

enum ScanStage {
    Listing,
    CheckingEntry,
    Reading(KernelspecRead),
}

/// A scan of a directory of kernel directories that waits on the filesystem.
pub struct KernelsScan {
    parent: String,
    entries: Vec<Option<String>>,
    next: usize,
    found: Vec<Runtime>,
    stage: ScanStage,
}

impl View for KernelsScan {
    type V = ScanView;

    closed spec fn view(&self) -> ScanView {
        ScanView {
            parent: self.parent@,
            entries: self.entries.deep_view(),
            next: self.next as int,
            found: seq_view(self.found@),
            stage: match self.stage {
                ScanStage::Listing => ScanStageView::Listing,
                ScanStage::CheckingEntry => ScanStageView::CheckingEntry,
                ScanStage::Reading(read) => ScanStageView::Reading(read@),
            },
        }
    }
}

/// A step of a scan: a question to bring the answer to, or the outcome.
pub enum ScanStep {
    Ask(KernelsScan),
    Done(Result<Vec<Runtime>, ScanError>),
}

impl View for ScanStep {
    type V = ScanStepView;

    open spec fn view(&self) -> ScanStepView {
        match self {
            ScanStep::Ask(scan) => ScanStepView::Ask(scan@),
            ScanStep::Done(Ok(found)) => ScanStepView::Done(Ok(seq_view(found@))),
            ScanStep::Done(Err(error)) => ScanStepView::Done(Err(*error)),
        }
    }
}

/// Takes up the entries from `next` on.
fn advance(parent: String, entries: Vec<Option<String>>, next: usize, found: Vec<Runtime>) -> (step:
    ScanStep)
    requires
        next <= entries.len(),
        all_well_formed(seq_view(found@)),
    ensures
        step@ == scan_from(parent@, entries.deep_view(), next as int, seq_view(found@)),
{
    let ghost first = next;
    let mut next = next;
    while next < entries.len() && entries[next].is_none()
        invariant
            next <= entries.len(),
            scan_from(parent@, entries.deep_view(), first as int, seq_view(found@)) == scan_from(
                parent@,
                entries.deep_view(),
                next as int,
                seq_view(found@),
            ),
        decreases entries.len() - next,
    {
        next += 1;
    }
    if next < entries.len() {
        ScanStep::Ask(KernelsScan { parent, entries, next, found, stage: ScanStage::CheckingEntry })
    } else {
        ScanStep::Done(Ok(found))
    }
}

impl KernelsScan {
    #[verifier::type_invariant]
    spec fn at_a_readable_entry(self) -> bool {
        self@.wf()
    }

    /// Begins to scan the directory `path` for kernels. The first question
    /// is for its listing.
    pub fn start(path: String) -> (scan: Self)
        ensures
            ScanStepView::Ask(scan@) == scan_start(path@),
            scan@.wf(),
    {
        let scan = KernelsScan {
            parent: path,
            entries: Vec::new(),
            next: 0,
            found: Vec::new(),
            stage: ScanStage::Listing,
        };
        assert(scan@.entries == Seq::<Option<Seq<char>>>::empty());
        assert(scan@.found == Seq::<RuntimeView>::empty());
        scan
    }

    /// The question to put to the filesystem.
    pub fn request(&self) -> (request: FsRequest)
        ensures
            request@ == self@.request(),
            self@.wf(),
    {
        proof {
            use_type_invariant(self);
        }
        match &self.stage {
            ScanStage::Listing => FsRequest::ReadDirectory(self.parent.clone()),
            ScanStage::CheckingEntry => FsRequest::IsDirectory(
                self.entries[self.next].as_ref().unwrap().clone(),
            ),
            ScanStage::Reading(read) => read.request(),
        }
    }

    /// Goes on with the filesystem's answer.
    pub fn resume(self, reply: FsReply) -> (step: ScanStep)
        ensures
            step@ == self@.resume(reply@),
            self@.wf(),
            step@.wf(),
    {
        proof {
            use_type_invariant(&self);
            lemma_scan_goes_on(self@, reply@);
            assert(self.entries.deep_view().len() == self.entries.len());
        }
        let KernelsScan { parent, entries, next, found, stage } = self;
        match stage {
            ScanStage::Listing => match reply {
                FsReply::Entries(Some(listed)) => advance(parent, listed, 0, found),
                _ => ScanStep::Done(Err(ScanError::ListingFailed)),
            },
            ScanStage::CheckingEntry => match reply {
                FsReply::IsDirectory(true) => {
                    let entry = entries[next].as_ref().unwrap().clone();
                    match KernelspecRead::start(entry) {
                        ReadStep::Ask(read) => ScanStep::Ask(
                            KernelsScan {
                                parent,
                                entries,
                                next,
                                found,
                                stage: ScanStage::Reading(read),
                            },
                        ),
                        ReadStep::Done(_) => advance(parent, entries, next + 1, found),
                    }
                },
                _ => advance(parent, entries, next + 1, found),
            },
            ScanStage::Reading(read) => match read.resume(reply) {
                ReadStep::Ask(read) => ScanStep::Ask(
                    KernelsScan { parent, entries, next, found, stage: ScanStage::Reading(read) },
                ),
                ReadStep::Done(Ok(runtime)) => {
                    let ghost before = seq_view(found@);
                    let mut found = found;
                    found.push(runtime);
                    assert(seq_view(found@) == before.push(runtime@));
                    advance(parent, entries, next + 1, found)
                },
                ReadStep::Done(Err(_)) => advance(parent, entries, next + 1, found),
            },
        }
    }
}

} // verus!
