//! What discovery finds on a filesystem.
//!
//! `Filesystem::kernelspec_at` and `Filesystem::kernels_in` say which kernels
//! a filesystem holds. `read_kernelspec_at` and `read_kernels_dir` find them:
//! each takes the function that answers for the filesystem and runs a read, or
//! a scan, to its end. The laws show the same of a read and a scan that a
//! caller drives step by step.

use crate::descriptor::descriptor;
use crate::filesystem::{Filesystem, FsReply, FsRequest};
use crate::kernelspecs::{Runtime, RuntimeView};
use crate::paths::{final_segment, is_name, joined, law_joined_name_is_final_segment};
use crate::reader::{
    descriptor_file_name,
    read_start,
    KernelspecRead,
    ReadError,
    ReadStage,
    ReadStep,
    ReadStepView,
    ReadView,
};
use crate::registry::scan_view;
use crate::scanner::{
    all_well_formed,
    lemma_scan_from_goes_on,
    lemma_scan_goes_on,
    scan_from,
    scan_start,
    KernelsScan,
    ScanError,
    ScanStageView,
    ScanStep,
    ScanStepView,
    ScanView,
};
use crate::views::result_view;
use vstd::prelude::*;

verus! {

/// What the outcome of a read adds to a scan: the kernel that was read, or
/// nothing.
pub open spec fn kept(outcome: Result<RuntimeView, ReadError>) -> Seq<RuntimeView> {
    match outcome {
        Ok(runtime) => seq![runtime],
        Err(_) => Seq::empty(),
    }
}

impl Filesystem {
    /// What the descriptor below `dir` gives, for a kernel that goes by
    /// `name`.
    pub open spec fn described_at(self, name: Seq<char>, dir: Seq<char>) -> Result<
        RuntimeView,
        ReadError,
    > {
        let file = joined(dir, descriptor_file_name());
        if !self.files.dom().contains(file) {
            Err(ReadError::MissingDescriptor)
        } else {
            match descriptor(self.files[file]) {
                Some(spec) => Ok(RuntimeView { name, path: dir, spec }),
                None => Err(ReadError::MalformedDescriptor),
            }
        }
    }

    /// The kernel that the directory `dir` holds, or the reason it holds
    /// none.
    pub open spec fn kernelspec_at(self, dir: Seq<char>) -> Result<RuntimeView, ReadError> {
        match final_segment(dir) {
            None => Err(ReadError::InvalidDirectory),
            Some(name) => if !self.directories.contains(dir) {
                Err(ReadError::NotADirectory)
            } else {
                self.described_at(name, dir)
            },
        }
    }

    /// What one entry of a listing adds to a scan.
    pub open spec fn kernels_of_entry(self, entry: Option<Seq<char>>) -> Seq<RuntimeView> {
        match entry {
            Some(path) => kept(self.kernelspec_at(path)),
            None => Seq::empty(),
        }
    }

    /// The kernels that the entries of a listing hold, in the order of the
    /// listing.
    pub open spec fn kernels_among(self, entries: Seq<Option<Seq<char>>>) -> Seq<RuntimeView>
        decreases entries.len(),
    {
        if entries.len() == 0 {
            Seq::empty()
        } else {
            self.kernels_of_entry(entries[0]) + self.kernels_among(entries.skip(1))
        }
    }

    /// The kernels below the directory `parent`, or the reason there is no
    /// telling.
    pub open spec fn kernels_in(self, parent: Seq<char>) -> Result<Seq<RuntimeView>, ScanError> {
        if self.listings.dom().contains(parent) {
            Ok(self.kernels_among(self.listings[parent]))
        } else {
            Err(ScanError::ListingFailed)
        }
    }

    /// A number of answers that is enough to scan `parent`: one for the
    /// listing and three for each entry.
    pub open spec fn answers_to_scan(self, parent: Seq<char>) -> nat {
        if self.listings.dom().contains(parent) {
            3 * self.listings[parent].len() + 1
        } else {
            1
        }
    }
}

/// Where a read stands after up to `answers` answers of `fs`.
pub open spec fn drive_read(fs: Filesystem, step: ReadStepView, answers: nat) -> ReadStepView
    decreases answers,
{
    match step {
        ReadStepView::Ask(read) => if answers == 0 {
            step
        } else {
            drive_read(fs, read.resume(fs.answer(read.request())), (answers - 1) as nat)
        },
        ReadStepView::Done(_) => step,
    }
}

/// Where a scan stands after up to `answers` answers of `fs`.
pub open spec fn drive_scan(fs: Filesystem, step: ScanStepView, answers: nat) -> ScanStepView
    decreases answers,
{
    match step {
        ScanStepView::Ask(scan) => if answers == 0 {
            step
        } else {
            drive_scan(fs, scan.resume(fs.answer(scan.request())), (answers - 1) as nat)
        },
        ScanStepView::Done(_) => step,
    }
}

/// What a read under way ends with on `fs`.
spec fn read_outcome(fs: Filesystem, read: ReadView) -> Result<RuntimeView, ReadError> {
    match read.stage {
        ReadStage::CheckingDirectory => if !fs.directories.contains(read.dir) {
            Err(ReadError::NotADirectory)
        } else {
            fs.described_at(read.name, read.dir)
        },
        ReadStage::LoadingDescriptor => fs.described_at(read.name, read.dir),
    }
}

/// What a scan under way ends with on `fs`.
spec fn scan_outcome(fs: Filesystem, scan: ScanView) -> Result<Seq<RuntimeView>, ScanError> {
    match scan.stage {
        ScanStageView::Listing => fs.kernels_in(scan.parent),
        ScanStageView::CheckingEntry => Ok(
            scan.found + fs.kernels_among(scan.entries.skip(scan.next)),
        ),
        ScanStageView::Reading(read) => Ok(
            scan.found + kept(read_outcome(fs, read)) + fs.kernels_among(
                scan.entries.skip(scan.next + 1),
            ),
        ),
    }
}

/// What a step of a read ends with on `fs`.
spec fn read_step_outcome(fs: Filesystem, step: ReadStepView) -> Result<RuntimeView, ReadError> {
    match step {
        ReadStepView::Ask(read) => read_outcome(fs, read),
        ReadStepView::Done(outcome) => outcome,
    }
}

/// What a step of a scan ends with on `fs`.
spec fn scan_step_outcome(fs: Filesystem, step: ScanStepView) -> Result<
    Seq<RuntimeView>,
    ScanError,
> {
    match step {
        ScanStepView::Ask(scan) => scan_outcome(fs, scan),
        ScanStepView::Done(outcome) => outcome,
    }
}

/// How many answers a read needs at most to come to its end.
spec fn read_answers_left(step: ReadStepView) -> int {
    match step {
        ReadStepView::Ask(read) => match read.stage {
            ReadStage::CheckingDirectory => 2,
            ReadStage::LoadingDescriptor => 1,
        },
        ReadStepView::Done(_) => 0,
    }
}

/// One answer of `fs` leaves what a read ends with as it was.
proof fn lemma_read_step(fs: Filesystem, read: ReadView)
    ensures
        read_step_outcome(fs, read.resume(fs.answer(read.request()))) == read_outcome(fs, read),
{
}

/// Taking up the entries from `next` on ends, on `fs`, with what is held and
/// the kernels of those entries.
proof fn lemma_scan_from(
    fs: Filesystem,
    parent: Seq<char>,
    entries: Seq<Option<Seq<char>>>,
    next: int,
    found: Seq<RuntimeView>,
)
    requires
        0 <= next <= entries.len(),
    ensures
        scan_step_outcome(fs, scan_from(parent, entries, next, found)) == Ok::<
            Seq<RuntimeView>,
            ScanError,
        >(found + fs.kernels_among(entries.skip(next))),
    decreases entries.len() - next,
{
    if next < entries.len() && entries[next] is None {
        lemma_scan_from(fs, parent, entries, next + 1, found);
        assert(entries.skip(next).skip(1) == entries.skip(next + 1));
    }
}

/// One answer of `fs` leaves what a scan ends with as it was.
proof fn lemma_scan_step(fs: Filesystem, scan: ScanView)
    requires
        scan.wf(),
    ensures
        scan_step_outcome(fs, scan.resume(fs.answer(scan.request()))) == scan_outcome(fs, scan),
{
    let rest = fs.kernels_among(scan.entries.skip(scan.next + 1));
    match scan.stage {
        ScanStageView::Listing => {
            if fs.listings.dom().contains(scan.parent) {
                let entries = fs.listings[scan.parent];
                lemma_scan_from(fs, scan.parent, entries, 0, scan.found);
                assert(entries.skip(0) == entries);
            }
        },
        ScanStageView::CheckingEntry => {
            let path = scan.entries[scan.next].unwrap();
            lemma_scan_from(fs, scan.parent, scan.entries, scan.next + 1, scan.found);
            assert(scan.entries.skip(scan.next).skip(1) == scan.entries.skip(scan.next + 1));
            assert(scan.found + (kept(fs.kernelspec_at(path)) + rest) == scan.found + kept(
                fs.kernelspec_at(path),
            ) + rest);
        },
        ScanStageView::Reading(read) => {
            lemma_read_step(fs, read);
            match read.resume(fs.answer(read.request())) {
                ReadStepView::Ask(_) => {},
                ReadStepView::Done(Ok(runtime)) => {
                    lemma_scan_from(
                        fs,
                        scan.parent,
                        scan.entries,
                        scan.next + 1,
                        scan.found.push(runtime),
                    );
                    assert(scan.found.push(runtime) + rest == scan.found + seq![runtime] + rest);
                },
                ReadStepView::Done(Err(_)) => {
                    lemma_scan_from(fs, scan.parent, scan.entries, scan.next + 1, scan.found);
                },
            }
        },
    }
}

/// A scan that has its listing ends, on `fs`, within the answers that are
/// left to it.
proof fn lemma_drive_scan(fs: Filesystem, step: ScanStepView, answers: nat)
    requires
        step.wf(),
        step matches ScanStepView::Ask(scan) ==> !(scan.stage is Listing),
        answers >= step.answers_left(),
    ensures
        drive_scan(fs, step, answers) == ScanStepView::Done(scan_step_outcome(fs, step)),
    decreases answers,
{
    if let ScanStepView::Ask(scan) = step {
        let reply = fs.answer(scan.request());
        lemma_scan_goes_on(scan, reply);
        lemma_scan_step(fs, scan);
        lemma_drive_scan(fs, scan.resume(reply), (answers - 1) as nat);
    }
}

/// Whether the function `fs` answers every question as the filesystem `disk`
/// does.
pub open spec fn answers_as<F: Fn(FsRequest) -> FsReply>(fs: &F, disk: Filesystem) -> bool {
    forall|request: FsRequest, reply: FsReply| #[trigger]
        call_ensures(*fs, (request,), reply) ==> reply@ == disk.answer(request@)
}

/// Reads the kernel in the directory `kernel_dir`, such as
/// `/usr/local/share/jupyter/kernels/python3`, with `fs` to answer for the
/// filesystem.
///
/// On a filesystem the outcome is the kernel that the directory holds there,
/// or the reason it holds none. Whatever `fs` answers, a kernel that was read
/// goes by the final segment of `kernel_dir`, not by anything in its
/// descriptor, and a path without such a segment is refused unasked.
pub fn read_kernelspec_at<F: Fn(FsRequest) -> FsReply>(kernel_dir: String, fs: &F) -> (outcome:
    Result<Runtime, ReadError>)
    requires
        forall|request: FsRequest| call_requires(*fs, (request,)),
    ensures
        forall|disk: Filesystem|
            answers_as(fs, disk) ==> result_view(outcome) == disk.kernelspec_at(kernel_dir@),
        outcome matches Ok(runtime) ==> runtime@.wf() && runtime@.path == kernel_dir@,
        outcome matches Err(ReadError::InvalidDirectory) <==> final_segment(kernel_dir@) is None,
{
    let ghost dir = kernel_dir@;
    let mut step = KernelspecRead::start(kernel_dir);
    loop
        invariant
            dir == kernel_dir@,
            forall|request: FsRequest| call_requires(*fs, (request,)),
            step@.wf(),
            forall|disk: Filesystem|
                answers_as(fs, disk) ==> read_step_outcome(disk, step@) == disk.kernelspec_at(dir),
            step@ matches ReadStepView::Ask(read) ==> read.dir == dir && final_segment(dir) is Some,
            step@ matches ReadStepView::Done(Ok(runtime)) ==> runtime.path == dir,
            step@ matches ReadStepView::Done(Err(ReadError::InvalidDirectory)) <==> final_segment(
                dir,
            ) is None,
        decreases read_answers_left(step@),
    {
        match step {
            ReadStep::Ask(read) => {
                let reply = fs(read.request());
                proof {
                    assert forall|disk: Filesystem| answers_as(fs, disk) implies read_step_outcome(
                        disk,
                        read@.resume(reply@),
                    ) == disk.kernelspec_at(dir) by {
                        lemma_read_step(disk, read@);
                    }
                }
                step = read.resume(reply);
            },
            ReadStep::Done(outcome) => {
                return outcome;
            },
        }
    }
}

/// Scans the directory `path` for kernels, with `fs` to answer for the
/// filesystem.
///
/// On a filesystem the outcome is the list of the kernels that the entries of
/// the directory hold there, in the order of the listing. An entry that
/// holds none is passed over and stops nothing. The scan fails only where the
/// directory cannot be listed. Whatever `fs` answers, each kernel of the list
/// goes by the final segment of its path.
pub fn read_kernels_dir<F: Fn(FsRequest) -> FsReply>(path: String, fs: &F) -> (outcome: Result<
    Vec<Runtime>,
    ScanError,
>)
    requires
        forall|request: FsRequest| call_requires(*fs, (request,)),
    ensures
        forall|disk: Filesystem|
            answers_as(fs, disk) ==> scan_view(outcome) == disk.kernels_in(path@),
        scan_view(outcome) matches Ok(found) ==> all_well_formed(found),
{
    let ghost parent = path@;
    let scan = KernelsScan::start(path);
    let reply = fs(scan.request());
    proof {
        lemma_scan_goes_on(scan@, reply@);
        assert forall|disk: Filesystem| answers_as(fs, disk) implies scan_step_outcome(
            disk,
            scan@.resume(reply@),
        ) == disk.kernels_in(parent) by {
            lemma_scan_step(disk, scan@);
        }
    }
    let mut step = scan.resume(reply);
    loop
        invariant
            parent == path@,
            forall|request: FsRequest| call_requires(*fs, (request,)),
            step@.wf(),
            step@ matches ScanStepView::Ask(scan) ==> !(scan.stage is Listing),
            step@.answers_left() >= 0,
            forall|disk: Filesystem|
                answers_as(fs, disk) ==> scan_step_outcome(disk, step@) == disk.kernels_in(parent),
        decreases step@.answers_left(),
    {
        match step {
            ScanStep::Ask(scan) => {
                let reply = fs(scan.request());
                proof {
                    lemma_scan_goes_on(scan@, reply@);
                    assert forall|disk: Filesystem| answers_as(fs, disk) implies scan_step_outcome(
                        disk,
                        scan@.resume(reply@),
                    ) == disk.kernels_in(parent) by {
                        lemma_scan_step(disk, scan@);
                    }
                }
                step = scan.resume(reply);
            },
            ScanStep::Done(outcome) => {
                return outcome;
            },
        }
    }
}

/// A read that is driven with the answers of one filesystem ends, after two
/// answers at most, with the kernel that the directory holds there, or with
/// the reason it holds none.
pub proof fn law_read_finds_what_the_filesystem_holds(fs: Filesystem, dir: Seq<char>)
    ensures
        drive_read(fs, read_start(dir), 2) == ReadStepView::Done(fs.kernelspec_at(dir)),
{
    reveal_with_fuel(drive_read, 3);
    match read_start(dir) {
        ReadStepView::Ask(read) => {
            lemma_read_step(fs, read);
            match read.resume(fs.answer(read.request())) {
                ReadStepView::Ask(next) => {
                    lemma_read_step(fs, next);
                },
                ReadStepView::Done(_) => {},
            }
        },
        ReadStepView::Done(_) => {},
    }
}

/// A kernel goes by the final segment of its directory, whatever its
/// descriptor holds: wherever a directory with such a segment holds a
/// `kernel.json` that fits the format, the read ends with a kernel of that
/// name, at that path, with what the file describes.
pub proof fn law_kernel_is_named_by_its_directory(fs: Filesystem, dir: Seq<char>)
    requires
        final_segment(dir) is Some,
        fs.directories.contains(dir),
        fs.files.dom().contains(joined(dir, descriptor_file_name())),
        descriptor(fs.files[joined(dir, descriptor_file_name())]) is Some,
    ensures
        drive_read(fs, read_start(dir), 2) == ReadStepView::Done(
            Ok(
                RuntimeView {
                    name: final_segment(dir).unwrap(),
                    path: dir,
                    spec: descriptor(fs.files[joined(dir, descriptor_file_name())]).unwrap(),
                },
            ),
        ),
{
    law_read_finds_what_the_filesystem_holds(fs, dir);
}

/// A kernel in the directory called `name` below `parent` goes by `name`.
pub proof fn law_kernel_below_goes_by_its_entry(
    fs: Filesystem,
    parent: Seq<char>,
    name: Seq<char>,
)
    requires
        is_name(name),
        fs.kernelspec_at(joined(parent, name)) is Ok,
    ensures
        fs.kernelspec_at(joined(parent, name)).unwrap().name == name,
{
    law_joined_name_is_final_segment(parent, name);
}

/// A scan that is driven with the answers of one filesystem ends with the
/// kernels that the entries of the directory hold there, in the order of the
/// listing, and fails only where the directory cannot be listed. One answer
/// for the listing and three for each entry are enough.
pub proof fn law_scan_finds_what_the_filesystem_holds(
    fs: Filesystem,
    parent: Seq<char>,
    answers: nat,
)
    requires
        answers >= fs.answers_to_scan(parent),
    ensures
        drive_scan(fs, scan_start(parent), answers) == ScanStepView::Done(fs.kernels_in(parent)),
{
    let scan = scan_start(parent)->Ask_0;
    let reply = fs.answer(scan.request());
    lemma_scan_goes_on(scan, reply);
    lemma_scan_step(fs, scan);
    if fs.listings.dom().contains(parent) {
        lemma_scan_from_goes_on(parent, fs.listings[parent], 0, scan.found);
    }
    lemma_drive_scan(fs, scan.resume(reply), (answers - 1) as nat);
}

/// Every kernel that a listing gives is the kernel of the directory that it
/// names.
pub proof fn law_found_kernels_are_held(
    fs: Filesystem,
    entries: Seq<Option<Seq<char>>>,
    k: int,
)
    requires
        0 <= k < fs.kernels_among(entries).len(),
    ensures
        fs.kernelspec_at(fs.kernels_among(entries)[k].path) == Ok::<RuntimeView, ReadError>(
            fs.kernels_among(entries)[k],
        ),
        entries.contains(Some(fs.kernels_among(entries)[k].path)),
    decreases entries.len(),
{
    let first = fs.kernels_of_entry(entries[0]);
    if k >= first.len() {
        law_found_kernels_are_held(fs, entries.skip(1), k - first.len());
    }
}

/// Every entry of a listing that holds a kernel gives that kernel.
pub proof fn law_held_kernels_are_found(fs: Filesystem, entries: Seq<Option<Seq<char>>>, j: int)
    requires
        0 <= j < entries.len(),
        entries[j] is Some,
        fs.kernelspec_at(entries[j].unwrap()) is Ok,
    ensures
        fs.kernels_among(entries).contains(fs.kernelspec_at(entries[j].unwrap()).unwrap()),
    decreases entries.len(),
{
    let runtime = fs.kernelspec_at(entries[j].unwrap()).unwrap();
    let first = fs.kernels_of_entry(entries[0]);
    let rest = fs.kernels_among(entries.skip(1));
    if j == 0 {
        assert((first + rest)[0] == runtime);
    } else {
        law_held_kernels_are_found(fs, entries.skip(1), j - 1);
        let at = choose|i: int| 0 <= i < rest.len() && rest[i] == runtime;
        assert((first + rest)[first.len() + at] == runtime);
    }
}

/// A failure stays with its entry. Where the directory at one entry of
/// `parent` gives no kernel, be its `kernel.json` missing, unreadable or
/// malformed, the scan of `parent` gives no kernel at that path, and it still
/// gives the kernel of every other entry that holds one.
pub proof fn law_scan_isolates_failures(fs: Filesystem, parent: Seq<char>, broken: int, valid: int)
    requires
        fs.listings.dom().contains(parent),
        0 <= broken < fs.listings[parent].len(),
        fs.listings[parent][broken] is Some,
        fs.kernelspec_at(fs.listings[parent][broken].unwrap()) is Err,
        0 <= valid < fs.listings[parent].len(),
        fs.listings[parent][valid] is Some,
        fs.kernelspec_at(fs.listings[parent][valid].unwrap()) is Ok,
    ensures
        fs.kernels_in(parent) is Ok,
        fs.kernels_in(parent).unwrap().contains(
            fs.kernelspec_at(fs.listings[parent][valid].unwrap()).unwrap(),
        ),
        forall|k: int|
            0 <= k < fs.kernels_in(parent).unwrap().len() ==> (#[trigger] fs.kernels_in(
                parent,
            ).unwrap()[k]).path != fs.listings[parent][broken].unwrap(),
{
    let entries = fs.listings[parent];
    law_held_kernels_are_found(fs, entries, valid);
    assert forall|k: int| 0 <= k < fs.kernels_among(entries).len() implies (
    #[trigger] fs.kernels_among(entries)[k]).path != entries[broken].unwrap() by {
        law_found_kernels_are_held(fs, entries, k);
    }
}

} // verus!
