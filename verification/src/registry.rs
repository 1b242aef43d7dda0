//! All the kernels of a machine, from every directory where kernels are
//! installed.
//!
//! Each data directory is scanned on its own. A scan that fails adds nothing
//! and stops no other. Kernels of one name from two directories both stay in
//! the list: which of them wins is the caller's choice.
//!
//! `get_runtimes` scans one directory after the other. A caller that would
//! rather run the scans side by side runs them itself and hands their
//! outcomes to `gather_runtimes`.

use crate::discovery::{answers_as, read_kernels_dir};
use crate::filesystem::{Filesystem, FsReply, FsRequest};
use crate::kernelspecs::{Runtime, RuntimeView};
use crate::paths::{join, joined};
use crate::scanner::{all_well_formed, ScanError};
use crate::views::seq_view;
use vstd::prelude::*;

verus! {

/// The name of the directory that holds the kernels of a data directory.
pub open spec fn kernels_directory_name() -> Seq<char> {
    "kernels"@
}

/// The directories to scan, one below each data directory.
pub open spec fn kernel_directories_of(data_dirs: Seq<Seq<char>>) -> Seq<Seq<char>> {
    Seq::new(data_dirs.len(), |i: int| joined(data_dirs[i], kernels_directory_name()))
}

/// The outcome of a scan, its kernels as mathematical values.
pub open spec fn scan_view(scan: Result<Vec<Runtime>, ScanError>) -> Result<
    Seq<RuntimeView>,
    ScanError,
> {
    match scan {
        Ok(found) => Ok(seq_view(found@)),
        Err(error) => Err(error),
    }
}

/// The kernels that one scan adds to the list: all it found, or none where
/// it failed.
pub open spec fn kernels_of_scan(scan: Result<Seq<RuntimeView>, ScanError>) -> Seq<RuntimeView> {
    match scan {
        Ok(found) => found,
        Err(_) => Seq::empty(),
    }
}

/// The kernels of all the scans, in the order of the scans and, within one
/// scan, in the order in which it found them.
pub open spec fn merged(scans: Seq<Result<Seq<RuntimeView>, ScanError>>) -> Seq<RuntimeView>
    decreases scans.len(),
{
    if scans.len() == 0 {
        Seq::empty()
    } else {
        merged(scans.drop_last()) + kernels_of_scan(scans.last())
    }
}

impl Filesystem {
    /// The kernels of the data directories `data_dirs`: those below the
    /// directory `kernels` of each that can be listed, one directory after
    /// the other.
    pub open spec fn runtimes_below(self, data_dirs: Seq<Seq<char>>) -> Seq<RuntimeView> {
        merged(
            Seq::new(
                data_dirs.len(),
                |i: int| self.kernels_in(joined(data_dirs[i], kernels_directory_name())),
            ),
        )
    }
}

/// Every kernel that a scan found has a place of its own in the list: the
/// kernels of one scan stand behind those of the scans before it, in the order
/// in which the scan found them. So none is dropped, whatever its name.
pub proof fn law_registry_keeps_every_kernel(
    scans: Seq<Result<Seq<RuntimeView>, ScanError>>,
    i: int,
    k: int,
)
    requires
        0 <= i < scans.len(),
        scans[i] is Ok,
        0 <= k < scans[i].unwrap().len(),
    ensures
        merged(scans.take(i)).len() + k < merged(scans).len(),
        merged(scans)[merged(scans.take(i)).len() + k] == scans[i].unwrap()[k],
    decreases scans.len(),
{
    if i == scans.len() - 1 {
    } else {
        law_registry_keeps_every_kernel(scans.drop_last(), i, k);
        assert(scans.drop_last().take(i) == scans.take(i));
    }
}

/// A scan that failed adds nothing to the list and takes nothing from it.
pub proof fn law_failed_scan_adds_nothing(
    scans: Seq<Result<Seq<RuntimeView>, ScanError>>,
    failed: int,
)
    requires
        0 <= failed < scans.len(),
        scans[failed] is Err,
    ensures
        merged(scans) == merged(scans.remove(failed)),
    decreases scans.len(),
{
    let before = merged(scans.drop_last());
    if failed == scans.len() - 1 {
    } else {
        law_failed_scan_adds_nothing(scans.drop_last(), failed);
        assert(scans.remove(failed).drop_last() == scans.drop_last().remove(failed));
    }
}

/// `runtimelib::dirs::data_dirs`, each path as text. The directories depend
/// on the platform, on the user and on the environment, so nothing is said of
/// them.
#[verifier::external_body]
fn data_dirs() -> (dirs: Vec<String>) {
    runtimelib::dirs::data_dirs().iter().map(|dir| dir.to_string_lossy().into_owned()).collect()
}

/// The directories to scan for the data directories `data_dirs`: the
/// directory `kernels` below each.
pub fn kernel_directories(data_dirs: &Vec<String>) -> (dirs: Vec<String>)
    ensures
        dirs.deep_view() == kernel_directories_of(data_dirs.deep_view()),
{
    let mut dirs: Vec<String> = Vec::new();
    let mut i: usize = 0;
    while i < data_dirs.len()
        invariant
            i <= data_dirs.len(),
            dirs.len() == i,
            forall|k: int|
                0 <= k < i ==> #[trigger] dirs@[k]@ == joined(
                    data_dirs@[k]@,
                    kernels_directory_name(),
                ),
        decreases data_dirs.len() - i,
    {
        dirs.push(join(data_dirs[i].as_str(), "kernels"));
        i += 1;
    }
    dirs
}

/// The directories to scan on this machine: the directory `kernels` below
/// each of the platform's data directories for Jupyter.
pub fn standard_kernel_directories() -> (dirs: Vec<String>)
    ensures
        exists|data_dirs: Seq<Seq<char>>| dirs.deep_view() == kernel_directories_of(data_dirs),
{
    let data_dirs = data_dirs();
    kernel_directories(&data_dirs)
}

/// Whether `runtimes` are the kernels of the data directories `data_dirs` on
/// every filesystem that `fs` answers as.
pub open spec fn finds_runtimes_below<F: Fn(FsRequest) -> FsReply>(
    fs: &F,
    data_dirs: Seq<Seq<char>>,
    runtimes: Seq<RuntimeView>,
) -> bool {
    forall|disk: Filesystem| answers_as(fs, disk) ==> runtimes == disk.runtimes_below(data_dirs)
}

/// Scans that end with well-formed kernels give a list of well-formed
/// kernels.
proof fn lemma_merged_well_formed(scans: Seq<Result<Seq<RuntimeView>, ScanError>>)
    requires
        forall|i: int|
            0 <= i < scans.len() ==> all_well_formed(kernels_of_scan(#[trigger] scans[i])),
    ensures
        all_well_formed(merged(scans)),
    decreases scans.len(),
{
    if scans.len() > 0 {
        lemma_merged_well_formed(scans.drop_last());
    }
}

/// Gathers the kernels of all the scans into one list. A scan that failed
/// adds nothing. No kernel is dropped for its name.
pub fn gather_runtimes(scans: Vec<Result<Vec<Runtime>, ScanError>>) -> (runtimes: Vec<Runtime>)
    ensures
        seq_view(runtimes@) == merged(scans@.map_values(|scan| scan_view(scan))),
{
    let ghost outcomes = scans@.map_values(|scan| scan_view(scan));
    let mut runtimes: Vec<Runtime> = Vec::new();
    for scan in it: scans
        invariant
            outcomes == it.seq().map_values(|scan| scan_view(scan)),
            seq_view(runtimes@) == merged(outcomes.take(it.index() as int)),
    {
        assert(outcomes.take(it.index() + 1).drop_last() == outcomes.take(it.index() as int));
        if let Ok(found) = scan {
            let mut found = found;
            runtimes.append(&mut found);
        }
    }
    assert(outcomes.take(outcomes.len() as int) == outcomes);
    runtimes
}

/// Finds the kernels of the data directories `data_dirs`, with `fs` to answer
/// for the filesystem.
///
/// On a filesystem the list holds the kernels below the directory `kernels`
/// of each data directory, one directory after the other. A directory that
/// cannot be listed, or is not there, adds nothing.
pub fn get_runtimes_below<F: Fn(FsRequest) -> FsReply>(data_dirs: &Vec<String>, fs: &F) -> (runtimes:
    Vec<Runtime>)
    requires
        forall|request: FsRequest| call_requires(*fs, (request,)),
    ensures
        finds_runtimes_below(fs, data_dirs.deep_view(), seq_view(runtimes@)),
        all_well_formed(seq_view(runtimes@)),
{
    let dirs = kernel_directories(data_dirs);
    let mut scans: Vec<Result<Vec<Runtime>, ScanError>> = Vec::new();
    let mut i: usize = 0;
    while i < dirs.len()
        invariant
            i <= dirs.len(),
            scans.len() == i,
            forall|request: FsRequest| call_requires(*fs, (request,)),
            forall|disk: Filesystem, k: int|
                #![trigger disk.kernels_in(dirs@[k]@)]
                answers_as(fs, disk) && 0 <= k < i ==> scan_view(scans@[k]) == disk.kernels_in(
                    dirs@[k]@,
                ),
            forall|k: int|
                0 <= k < i ==> all_well_formed(kernels_of_scan(scan_view(#[trigger] scans@[k]))),
        decreases dirs.len() - i,
    {
        let scan = read_kernels_dir(dirs[i].clone(), fs);
        scans.push(scan);
        i += 1;
    }
    let ghost outcomes = scans@.map_values(|scan| scan_view(scan));
    proof {
        lemma_merged_well_formed(outcomes);
        let names = data_dirs.deep_view();
        assert(dirs.deep_view().len() == names.len());
        assert forall|disk: Filesystem| answers_as(fs, disk) implies merged(outcomes)
            == disk.runtimes_below(names) by {
            let held = Seq::new(
                names.len(),
                |i: int| disk.kernels_in(joined(names[i], kernels_directory_name())),
            );
            assert forall|k: int| 0 <= k < outcomes.len() implies outcomes[k] == held[k] by {
                assert(dirs.deep_view()[k] == dirs@[k]@);
            }
            assert(outcomes =~= held);
        }
    }
    gather_runtimes(scans)
}

/// Finds the kernels of this machine, with `fs` to answer for the
/// filesystem: those of the platform's data directories for Jupyter, one
/// directory after the other.
pub fn get_runtimes<F: Fn(FsRequest) -> FsReply>(fs: &F) -> (runtimes: Vec<Runtime>)
    requires
        forall|request: FsRequest| call_requires(*fs, (request,)),
    ensures
        exists|data_dirs: Seq<Seq<char>>| #[trigger]
            finds_runtimes_below(fs, data_dirs, seq_view(runtimes@)),
        all_well_formed(seq_view(runtimes@)),
{
    let data_dirs = data_dirs();
    get_runtimes_below(&data_dirs, fs)
}

} // verus!
