use crate::state::{queue_contains, queued};
use std::collections::VecDeque;
use vstd::prelude::*;

verus! {

/// Seconds in a day.
pub const SECS_PER_DAY: u64 = 86400;

/// A local video file and its age, in seconds since its creation.
#[derive(Debug)]
pub struct VideoFile {
    pub name: String,
    pub age_secs: u64,
}

/// A file of age `age_secs` has outlived a horizon of `keep_days` whole days.
pub open spec fn expired(age_secs: u64, keep_days: u64) -> bool {
    (age_secs as int) / (SECS_PER_DAY as int) > keep_days as int
}

/// Retention may delete the file: it is not pending delivery and has outlived
/// its class's horizon.
pub open spec fn removable(f: VideoFile, queue: Seq<String>, keep_days: u64) -> bool {
    !queued(queue, f.name@) && expired(f.age_secs, keep_days)
}

/// The names of the files of `files` that retention may delete, in order.
pub open spec fn removable_names(files: Seq<VideoFile>, queue: Seq<String>, keep_days: u64) -> Seq<
    Seq<char>,
>
    decreases files.len(),
{
    if files.len() == 0 {
        Seq::empty()
    } else {
        let init = removable_names(files.drop_last(), queue, keep_days);
        if removable(files.last(), queue, keep_days) {
            init.push(files.last().name@)
        } else {
            init
        }
    }
}

/// Whether retention may delete `file`, given its class's queue and horizon.
pub fn is_removable(file: &VideoFile, queue: &VecDeque<String>, keep_days: u64) -> (r: bool)
    ensures
        r == removable(*file, queue@, keep_days),
{
    !queue_contains(queue, &file.name) && file.age_secs / SECS_PER_DAY > keep_days
}

/// Every name retention picks is that of a listed file which is not queued
/// for delivery and has outlived the horizon; so a queued file, of any age,
/// is never picked.
pub proof fn lemma_removable_names_sound(
    files: Seq<VideoFile>,
    queue: Seq<String>,
    keep_days: u64,
    k: int,
)
    requires
        0 <= k < removable_names(files, queue, keep_days).len(),
    ensures
        exists|i: int|
            0 <= i < files.len() && (#[trigger] files[i]).name@ == removable_names(
                files,
                queue,
                keep_days,
            )[k] && expired(files[i].age_secs, keep_days),
        !queued(queue, removable_names(files, queue, keep_days)[k]),
    decreases files.len(),
{
    let init = removable_names(files.drop_last(), queue, keep_days);
    if k < init.len() {
        lemma_removable_names_sound(files.drop_last(), queue, keep_days, k);
        let i = choose|i: int|
            0 <= i < files.drop_last().len() && (#[trigger] files.drop_last()[i]).name@ == init[k]
                && expired(files.drop_last()[i].age_secs, keep_days);
        assert(files[i] == files.drop_last()[i]);
    } else {
        assert(files[files.len() - 1] == files.last());
    }
}

/// A file is picked exactly when it is removable: no removable file is missed.
pub proof fn lemma_removable_names_complete(
    files: Seq<VideoFile>,
    queue: Seq<String>,
    keep_days: u64,
    i: int,
)
    requires
        0 <= i < files.len(),
        removable(files[i], queue, keep_days),
    ensures
        removable_names(files, queue, keep_days).contains(files[i].name@),
    decreases files.len(),
{
    let init = removable_names(files.drop_last(), queue, keep_days);
    if i < files.len() - 1 {
        assert(files.drop_last()[i] == files[i]);
        lemma_removable_names_complete(files.drop_last(), queue, keep_days, i);
        let k = choose|k: int| 0 <= k < init.len() && init[k] == files[i].name@;
        assert(removable_names(files, queue, keep_days)[k] == init[k]);
    } else {
        let r = removable_names(files, queue, keep_days);
        assert(r[r.len() - 1] == files[i].name@);
    }
}

/// The names, in order, of the files of `files` that retention may delete.
pub fn retention_victims(files: &Vec<VideoFile>, queue: &VecDeque<String>, keep_days: u64) -> (r:
    Vec<String>)
    ensures
        r@.map_values(|s: String| s@) == removable_names(files@, queue@, keep_days),
        forall|k: int| 0 <= k < r@.len() ==> !queued(queue@, (#[trigger] r@[k])@),
{
    let mut out: Vec<String> = Vec::new();
    let n = files.len();
    let mut i: usize = 0;
    while i < n
        invariant
            n == files@.len(),
            i <= n,
            out@.map_values(|s: String| s@) == removable_names(
                files@.subrange(0, i as int),
                queue@,
                keep_days,
            ),
        decreases n - i,
    {
        let ghost before = out@;
        assert(files@.subrange(0, i + 1).drop_last() =~= files@.subrange(0, i as int));
        if is_removable(&files[i], queue, keep_days) {
            out.push(files[i].name.clone());
            assert(out@.map_values(|s: String| s@) =~= before.map_values(|s: String| s@).push(
                files@[i as int].name@,
            ));
        }
        i = i + 1;
    }
    assert(files@.subrange(0, n as int) =~= files@);
    proof {
        assert forall|k: int| 0 <= k < out@.len() implies !queued(queue@, (#[trigger] out@[k])@) by {
            assert(out@.map_values(|s: String| s@)[k] == out@[k]@);
            lemma_removable_names_sound(files@, queue@, keep_days, k);
        }
    }
    out
}

} // verus!
