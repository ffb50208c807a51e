//! The path resolver: records arrive in any order relative to their
//! ancestors; a record whose chain is incomplete waits, indexed by the
//! ancestor that was missing, until that ancestor is resolved.

use std::collections::HashMap;
use vstd::prelude::*;
use vstd::std_specs::hash::*;
use vstd::string::*;
use crate::paths::ancestors;
use crate::paths::directory_views;
use crate::paths::drive_prefix;
use crate::paths::fallback_path;
use crate::paths::path_starts_with_drive;
use crate::paths::path_text;
use crate::paths::starts_with;
use crate::paths::try_build_full_path;
use crate::paths::DirectoryEntry;
use crate::paths::DirectoryView;

verus! {

/// A record that has a usable file name.
#[derive(Debug)]
pub struct NamedRecord {
    pub record_number: u64,
    pub filename: String,
    pub parent_ref: Option<u64>,
    pub created: i64,
    pub modified: i64,
    pub accessed: i64,
}

/// The mathematical value of a [`NamedRecord`].
pub struct NamedRecordView {
    pub record_number: u64,
    pub filename: Seq<char>,
    pub parent_ref: Option<u64>,
    pub created: i64,
    pub modified: i64,
    pub accessed: i64,
}

impl View for NamedRecord {
    type V = NamedRecordView;

    open spec fn view(&self) -> NamedRecordView {
        NamedRecordView {
            record_number: self.record_number,
            filename: self.filename@,
            parent_ref: self.parent_ref,
            created: self.created,
            modified: self.modified,
            accessed: self.accessed,
        }
    }
}

/// A file or directory with its path, as handed to the index and the display.
#[derive(Debug)]
pub struct DiscoveredFile {
    pub filename: String,
    pub parent_ref: Option<u64>,
    pub full_path: String,
    pub created: Option<i64>,
    pub modified: Option<i64>,
    pub accessed: Option<i64>,
}

/// The mathematical value of a [`DiscoveredFile`].
pub struct DiscoveredView {
    pub filename: Seq<char>,
    pub parent_ref: Option<u64>,
    pub full_path: Seq<char>,
    pub created: Option<i64>,
    pub modified: Option<i64>,
    pub accessed: Option<i64>,
}

impl View for DiscoveredFile {
    type V = DiscoveredView;

    open spec fn view(&self) -> DiscoveredView {
        DiscoveredView {
            filename: self.filename@,
            parent_ref: self.parent_ref,
            full_path: self.full_path@,
            created: self.created,
            modified: self.modified,
            accessed: self.accessed,
        }
    }
}

/// The values of a sequence of discovered files.
pub open spec fn discovered_views(files: Seq<DiscoveredFile>) -> Seq<DiscoveredView> {
    files.map_values(|f: DiscoveredFile| f@)
}

/// The values of a sequence of named records.
pub open spec fn record_views(records: Seq<NamedRecord>) -> Seq<NamedRecordView> {
    records.map_values(|r: NamedRecord| r@)
}

/// The entry for `record` whose ancestors, outermost first, are `outer`.
/// With no ancestors this is the fallback entry `<L>:\<name>`.
pub open spec fn found(drive_letter: char, record: NamedRecordView, outer: Seq<Seq<char>>)
    -> DiscoveredView {
    DiscoveredView {
        filename: record.filename,
        parent_ref: record.parent_ref,
        full_path: path_text(drive_letter, outer.push(record.filename)),
        created: Some(record.created),
        modified: Some(record.modified),
        accessed: Some(record.accessed),
    }
}

/// The state of a resolver as a mathematical value.
pub struct ResolverModel {
    pub drive_letter: char,
    /// Every named record seen so far.
    pub dirs: Map<u64, DirectoryView>,
    /// The records that had to wait, in the order in which they came.
    pub waiting: Seq<NamedRecordView>,
    /// Which of the waiting records were emitted since.
    pub resolved: Seq<bool>,
    /// For an ancestor that was missing, the waiting records held up by it.
    pub blocked: Map<u64, Seq<usize>>,
}

impl ResolverModel {
    pub open spec fn wf(self) -> bool {
        self.waiting.len() == self.resolved.len()
    }
}

/// The number of waiting records not emitted yet.
pub open spec fn unresolved(resolved: Seq<bool>) -> nat
    decreases resolved.len(),
{
    if resolved.len() == 0 {
        0
    } else {
        unresolved(resolved.drop_last()) + if resolved.last() {
            0nat
        } else {
            1nat
        }
    }
}

/// The waiting records held up by `key`.
pub open spec fn waiting_on(blocked: Map<u64, Seq<usize>>, key: u64) -> Seq<usize> {
    if blocked.contains_key(key) {
        blocked[key]
    } else {
        Seq::empty()
    }
}

/// `blocked` with waiting record `index` held up by `missing`.
pub open spec fn block(blocked: Map<u64, Seq<usize>>, missing: u64, index: usize) -> Map<
    u64,
    Seq<usize>,
> {
    blocked.insert(missing, waiting_on(blocked, missing).push(index))
}

/// Marking an unresolved record lowers the count by one.
pub proof fn unresolved_after_mark(resolved: Seq<bool>, i: int)
    requires
        0 <= i < resolved.len(),
        !resolved[i],
    ensures
        unresolved(resolved.update(i, true)) + 1 == unresolved(resolved),
    decreases resolved.len(),
{
    let marked = resolved.update(i, true);
    if i == resolved.len() - 1 {
        assert(marked.drop_last() =~= resolved.drop_last());
    } else {
        unresolved_after_mark(resolved.drop_last(), i);
        assert(marked.drop_last() =~= resolved.drop_last().update(i, true));
    }
}

/// A record that starts to wait raises the count by one.
pub proof fn unresolved_after_push(resolved: Seq<bool>)
    ensures
        unresolved(resolved.push(false)) == unresolved(resolved) + 1,
{
    assert(resolved.push(false).drop_last() =~= resolved);
}

/// Works off `queue`, last first: a queued record that can be resolved now is
/// emitted and the records it held up join the queue; one that cannot waits
/// on the ancestor that is missing now.
pub open spec fn drain(m: ResolverModel, queue: Seq<usize>, out: Seq<DiscoveredView>) -> (
    ResolverModel,
    Seq<DiscoveredView>,
)
    decreases unresolved(m.resolved), queue.len(),
    via drain_decreases
{
    if queue.len() == 0 {
        (m, out)
    } else {
        let i = queue.last() as int;
        let rest = queue.drop_last();
        if i >= m.waiting.len() || i >= m.resolved.len() || m.resolved[i] {
            drain(m, rest, out)
        } else {
            let p = m.waiting[i];
            match ancestors(m.dirs, p.parent_ref, 0) {
                Ok(outer) => drain(
                    ResolverModel {
                        resolved: m.resolved.update(i, true),
                        blocked: m.blocked.remove(p.record_number),
                        ..m
                    },
                    rest + waiting_on(m.blocked, p.record_number),
                    out.push(found(m.drive_letter, p, outer)),
                ),
                Err(missing) => drain(
                    ResolverModel { blocked: block(m.blocked, missing, queue.last()), ..m },
                    rest,
                    out,
                ),
            }
        }
    }
}

#[via_fn]
proof fn drain_decreases(m: ResolverModel, queue: Seq<usize>, out: Seq<DiscoveredView>) {
    if queue.len() != 0 {
        let i = queue.last() as int;
        if !(i >= m.waiting.len() || i >= m.resolved.len() || m.resolved[i]) {
            unresolved_after_mark(m.resolved, i);
        }
    }
}

/// What accepting `record` does: the record enters the directory map; if its
/// chain is complete it is emitted, and so is every waiting record that this
/// unblocks; if not, it waits on the missing ancestor.
pub open spec fn accept_step(m: ResolverModel, record: NamedRecordView) -> (
    ResolverModel,
    Seq<DiscoveredView>,
) {
    let dirs = m.dirs.insert(
        record.record_number,
        DirectoryView { name: record.filename, parent: record.parent_ref },
    );
    match ancestors(dirs, record.parent_ref, 0) {
        Ok(outer) => drain(
            ResolverModel { dirs, blocked: m.blocked.remove(record.record_number), ..m },
            waiting_on(m.blocked, record.record_number),
            seq![found(m.drive_letter, record, outer)],
        ),
        Err(missing) => (
            ResolverModel {
                dirs,
                waiting: m.waiting.push(record),
                resolved: m.resolved.push(false),
                blocked: block(m.blocked, missing, m.waiting.len() as usize),
                ..m
            },
            Seq::empty(),
        ),
    }
}

/// The fallback entries of the first `n` waiting records that were never
/// resolved, in the order in which the records came.
pub open spec fn stranded(m: ResolverModel, n: nat) -> Seq<DiscoveredView>
    decreases n,
{
    if n == 0 {
        Seq::empty()
    } else {
        let before = stranded(m, (n - 1) as nat);
        if n - 1 < m.resolved.len() && n - 1 < m.waiting.len() && !m.resolved[n - 1] {
            before.push(found(m.drive_letter, m.waiting[n - 1], Seq::empty()))
        } else {
            before
        }
    }
}

/// Whether `file` carries the full path that `dirs` gives it.
pub open spec fn fully_resolved(
    dirs: Map<u64, DirectoryView>,
    drive_letter: char,
    file: DiscoveredView,
) -> bool {
    &&& ancestors(dirs, file.parent_ref, 0) is Ok
    &&& file.full_path == path_text(
        drive_letter,
        ancestors(dirs, file.parent_ref, 0)->Ok_0.push(file.filename),
    )
}

/// Draining keeps the directory map and the waiting list, emits only full
/// paths, and emits exactly as many records as it resolves.
pub proof fn drain_properties(m: ResolverModel, queue: Seq<usize>, out: Seq<DiscoveredView>)
    requires
        m.wf(),
        forall|j: int| 0 <= j < out.len() ==> fully_resolved(m.dirs, m.drive_letter, #[trigger] out[j]),
    ensures
        drain(m, queue, out).0.wf(),
        drain(m, queue, out).0.dirs == m.dirs,
        drain(m, queue, out).0.drive_letter == m.drive_letter,
        drain(m, queue, out).0.waiting == m.waiting,
        drain(m, queue, out).1.len() + unresolved(drain(m, queue, out).0.resolved) == out.len()
            + unresolved(m.resolved),
        forall|j: int|
            0 <= j < drain(m, queue, out).1.len() ==> fully_resolved(
                m.dirs,
                m.drive_letter,
                #[trigger] drain(m, queue, out).1[j],
            ),
    decreases unresolved(m.resolved), queue.len(),
{
    if queue.len() != 0 {
        let i = queue.last() as int;
        let rest = queue.drop_last();
        if i >= m.waiting.len() || i >= m.resolved.len() || m.resolved[i] {
            drain_properties(m, rest, out);
        } else {
            let p = m.waiting[i];
            match ancestors(m.dirs, p.parent_ref, 0) {
                Ok(outer) => {
                    unresolved_after_mark(m.resolved, i);
                    let m2 = ResolverModel {
                        resolved: m.resolved.update(i, true),
                        blocked: m.blocked.remove(p.record_number),
                        ..m
                    };
                    let out2 = out.push(found(m.drive_letter, p, outer));
                    assert forall|j: int| 0 <= j < out2.len() implies fully_resolved(
                        m2.dirs,
                        m2.drive_letter,
                        #[trigger] out2[j],
                    ) by {
                        if j < out.len() {
                            assert(out2[j] == out[j]);
                        }
                    }
                    drain_properties(m2, rest + waiting_on(m.blocked, p.record_number), out2);
                },
                Err(missing) => {
                    drain_properties(
                        ResolverModel { blocked: block(m.blocked, missing, queue.last()), ..m },
                        rest,
                        out,
                    );
                },
            }
        }
    }
}

/// Every record that is accepted is emitted exactly once: at once with its
/// full path, later when its chain is complete, or at the end as stranded.
/// What is emitted on the way carries the full path that the directory map
/// gives, and begins with the prefix of the drive.
pub proof fn accept_properties(m: ResolverModel, record: NamedRecordView)
    requires
        m.wf(),
    ensures
        accept_step(m, record).0.wf(),
        accept_step(m, record).0.drive_letter == m.drive_letter,
        accept_step(m, record).0.dirs == m.dirs.insert(
            record.record_number,
            DirectoryView { name: record.filename, parent: record.parent_ref },
        ),
        accept_step(m, record).1.len() + unresolved(accept_step(m, record).0.resolved)
            == unresolved(m.resolved) + 1,
        forall|j: int|
            0 <= j < accept_step(m, record).1.len() ==> fully_resolved(
                accept_step(m, record).0.dirs,
                m.drive_letter,
                #[trigger] accept_step(m, record).1[j],
            ) && starts_with(accept_step(m, record).1[j].full_path, drive_prefix(m.drive_letter)),
{
    let dirs = m.dirs.insert(
        record.record_number,
        DirectoryView { name: record.filename, parent: record.parent_ref },
    );
    match ancestors(dirs, record.parent_ref, 0) {
        Ok(outer) => {
            let m1 = ResolverModel {
                dirs,
                blocked: m.blocked.remove(record.record_number),
                ..m
            };
            let out1 = seq![found(m.drive_letter, record, outer)];
            drain_properties(m1, waiting_on(m.blocked, record.record_number), out1);
            let res = accept_step(m, record);
            assert forall|j: int| 0 <= j < res.1.len() implies starts_with(
                (#[trigger] res.1[j]).full_path,
                drive_prefix(m.drive_letter),
            ) by {
                path_starts_with_drive(
                    m.drive_letter,
                    ancestors(dirs, res.1[j].parent_ref, 0)->Ok_0.push(res.1[j].filename),
                );
            }
        },
        Err(missing) => {
            unresolved_after_push(m.resolved);
        },
    }
}

/// At the end, as many records are stranded as were never resolved, and each
/// gets the fallback path: the drive prefix and its own name.
pub proof fn stranded_properties(m: ResolverModel, n: nat)
    requires
        m.wf(),
        n <= m.waiting.len(),
    ensures
        stranded(m, n).len() == unresolved(m.resolved.subrange(0, n as int)),
        forall|j: int|
            0 <= j < stranded(m, n).len() ==> (#[trigger] stranded(m, n)[j]).full_path
                == path_text(m.drive_letter, seq![stranded(m, n)[j].filename]) && starts_with(
                stranded(m, n)[j].full_path,
                drive_prefix(m.drive_letter),
            ),
    decreases n,
{
    if n > 0 {
        stranded_properties(m, (n - 1) as nat);
        let before = stranded(m, (n - 1) as nat);
        assert(m.resolved.subrange(0, n as int).drop_last() =~= m.resolved.subrange(0, n - 1));
        assert(m.resolved.subrange(0, n as int).last() == m.resolved[n - 1]);
        let s = stranded(m, n);
        assert forall|j: int| 0 <= j < s.len() implies (#[trigger] s[j]).full_path == path_text(
            m.drive_letter,
            seq![s[j].filename],
        ) && starts_with(s[j].full_path, drive_prefix(m.drive_letter)) by {
            if j < before.len() {
                assert(s[j] == before[j]);
            } else {
                assert(Seq::<Seq<char>>::empty().push(s[j].filename) =~= seq![s[j].filename]);
            }
            path_starts_with_drive(m.drive_letter, seq![s[j].filename]);
        }
    } else {
        assert(m.resolved.subrange(0, 0) =~= Seq::<bool>::empty());
    }
}

/// The index of blocked records as a map of sequences.
pub open spec fn blocked_views(m: Map<u64, Vec<usize>>) -> Map<u64, Seq<usize>> {
    m.map_values(|v: Vec<usize>| v@)
}

fn take_blocked(blocked: &mut HashMap<u64, Vec<usize>>, key: u64) -> (list: Vec<usize>)
    ensures
        list@ == waiting_on(blocked_views(old(blocked)@), key),
        blocked_views(final(blocked)@) == blocked_views(old(blocked)@).remove(key),
{
    broadcast use group_hash_axioms;

    let list = match blocked.remove(&key) {
        Some(list) => list,
        None => Vec::new(),
    };
    assert(blocked_views(blocked@) =~= blocked_views(old(blocked)@).remove(key));
    list
}

fn block_on(blocked: &mut HashMap<u64, Vec<usize>>, missing: u64, index: usize)
    ensures
        blocked_views(final(blocked)@) == block(blocked_views(old(blocked)@), missing, index),
{
    broadcast use group_hash_axioms;

    let mut list = match blocked.remove(&missing) {
        Some(list) => list,
        None => Vec::new(),
    };
    assert(list@ == waiting_on(blocked_views(old(blocked)@), missing));
    list.push(index);
    blocked.insert(missing, list);
    assert(blocked_views(blocked@) =~= block(blocked_views(old(blocked)@), missing, index));
}

fn discovered(drive_letter: char, record: &NamedRecord, full_path: String, Ghost(outer): Ghost<
    Seq<Seq<char>>,
>) -> (file: DiscoveredFile)
    requires
        full_path@ == path_text(drive_letter, outer.push(record.filename@)),
    ensures
        file@ == found(drive_letter, record@, outer),
{
    DiscoveredFile {
        filename: record.filename.clone(),
        parent_ref: record.parent_ref,
        full_path,
        created: Some(record.created),
        modified: Some(record.modified),
        accessed: Some(record.accessed),
    }
}

/// Reconstructs full paths for the named records of one drive.
pub struct PathResolver {
    drive_letter: char,
    directories: HashMap<u64, DirectoryEntry>,
    waiting: Vec<NamedRecord>,
    resolved: Vec<bool>,
    blocked: HashMap<u64, Vec<usize>>,
}

impl View for PathResolver {
    type V = ResolverModel;

    closed spec fn view(&self) -> ResolverModel {
        ResolverModel {
            drive_letter: self.drive_letter,
            dirs: directory_views(self.directories@),
            waiting: record_views(self.waiting@),
            resolved: self.resolved@,
            blocked: blocked_views(self.blocked@),
        }
    }
}

impl PathResolver {
    /// A resolver that has seen no record, for the drive `drive_letter`
    /// (`'?'` where the letter is not known).
    pub fn new(drive_letter: char) -> (r: Self)
        ensures
            r@.wf(),
            r@ == (ResolverModel {
                drive_letter,
                dirs: Map::empty(),
                waiting: Seq::empty(),
                resolved: Seq::empty(),
                blocked: Map::empty(),
            }),
    {
        let r = PathResolver {
            drive_letter,
            directories: HashMap::new(),
            waiting: Vec::new(),
            resolved: Vec::new(),
            blocked: HashMap::new(),
        };
        assert(r@.dirs =~= Map::empty());
        assert(r@.blocked =~= Map::empty());
        assert(r@.waiting =~= Seq::empty());
        r
    }

    /// The drive letter that paths are built with.
    pub fn drive_letter(&self) -> (c: char)
        ensures
            c == self@.drive_letter,
    {
        self.drive_letter
    }

    /// Whether a named record with this number was accepted.
    pub fn knows(&self, record_number: u64) -> (b: bool)
        ensures
            b == self@.dirs.contains_key(record_number),
    {
        broadcast use group_hash_axioms;

        self.directories.contains_key(&record_number)
    }

    /// The number of records that ever had to wait.
    pub fn deferred(&self) -> (n: usize)
        ensures
            n == self@.waiting.len(),
    {
        self.waiting.len()
    }

    /// Takes in one named record and returns what can be emitted now: the
    /// record itself if its chain is complete, and every waiting record that
    /// it unblocks.
    pub fn accept(&mut self, record: NamedRecord) -> (out: Vec<DiscoveredFile>)
        requires
            old(self)@.wf(),
        ensures
            final(self)@.wf(),
            final(self)@ == accept_step(old(self)@, record@).0,
            discovered_views(out@) == accept_step(old(self)@, record@).1,
    {
        broadcast use group_hash_axioms;

        let ghost m0 = self@;
        let ghost target = accept_step(m0, record@);
        proof {
            accept_properties(m0, record@);
        }
        let entry = DirectoryEntry { name: record.filename.clone(), parent: record.parent_ref };
        let ghost entry_view = entry@;
        self.directories.insert(record.record_number, entry);
        let ghost dirs = m0.dirs.insert(record.record_number, entry_view);
        assert(directory_views(self.directories@) =~= dirs);
        let mut out: Vec<DiscoveredFile> = Vec::new();
        let mut queue: Vec<usize> = Vec::new();
        match try_build_full_path(
            record.filename.as_str(),
            record.parent_ref,
            &self.directories,
            self.drive_letter,
        ) {
            Ok(path) => {
                let ghost outer = ancestors(dirs, record.parent_ref, 0)->Ok_0;
                out.push(discovered(self.drive_letter, &record, path, Ghost(outer)));
                queue = take_blocked(&mut self.blocked, record.record_number);
                assert(discovered_views(out@) =~= seq![found(m0.drive_letter, record@, outer)]);
                assert(self@ == (ResolverModel {
                    dirs,
                    blocked: m0.blocked.remove(record.record_number),
                    ..m0
                }));
            },
            Err(missing) => {
                let index = self.waiting.len();
                self.waiting.push(record);
                self.resolved.push(false);
                block_on(&mut self.blocked, missing, index);
                assert(record_views(self.waiting@) =~= m0.waiting.push(record@));
                assert(discovered_views(out@) =~= Seq::empty());
                assert(self@ == target.0);
                return out;
            },
        }
        while queue.len() > 0
            invariant
                self@.wf(),
                drain(self@, queue@, discovered_views(out@)) == target,
                target.0.wf(),
            decreases unresolved(self.resolved@), queue.len(),
        {
            let ghost m = self@;
            let ghost q = queue@;
            let ghost o = discovered_views(out@);
            let index = queue.pop().unwrap();
            assert(queue@ =~= q.drop_last());
            if index >= self.waiting.len() || self.resolved[index] {
                continue ;
            }
            let number = self.waiting[index].record_number;
            let ghost p = m.waiting[index as int];
            assert(p == self.waiting@[index as int]@);
            match try_build_full_path(
                self.waiting[index].filename.as_str(),
                self.waiting[index].parent_ref,
                &self.directories,
                self.drive_letter,
            ) {
                Ok(path) => {
                    let ghost outer = ancestors(m.dirs, p.parent_ref, 0)->Ok_0;
                    let file = discovered(
                        self.drive_letter,
                        &self.waiting[index],
                        path,
                        Ghost(outer),
                    );
                    out.push(file);
                    self.resolved.set(index, true);
                    let mut children = take_blocked(&mut self.blocked, number);
                    queue.append(&mut children);
                    proof {
                        unresolved_after_mark(m.resolved, index as int);
                        assert(discovered_views(out@) =~= o.push(found(m.drive_letter, p, outer)));
                        assert(self@ == (ResolverModel {
                            resolved: m.resolved.update(index as int, true),
                            blocked: m.blocked.remove(p.record_number),
                            ..m
                        }));
                        assert(queue@ =~= q.drop_last() + waiting_on(m.blocked, p.record_number));
                    }
                },
                Err(missing) => {
                    block_on(&mut self.blocked, missing, index);
                    proof {
                        assert(self@ == (ResolverModel {
                            blocked: block(m.blocked, missing, index),
                            ..m
                        }));
                    }
                },
            }
        }
        out
    }

    /// Ends the stream: every record that still waits is emitted with the
    /// fallback path made of the drive prefix and its own name.
    pub fn finish(self) -> (out: Vec<DiscoveredFile>)
        requires
            self@.wf(),
        ensures
            discovered_views(out@) == stranded(self@, self@.waiting.len()),
            out@.len() == unresolved(self@.resolved),
    {
        let mut out: Vec<DiscoveredFile> = Vec::new();
        let mut i: usize = 0;
        assert(discovered_views(out@) =~= stranded(self@, 0));
        while i < self.waiting.len()
            invariant
                self@.wf(),
                i <= self.waiting.len(),
                discovered_views(out@) == stranded(self@, i as nat),
            decreases self.waiting.len() - i,
        {
            let ghost o = discovered_views(out@);
            if !self.resolved[i] {
                let path = fallback_path(self.waiting[i].filename.as_str(), self.drive_letter);
                assert(Seq::<Seq<char>>::empty().push(self.waiting[i as int].filename@) =~= seq![
                    self.waiting[i as int].filename@,
                ]);
                out.push(discovered(self.drive_letter, &self.waiting[i], path, Ghost(Seq::empty())));
                assert(discovered_views(out@) =~= o.push(
                    found(self@.drive_letter, self@.waiting[i as int], Seq::empty()),
                ));
            }
            i += 1;
        }
        proof {
            stranded_properties(self@, self@.waiting.len());
            assert(self@.resolved.subrange(0, self@.waiting.len() as int) =~= self@.resolved);
        }
        out
    }
}

} // verus!
