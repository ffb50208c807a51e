//! Full paths from parent references: the walk towards the volume root and
//! the text of a path.

use std::collections::HashMap;
use vstd::prelude::*;
use vstd::std_specs::hash::*;
use vstd::string::*;

verus! {

/// Record number of the volume root: a walk ends when it reaches it.
pub const ROOT_RECORD: u64 = 5;

/// Number of hops after which a walk is cut off, as a guard against cycles.
pub const MAX_HOPS: usize = 4096;

/// The drive letter that stands for "not known".
pub const UNKNOWN_DRIVE: char = '?';

/// What the resolver remembers of a named record.
#[derive(Debug)]
pub struct DirectoryEntry {
    pub name: String,
    pub parent: Option<u64>,
}

/// The mathematical value of a [`DirectoryEntry`].
pub struct DirectoryView {
    pub name: Seq<char>,
    pub parent: Option<u64>,
}

impl View for DirectoryEntry {
    type V = DirectoryView;

    open spec fn view(&self) -> DirectoryView {
        DirectoryView { name: self.name@, parent: self.parent }
    }
}

/// The directory map as a map of values.
pub open spec fn directory_views(m: Map<u64, DirectoryEntry>) -> Map<u64, DirectoryView> {
    m.map_values(|d: DirectoryEntry| d@)
}

/// The name `"."`, under which a root directory stores itself.
pub open spec fn dot() -> Seq<char> {
    seq!['.']
}

/// The names of the ancestors of a record, outermost first, found by walking
/// from `current` through `dirs`.
///
/// The walk ends without error at a record without parent, at the root record, at
/// a directory named `"."`, and after `MAX_HOPS` hops. It fails with the
/// number of the first ancestor that `dirs` does not hold.
pub open spec fn ancestors(dirs: Map<u64, DirectoryView>, current: Option<u64>, hops: nat) -> Result<
    Seq<Seq<char>>,
    u64,
>
    decreases MAX_HOPS - hops,
{
    match current {
        None => Ok(Seq::empty()),
        Some(pid) => {
            if hops >= MAX_HOPS {
                Ok(Seq::empty())
            } else if pid == ROOT_RECORD {
                Ok(Seq::empty())
            } else if !dirs.contains_key(pid) {
                Err(pid)
            } else if dirs[pid].name == dot() {
                Ok(Seq::empty())
            } else {
                match ancestors(dirs, dirs[pid].parent, hops + 1) {
                    Ok(outer) => Ok(outer.push(dirs[pid].name)),
                    Err(missing) => Err(missing),
                }
            }
        },
    }
}

/// The record numbers that the walk passes, nearest first: the parent chain
/// as far as `dirs` holds it.
pub open spec fn chain(dirs: Map<u64, DirectoryView>, current: Option<u64>, hops: nat) -> Seq<u64>
    decreases MAX_HOPS - hops,
{
    match current {
        None => Seq::empty(),
        Some(pid) => {
            if hops >= MAX_HOPS || pid == ROOT_RECORD || !dirs.contains_key(pid) || dirs[pid].name
                == dot() {
                Seq::empty()
            } else {
                seq![pid] + chain(dirs, dirs[pid].parent, hops + 1)
            }
        },
    }
}

/// Whether the walk from `current` never comes to an end by itself, as on a
/// cycle of parent references: only the hop guard stops it.
pub open spec fn unending(dirs: Map<u64, DirectoryView>, current: Option<u64>, hops: nat) -> bool
    decreases MAX_HOPS - hops,
{
    if hops >= MAX_HOPS {
        true
    } else {
        match current {
            None => false,
            Some(pid) => pid != ROOT_RECORD && dirs.contains_key(pid) && dirs[pid].name != dot()
                && unending(dirs, dirs[pid].parent, hops + 1),
        }
    }
}

/// Components joined by backslashes.
pub open spec fn joined(components: Seq<Seq<char>>) -> Seq<char>
    decreases components.len(),
{
    if components.len() == 0 {
        Seq::empty()
    } else if components.len() == 1 {
        components[0]
    } else {
        joined(components.drop_last()) + seq!['\\'] + components.last()
    }
}

/// What every path of a drive starts with: `<L>:\`, or `\` where the drive
/// letter is not known.
pub open spec fn drive_prefix(drive_letter: char) -> Seq<char> {
    if drive_letter == UNKNOWN_DRIVE {
        seq!['\\']
    } else {
        seq![drive_letter, ':', '\\']
    }
}

/// The text of the path with the given components, outermost first.
pub open spec fn path_text(drive_letter: char, components: Seq<Seq<char>>) -> Seq<char> {
    drive_prefix(drive_letter) + joined(components)
}

/// Whether `text` begins with `prefix`.
pub open spec fn starts_with(text: Seq<char>, prefix: Seq<char>) -> bool {
    prefix.len() <= text.len() && text.subrange(0, prefix.len() as int) == prefix
}

/// Every path begins with the prefix of its drive.
pub proof fn path_starts_with_drive(drive_letter: char, components: Seq<Seq<char>>)
    ensures
        starts_with(path_text(drive_letter, components), drive_prefix(drive_letter)),
        drive_letter != UNKNOWN_DRIVE ==> path_text(drive_letter, components).len() >= 3
            && path_text(drive_letter, components)[0] == drive_letter && path_text(
            drive_letter,
            components,
        )[1] == ':' && path_text(drive_letter, components)[2] == '\\',
        drive_letter == UNKNOWN_DRIVE ==> path_text(drive_letter, components).len() >= 1
            && path_text(drive_letter, components)[0] == '\\',
{
    let p = drive_prefix(drive_letter);
    let t = path_text(drive_letter, components);
    assert(t.subrange(0, p.len() as int) =~= p);
}

/// Where the whole parent chain is held, the path has one component for each
/// record of the chain and one for the record's own name, and component `i`
/// from the end is the name of the `i`-th record of the chain.
pub proof fn complete_chain_components(
    dirs: Map<u64, DirectoryView>,
    current: Option<u64>,
    hops: nat,
)
    requires
        ancestors(dirs, current, hops) is Ok,
    ensures
        ancestors(dirs, current, hops)->Ok_0.len() == chain(dirs, current, hops).len(),
        forall|i: int|
            0 <= i < chain(dirs, current, hops).len() ==> dirs.contains_key(
                #[trigger] chain(dirs, current, hops)[i],
            ) && ancestors(dirs, current, hops)->Ok_0[chain(dirs, current, hops).len() - 1 - i]
                == dirs[chain(dirs, current, hops)[i]].name,
    decreases MAX_HOPS - hops,
{
    match current {
        None => {},
        Some(pid) => {
            if hops >= MAX_HOPS || pid == ROOT_RECORD || !dirs.contains_key(pid) || dirs[pid].name
                == dot() {
            } else {
                complete_chain_components(dirs, dirs[pid].parent, hops + 1);
                let inner = chain(dirs, dirs[pid].parent, hops + 1);
                let outer = ancestors(dirs, dirs[pid].parent, hops + 1)->Ok_0;
                let c = chain(dirs, current, hops);
                assert(c == seq![pid] + inner);
                assert forall|i: int| 0 <= i < c.len() implies dirs.contains_key(#[trigger] c[i])
                    && ancestors(dirs, current, hops)->Ok_0[c.len() - 1 - i]
                    == dirs[c[i]].name by {
                    if i > 0 {
                        assert(c[i] == inner[i - 1]);
                    }
                }
            }
        },
    }
}

/// A walk never collects more names than the hop guard allows.
pub proof fn walk_is_bounded(dirs: Map<u64, DirectoryView>, current: Option<u64>, hops: nat)
    requires
        hops <= MAX_HOPS,
    ensures
        ancestors(dirs, current, hops) is Ok ==> ancestors(dirs, current, hops)->Ok_0.len()
            <= MAX_HOPS - hops,
        chain(dirs, current, hops).len() <= MAX_HOPS - hops,
    decreases MAX_HOPS - hops,
{
    match current {
        None => {},
        Some(pid) => {
            if hops >= MAX_HOPS || pid == ROOT_RECORD || !dirs.contains_key(pid) || dirs[pid].name
                == dot() {
            } else {
                walk_is_bounded(dirs, dirs[pid].parent, hops + 1);
            }
        },
    }
}

/// On a cycle of parent references the walk is cut off by the hop guard: it
/// succeeds, with exactly as many ancestor names as the guard allows.
pub proof fn cycle_is_truncated(dirs: Map<u64, DirectoryView>, current: Option<u64>, hops: nat)
    requires
        hops <= MAX_HOPS,
        unending(dirs, current, hops),
    ensures
        ancestors(dirs, current, hops) is Ok,
        ancestors(dirs, current, hops)->Ok_0.len() == MAX_HOPS - hops,
    decreases MAX_HOPS - hops,
{
    if hops >= MAX_HOPS {
    } else {
        let pid = current->0;
        cycle_is_truncated(dirs, dirs[pid].parent, hops + 1);
    }
}

/// A directory that the map gains does not change a walk that succeeded or
/// that failed on another record.
pub proof fn walk_ignores_new_directory(
    dirs: Map<u64, DirectoryView>,
    current: Option<u64>,
    hops: nat,
    record_number: u64,
    entry: DirectoryView,
)
    requires
        !dirs.contains_key(record_number),
        ancestors(dirs, current, hops) != Err::<Seq<Seq<char>>, u64>(record_number),
    ensures
        ancestors(dirs.insert(record_number, entry), current, hops) == ancestors(
            dirs,
            current,
            hops,
        ),
    decreases MAX_HOPS - hops,
{
    match current {
        None => {},
        Some(pid) => {
            if hops >= MAX_HOPS || pid == ROOT_RECORD || !dirs.contains_key(pid) || dirs[pid].name
                == dot() {
            } else {
                walk_ignores_new_directory(dirs, dirs[pid].parent, hops + 1, record_number, entry);
            }
        },
    }
}

/// A walk result with more names behind it.
pub open spec fn followed_by(walk: Result<Seq<Seq<char>>, u64>, inner: Seq<Seq<char>>) -> Result<
    Seq<Seq<char>>,
    u64,
> {
    match walk {
        Ok(outer) => Ok(outer + inner),
        Err(missing) => Err(missing),
    }
}

/// Writes the text of a path from its components, given innermost first.
fn write_path(drive_letter: char, parts: &Vec<String>, Ghost(components): Ghost<
    Seq<Seq<char>>,
>) -> (text: String)
    requires
        components.len() == parts@.len(),
        forall|k: int|
            0 <= k < components.len() ==> #[trigger] components[k] == parts@[parts@.len() - 1
                - k]@,
    ensures
        text@ == path_text(drive_letter, components),
{
    let mut text = String::new();
    if drive_letter == UNKNOWN_DRIVE {
        text.push('\\');
    } else {
        text.push(drive_letter);
        text.push(':');
        text.push('\\');
    }
    assert(text@ =~= drive_prefix(drive_letter));
    let n: usize = parts.len();
    let mut k: usize = 0;
    assert(components.subrange(0, 0) =~= Seq::<Seq<char>>::empty());
    assert(text@ =~= drive_prefix(drive_letter) + joined(components.subrange(0, 0)));
    while k < n
        invariant
            k <= n,
            n == parts@.len(),
            components.len() == n,
            forall|j: int|
                0 <= j < components.len() ==> #[trigger] components[j] == parts@[parts@.len() - 1
                    - j]@,
            text@ == drive_prefix(drive_letter) + joined(components.subrange(0, k as int)),
        decreases n - k,
    {
        let ghost before = text@;
        let ghost upto = components.subrange(0, k as int);
        let ghost next = components.subrange(0, k + 1);
        proof {
            assert(next.drop_last() =~= upto);
            assert(next.last() == components[k as int]);
        }
        if k > 0 {
            text.push('\\');
        }
        text.append(parts[n - 1 - k].as_str());
        proof {
            if k == 0 {
                assert(joined(upto) =~= Seq::<char>::empty());
                assert(joined(next) == components[0]);
                assert(text@ =~= drive_prefix(drive_letter) + joined(next));
            } else {
                assert(joined(next) == joined(upto) + seq!['\\'] + components[k as int]);
                assert(text@ =~= drive_prefix(drive_letter) + joined(next));
            }
        }
        k += 1;
    }
    assert(components.subrange(0, n as int) =~= components);
    text
}

/// The path of a record whose ancestors are not known: the drive prefix and
/// the record's own name.
pub fn fallback_path(filename: &str, drive_letter: char) -> (text: String)
    ensures
        text@ == path_text(drive_letter, seq![filename@]),
{
    let mut parts: Vec<String> = Vec::new();
    parts.push(String::from_str(filename));
    let ghost components = seq![filename@];
    write_path(drive_letter, &parts, Ghost(components))
}

/// Builds the full path of a record from its name and parent reference.
///
/// Returns the path `<L>:\dir\...\name` (or `\dir\...\name` where the drive
/// letter is `'?'`) if every ancestor on the way to the root is in
/// `directories`, and otherwise the record number of the first ancestor that
/// is not.
pub fn try_build_full_path(
    filename: &str,
    parent_ref: Option<u64>,
    directories: &HashMap<u64, DirectoryEntry>,
    drive_letter: char,
) -> (r: Result<String, u64>)
    ensures
        match ancestors(directory_views(directories@), parent_ref, 0) {
            Ok(outer) => r is Ok && r->Ok_0@ == path_text(drive_letter, outer.push(filename@)),
            Err(missing) => r == Err::<String, u64>(missing),
        },
{
    broadcast use group_hash_axioms;

    let ghost dv = directory_views(directories@);
    let dot_name = String::from_str(".");
    proof {
        reveal_strlit(".");
        assert(dot_name@ =~= dot());
    }
    let mut parts: Vec<String> = Vec::new();
    parts.push(String::from_str(filename));
    let ghost mut collected: Seq<Seq<char>> = Seq::empty();
    let mut current = parent_ref;
    let mut guard: usize = 0;
    assert(ancestors(dv, current, 0).is_ok() ==> ancestors(dv, current, 0)->Ok_0 + collected
        =~= ancestors(dv, current, 0)->Ok_0);
    loop
        invariant
            dv == directory_views(directories@),
            dot_name@ == dot(),
            guard <= MAX_HOPS,
            ancestors(dv, parent_ref, 0) == followed_by(
                ancestors(dv, current, guard as nat),
                collected,
            ),
            parts@.len() == collected.len() + 1,
            parts@[0]@ == filename@,
            forall|j: int|
                1 <= j < parts@.len() ==> (#[trigger] parts@[j])@ == collected[collected.len()
                    - j],
        ensures
            ancestors(dv, current, guard as nat) == Ok::<Seq<Seq<char>>, u64>(Seq::empty()),
        decreases MAX_HOPS - guard,
    {
        let pid = match current {
            Some(pid) => pid,
            None => {
                break ;
            },
        };
        if guard >= MAX_HOPS || pid == ROOT_RECORD {
            break ;
        }
        match directories.get(&pid) {
            Some(dir) => {
                assert(directories@.contains_key(pid) && directories@[pid] == *dir);
                assert(dv.contains_key(pid) && dv[pid] == dir@);
                if dir.name == dot_name {
                    break ;
                }
                let name = dir.name.clone();
                proof {
                    let walk = ancestors(dv, dir.parent, (guard + 1) as nat);
                    assert(ancestors(dv, current, guard as nat) == match walk {
                        Ok(outer) => Ok::<Seq<Seq<char>>, u64>(outer.push(dir.name@)),
                        Err(missing) => Err(missing),
                    });
                    if walk is Ok {
                        assert(walk->Ok_0.push(dir.name@) + collected =~= walk->Ok_0 + (
                        seq![dir.name@] + collected));
                    }
                    collected = seq![dir.name@] + collected;
                }
                parts.push(name);
                current = dir.parent;
            },
            None => {
                assert(!dv.contains_key(pid));
                return Err(pid);
            },
        }
        guard += 1;
    }
    proof {
        assert(Seq::<Seq<char>>::empty() + collected =~= collected);
    }
    let ghost components = collected.push(filename@);
    let text = write_path(drive_letter, &parts, Ghost(components));
    Ok(text)
}

} // verus!
