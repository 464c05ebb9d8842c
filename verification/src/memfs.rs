//! A file tree held in memory, which answers requests exactly as the model
//! says. It stands in for the real file system wherever an operation is to be
//! tried out without touching one.

use crate::model::{fs_apply, kind_at, without, Node, Tree, DEFAULT_MODE};
use crate::path::{is_within, same_bytes, within};
use crate::proto::{Event, FsOp, IoError, PathKind, EISDIR, ENOENT, ENOTDIR};
use vstd::prelude::*;

verus! {

/// What stands at a path of a [`MemFs`].
#[derive(Clone, Debug, PartialEq, Eq)]
pub enum Entry {
    /// A regular file with its bytes and permission bits.
    File { data: Vec<u8>, mode: u32 },
    /// A directory.
    Dir,
}

impl View for Entry {
    type V = Node;

    open spec fn view(&self) -> Node {
        match self {
            Entry::File { data, mode } => Node::File { data: data@, mode: *mode },
            Entry::Dir => Node::Dir,
        }
    }
}

/// One path of the tree with what stands there.
#[derive(Debug)]
struct Slot {
    path: Vec<u8>,
    node: Entry,
}

/// The path of slot `i`.
spec fn key(slots: Seq<Slot>, i: int) -> Seq<u8> {
    slots[i].path@
}

/// Whether some slot holds `path`.
spec fn holds(slots: Seq<Slot>, path: Seq<u8>) -> bool {
    exists|i: int| 0 <= i < slots.len() && key(slots, i) == path
}

/// A slot that holds `path`.
spec fn pick(slots: Seq<Slot>, path: Seq<u8>) -> int {
    choose|i: int| 0 <= i < slots.len() && key(slots, i) == path
}

/// Whether no two slots hold the same path.
spec fn distinct(slots: Seq<Slot>) -> bool {
    forall|i: int, j: int| 0 <= i < j < slots.len() ==> key(slots, i) != key(slots, j)
}

/// The tree that the slots stand for.
spec fn tree_of(slots: Seq<Slot>) -> Tree {
    Map::new(|p: Seq<u8>| holds(slots, p), |p: Seq<u8>| slots[pick(slots, p)].node@)
}

/// Each slot shows in the tree.
proof fn slot_shows(slots: Seq<Slot>, i: int)
    requires
        distinct(slots),
        0 <= i < slots.len(),
    ensures
        tree_of(slots).contains_key(key(slots, i)),
        tree_of(slots)[key(slots, i)] == slots[i].node@,
{
    let p = key(slots, i);
    assert(holds(slots, p));
    let j = pick(slots, p);
    assert(j == i);
}

/// The slots stand for `t` where each of them shows in `t` and `t` holds
/// nothing else.
proof fn slots_stand_for(slots: Seq<Slot>, t: Tree)
    requires
        distinct(slots),
        forall|i: int|
            0 <= i < slots.len() ==> t.contains_key(#[trigger] key(slots, i)) && t[key(slots, i)]
                == slots[i].node@,
        forall|p: Seq<u8>| #[trigger] t.contains_key(p) ==> holds(slots, p),
    ensures
        tree_of(slots) == t,
{
    assert forall|p: Seq<u8>| tree_of(slots).contains_key(p) implies t.contains_key(p)
        && tree_of(slots)[p] == t[p] by {
        let j = pick(slots, p);
        assert(key(slots, j) == p);
    }
    assert(tree_of(slots) =~= t);
}

/// A file tree in memory.
#[derive(Debug)]
pub struct MemFs {
    slots: Vec<Slot>,
}

impl View for MemFs {
    type V = Tree;

    closed spec fn view(&self) -> Tree {
        tree_of(self.slots@)
    }
}

impl MemFs {
    /// Whether the tree is in order: no path is held twice. Every tree that
    /// this module hands out is, and every operation keeps it so.
    pub closed spec fn wf(&self) -> bool {
        distinct(self.slots@)
    }

    /// An empty tree.
    pub fn new() -> (fs: MemFs)
        ensures
            fs.wf(),
            fs@ == Map::<Seq<u8>, Node>::empty(),
    {
        let fs = MemFs { slots: Vec::new() };
        assert(fs@ =~= Map::<Seq<u8>, Node>::empty());
        fs
    }

    /// The slot that holds `path`, if there is one.
    fn find(&self, path: &Vec<u8>) -> (found: Option<usize>)
        ensures
            match found {
                Some(i) => i < self.slots.len() && key(self.slots@, i as int) == path@,
                None => !holds(self.slots@, path@),
            },
    {
        let mut i: usize = 0;
        while i < self.slots.len()
            invariant
                i <= self.slots.len(),
                forall|k: int| 0 <= k < i ==> key(self.slots@, k) != path@,
            decreases self.slots.len() - i,
        {
            if same_bytes(&self.slots[i].path, path) {
                return Some(i);
            }
            i += 1;
        }
        None
    }

    /// Puts `node` at `path`, in place of what stands there.
    fn put(&mut self, path: &Vec<u8>, node: Entry)
        requires
            old(self).wf(),
        ensures
            final(self).wf(),
            final(self)@ == old(self)@.insert(path@, node@),
    {
        let ghost before = self.slots@;
        let ghost want = self@.insert(path@, node@);
        let slot = Slot { path: path.clone(), node };
        match self.find(path) {
            Some(i) => {
                self.slots.set(i, slot);
                proof {
                    let after = self.slots@;
                    assert forall|k: int| 0 <= k < after.len() implies key(after, k) == key(
                        before,
                        k,
                    ) by {}
                    assert forall|k: int| 0 <= k < after.len() implies want.contains_key(
                        #[trigger] key(after, k),
                    ) && want[key(after, k)] == after[k].node@ by {
                        slot_shows(before, k);
                    }
                    assert forall|p: Seq<u8>| #[trigger] want.contains_key(p) implies holds(
                        after,
                        p,
                    ) by {
                        if p == path@ {
                            assert(key(after, i as int) == p);
                        } else {
                            assert(key(after, pick(before, p)) == p);
                        }
                    }
                    slots_stand_for(after, want);
                }
            },
            None => {
                self.slots.push(slot);
                proof {
                    let after = self.slots@;
                    let n = before.len() as int;
                    assert forall|k: int| 0 <= k < n implies key(after, k) == key(before, k)
                        && key(before, k) != path@ by {}
                    assert forall|k: int| 0 <= k < after.len() implies want.contains_key(
                        #[trigger] key(after, k),
                    ) && want[key(after, k)] == after[k].node@ by {
                        if k < n {
                            slot_shows(before, k);
                        }
                    }
                    assert forall|p: Seq<u8>| #[trigger] want.contains_key(p) implies holds(
                        after,
                        p,
                    ) by {
                        if p == path@ {
                            assert(key(after, n) == p);
                        } else {
                            assert(key(after, pick(before, p)) == p);
                        }
                    }
                    slots_stand_for(after, want);
                }
            },
        }
    }

    /// Takes away slot `i`.
    fn drop_slot(&mut self, i: usize)
        requires
            old(self).wf(),
            i < old(self).slots.len(),
        ensures
            final(self).wf(),
            final(self)@ == old(self)@.remove(key(old(self).slots@, i as int)),
    {
        let ghost before = self.slots@;
        let ghost gone = key(before, i as int);
        let ghost want = self@.remove(gone);
        let _ = self.slots.remove(i);
        proof {
            let after = self.slots@;
            assert forall|k: int| 0 <= k < after.len() implies key(after, k) == key(
                before,
                if k < i {
                    k
                } else {
                    k + 1
                },
            ) by {}
            assert forall|k: int| 0 <= k < after.len() implies want.contains_key(
                #[trigger] key(after, k),
            ) && want[key(after, k)] == after[k].node@ by {
                slot_shows(before, if k < i { k } else { k + 1 });
            }
            assert forall|p: Seq<u8>| #[trigger] want.contains_key(p) implies holds(after, p) by {
                let j = pick(before, p);
                assert(key(before, j) == p);
                assert(key(after, if j < i { j } else { j - 1 }) == p);
            }
            slots_stand_for(after, want);
        }
    }

    /// What is found at `path`.
    pub fn kind(&self, path: &Vec<u8>) -> (k: PathKind)
        requires
            self.wf(),
        ensures
            k == kind_at(self@, path@),
    {
        match self.find(path) {
            Some(i) => {
                proof {
                    slot_shows(self.slots@, i as int);
                }
                match &self.slots[i].node {
                    Entry::File { .. } => PathKind::File,
                    Entry::Dir => PathKind::Dir,
                }
            },
            None => PathKind::Absent,
        }
    }

    /// What stands at `path`, if anything.
    pub fn get(&self, path: &Vec<u8>) -> (node: Option<Entry>)
        requires
            self.wf(),
        ensures
            match node {
                Some(n) => self@.contains_key(path@) && self@[path@] == n@,
                None => !self@.contains_key(path@),
            },
    {
        match self.find(path) {
            Some(i) => {
                proof {
                    slot_shows(self.slots@, i as int);
                }
                match &self.slots[i].node {
                    Entry::File { data, mode } => Some(
                        Entry::File { data: data.clone(), mode: *mode },
                    ),
                    Entry::Dir => Some(Entry::Dir),
                }
            },
            None => None,
        }
    }

    /// Makes `path` a directory, in place of what stands there.
    pub fn put_dir(&mut self, path: &Vec<u8>)
        requires
            old(self).wf(),
        ensures
            final(self).wf(),
            final(self)@ == old(self)@.insert(path@, Node::Dir),
    {
        self.put(path, Entry::Dir);
    }

    /// Makes `path` a regular file with the given bytes and permission bits, in
    /// place of what stands there.
    pub fn put_file(&mut self, path: &Vec<u8>, data: &Vec<u8>, mode: u32)
        requires
            old(self).wf(),
        ensures
            final(self).wf(),
            final(self)@ == old(self)@.insert(path@, Node::File { data: data@, mode }),
    {
        self.put(path, Entry::File { data: data.clone(), mode });
    }

    /// Takes away `root` and all that lies below it.
    fn prune(&mut self, root: &Vec<u8>)
        requires
            old(self).wf(),
        ensures
            final(self).wf(),
            final(self)@ == without(old(self)@, root@),
    {
        let ghost before = self.slots@;
        let ghost want = without(self@, root@);
        let mut kept: Vec<Slot> = Vec::new();
        let ghost mut from: Seq<int> = Seq::empty();
        let mut i: usize = 0;
        while i < self.slots.len()
            invariant
                self.slots@ == before,
                distinct(before),
                i <= before.len(),
                from.len() == kept.len(),
                forall|k: int| 0 <= k < kept.len() ==> 0 <= #[trigger] from[k] < i,
                forall|k: int, l: int| 0 <= k < l < kept.len() ==> from[k] < from[l],
                forall|k: int|
                    0 <= k < kept.len() ==> key(kept@, k) == key(before, #[trigger] from[k])
                        && kept@[k].node@ == before[from[k]].node@ && !within(
                        key(kept@, k),
                        root@,
                    ),
                forall|j: int|
                    0 <= j < i && !within(#[trigger] key(before, j), root@) ==> exists|k: int|
                        0 <= k < kept.len() && from[k] == j,
            decreases before.len() - i,
        {
            if !is_within(&self.slots[i].path, root) {
                let node = match &self.slots[i].node {
                    Entry::File { data, mode } => Entry::File { data: data.clone(), mode: *mode },
                    Entry::Dir => Entry::Dir,
                };
                let ghost old_from = from;
                let ghost old_len = kept.len() as int;
                kept.push(Slot { path: self.slots[i].path.clone(), node });
                proof {
                    from = from.push(i as int);
                    assert forall|j: int|
                        0 <= j < i + 1 && !within(
                            #[trigger] key(before, j),
                            root@,
                        ) implies exists|k: int| 0 <= k < kept.len() && from[k] == j by {
                        if j < i {
                            let k = choose|k: int| 0 <= k < old_len && old_from[k] == j;
                            assert(from[k] == j);
                        } else {
                            assert(from[old_len] == j);
                        }
                    }
                }
            }
            i += 1;
        }
        proof {
            let after = kept@;
            assert(distinct(after)) by {
                assert forall|k: int, l: int| 0 <= k < l < after.len() implies key(after, k)
                    != key(after, l) by {
                    assert(from[k] < from[l]);
                }
            }
            assert forall|k: int| 0 <= k < after.len() implies want.contains_key(
                #[trigger] key(after, k),
            ) && want[key(after, k)] == after[k].node@ by {
                slot_shows(before, from[k]);
            }
            assert forall|p: Seq<u8>| #[trigger] want.contains_key(p) implies holds(after, p) by {
                let j = pick(before, p);
                assert(key(before, j) == p);
                let k = choose|k: int| 0 <= k < after.len() && from[k] == j;
                assert(key(after, k) == p);
            }
            slots_stand_for(after, want);
        }
        self.slots = kept;
    }

    /// Carries out one request and answers it.
    pub fn perform(&mut self, op: &FsOp) -> (event: Event)
        requires
            old(self).wf(),
        ensures
            final(self).wf(),
            (final(self)@, event@) == fs_apply(old(self)@, op@),
    {
        match op {
            FsOp::Stat { path } => Event::Kind(self.kind(path)),
            FsOp::Read { path } => match self.get(path) {
                Some(Entry::File { data, .. }) => Event::Data(Ok(data)),
                Some(Entry::Dir) => Event::Data(Err(IoError { code: EISDIR })),
                None => Event::Data(Err(IoError { code: ENOENT })),
            },
            FsOp::Write { path, data } => match self.get(path) {
                Some(Entry::Dir) => Event::Done(Err(IoError { code: EISDIR })),
                Some(Entry::File { mode, .. }) => {
                    self.put(path, Entry::File { data: data.clone(), mode });
                    Event::Done(Ok(()))
                },
                None => {
                    self.put(path, Entry::File { data: data.clone(), mode: DEFAULT_MODE });
                    Event::Done(Ok(()))
                },
            },
            FsOp::SetMode { path, mode } => match self.get(path) {
                Some(Entry::File { data, .. }) => {
                    self.put(path, Entry::File { data, mode: *mode });
                    Event::Done(Ok(()))
                },
                Some(Entry::Dir) => Event::Done(Ok(())),
                None => Event::Done(Err(IoError { code: ENOENT })),
            },
            FsOp::RemoveFile { path } => match self.find(path) {
                Some(i) => {
                    proof {
                        slot_shows(self.slots@, i as int);
                    }
                    match &self.slots[i].node {
                        Entry::File { .. } => {
                            self.drop_slot(i);
                            Event::Done(Ok(()))
                        },
                        Entry::Dir => Event::Done(Err(IoError { code: EISDIR })),
                    }
                },
                None => Event::Done(Err(IoError { code: ENOENT })),
            },
            FsOp::RemoveDirAll { path } => match self.kind(path) {
                PathKind::Dir => {
                    self.prune(path);
                    Event::Done(Ok(()))
                },
                PathKind::File => Event::Done(Err(IoError { code: ENOTDIR })),
                _ => Event::Done(Err(IoError { code: ENOENT })),
            },
        }
    }
}

} // verus!
