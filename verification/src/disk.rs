//! An explicit model of the filesystem the maintenance routines act
//! on: a map from path to file contents, and the set of directories
//! known to exist. The routines run against this model, so every
//! effect they have on the file map is stated and proved; the binary
//! around the library performs the same steps against the real
//! filesystem.

use vstd::prelude::*;
use crate::bytes::{bytes_eq, copy_bytes};

verus! {

/// What a modelled filesystem holds.
pub struct DiskView {
    pub files: Map<Seq<u8>, Seq<u8>>,
    pub dirs: Set<Seq<u8>>,
}

/// An in-memory filesystem: files as path/contents entries where a
/// later entry overrides an earlier one with the same path, and the
/// directories known to exist.
pub struct Disk {
    files: Vec<(Vec<u8>, Vec<u8>)>,
    dirs: Vec<Vec<u8>>,
}

/// The path/contents pairs of a list of file entries.
pub open spec fn entry_views(entries: Seq<(Vec<u8>, Vec<u8>)>) -> Seq<(Seq<u8>, Seq<u8>)> {
    entries.map_values(|e: (Vec<u8>, Vec<u8>)| (e.0@, e.1@))
}

/// The map that a list of path/contents pairs denotes; a later pair
/// overrides an earlier one with the same path.
pub open spec fn map_of(entries: Seq<(Seq<u8>, Seq<u8>)>) -> Map<Seq<u8>, Seq<u8>>
    decreases entries.len(),
{
    if entries.len() == 0 {
        Map::empty()
    } else {
        map_of(entries.drop_last()).insert(entries.last().0, entries.last().1)
    }
}

/// The set that a list of directory names denotes.
pub open spec fn dir_set_of(names: Seq<Vec<u8>>) -> Set<Seq<u8>>
    decreases names.len(),
{
    if names.len() == 0 {
        Set::empty()
    } else {
        dir_set_of(names.drop_last()).insert(names.last()@)
    }
}

impl View for Disk {
    type V = DiskView;

    closed spec fn view(&self) -> DiskView {
        DiskView { files: map_of(entry_views(self.files@)), dirs: dir_set_of(self.dirs@) }
    }
}

/// A key absent from every entry is absent from the map.
proof fn lemma_map_of_absent(entries: Seq<(Seq<u8>, Seq<u8>)>, k: Seq<u8>)
    requires
        forall|i: int| 0 <= i < entries.len() ==> entries[i].0 != k,
    ensures
        !map_of(entries).contains_key(k),
    decreases entries.len(),
{
    if entries.len() > 0 {
        assert(forall|i: int| 0 <= i < entries.drop_last().len() ==> entries.drop_last()[i] == entries[i]);
        lemma_map_of_absent(entries.drop_last(), k);
    }
}

/// The entry that no later entry overrides gives the map's value at
/// its key.
proof fn lemma_map_of_last_match(entries: Seq<(Seq<u8>, Seq<u8>)>, i: int)
    requires
        0 <= i < entries.len(),
        forall|j: int| i < j < entries.len() ==> entries[j].0 != entries[i].0,
    ensures
        map_of(entries).contains_key(entries[i].0),
        map_of(entries)[entries[i].0] == entries[i].1,
    decreases entries.len(),
{
    if i < entries.len() - 1 {
        assert(forall|j: int| 0 <= j < entries.drop_last().len() ==> entries.drop_last()[j] == entries[j]);
        lemma_map_of_last_match(entries.drop_last(), i);
    }
}

/// Appending an entry inserts its pair into the map.
proof fn lemma_map_of_push(entries: Seq<(Seq<u8>, Seq<u8>)>, e: (Seq<u8>, Seq<u8>))
    ensures
        map_of(entries.push(e)) == map_of(entries).insert(e.0, e.1),
{
    assert(entries.push(e).drop_last() =~= entries);
    assert(entries.push(e).last() == e);
}

/// The entries of `entries` whose key is not `k`, in order.
pub open spec fn strip_key(entries: Seq<(Seq<u8>, Seq<u8>)>, k: Seq<u8>) -> Seq<(Seq<u8>, Seq<u8>)>
    decreases entries.len(),
{
    if entries.len() == 0 {
        entries
    } else if entries.last().0 == k {
        strip_key(entries.drop_last(), k)
    } else {
        strip_key(entries.drop_last(), k).push(entries.last())
    }
}

/// Dropping every entry with key `k` removes `k` from the map and
/// changes nothing else.
proof fn lemma_strip_key_map(entries: Seq<(Seq<u8>, Seq<u8>)>, k: Seq<u8>)
    ensures
        map_of(strip_key(entries, k)) == map_of(entries).remove(k),
    decreases entries.len(),
{
    if entries.len() == 0 {
        assert(map_of(entries).remove(k) =~= Map::<Seq<u8>, Seq<u8>>::empty());
    } else {
        lemma_strip_key_map(entries.drop_last(), k);
        let last = entries.last();
        if last.0 == k {
            assert(map_of(entries).remove(k) =~= map_of(entries.drop_last()).remove(k));
        } else {
            lemma_map_of_push(strip_key(entries.drop_last(), k), last);
            assert(map_of(entries).remove(k) =~=
                map_of(entries.drop_last()).remove(k).insert(last.0, last.1));
        }
    }
}

/// A name absent from every entry is absent from the set.
proof fn lemma_dir_set_absent(names: Seq<Vec<u8>>, k: Seq<u8>)
    requires
        forall|i: int| 0 <= i < names.len() ==> names[i]@ != k,
    ensures
        !dir_set_of(names).contains(k),
    decreases names.len(),
{
    if names.len() > 0 {
        assert(forall|i: int| 0 <= i < names.drop_last().len() ==> names.drop_last()[i] == names[i]);
        lemma_dir_set_absent(names.drop_last(), k);
    }
}

/// Every listed name is in the set.
proof fn lemma_dir_set_present(names: Seq<Vec<u8>>, i: int)
    requires
        0 <= i < names.len(),
    ensures
        dir_set_of(names).contains(names[i]@),
    decreases names.len(),
{
    if i < names.len() - 1 {
        assert(forall|j: int| 0 <= j < names.drop_last().len() ==> names.drop_last()[j] == names[j]);
        lemma_dir_set_present(names.drop_last(), i);
    }
}

impl Disk {
    /// An empty filesystem: no files, no directories.
    pub fn new() -> (r: Disk)
        ensures
            r@.files == Map::<Seq<u8>, Seq<u8>>::empty(),
            r@.dirs == Set::<Seq<u8>>::empty(),
    {
        let d = Disk { files: Vec::new(), dirs: Vec::new() };
        proof {
            assert(entry_views(d.files@) =~= Seq::<(Seq<u8>, Seq<u8>)>::empty());
        }
        d
    }

    /// The index of the entry that decides the contents at `p`: the
    /// last one with that path.
    fn find_last(&self, p: &[u8]) -> (r: Option<usize>)
        ensures
            match r {
                Some(i) => i < self.files@.len() && entry_views(self.files@)[i as int].0 == p@
                    && forall|j: int| i < j < self.files@.len() ==> entry_views(self.files@)[j].0 != p@,
                None => forall|j: int| 0 <= j < self.files@.len() ==> entry_views(self.files@)[j].0 != p@,
            },
    {
        let mut i: usize = self.files.len();
        while i > 0
            invariant
                i <= self.files@.len(),
                forall|j: int| i <= j < self.files@.len() ==> entry_views(self.files@)[j].0 != p@,
            decreases i,
        {
            if bytes_eq(self.files[i - 1].0.as_slice(), p) {
                return Some(i - 1);
            }
            i = i - 1;
        }
        None
    }

    /// Whether a file exists at `p`.
    pub fn file_exists(&self, p: &[u8]) -> (r: bool)
        ensures
            r == self@.files.contains_key(p@),
    {
        match self.find_last(p) {
            Some(i) => {
                proof {
                    lemma_map_of_last_match(entry_views(self.files@), i as int);
                }
                true
            }
            None => {
                proof {
                    lemma_map_of_absent(entry_views(self.files@), p@);
                }
                false
            }
        }
    }

    /// The contents of the file at `p`, if one exists.
    pub fn read_file(&self, p: &[u8]) -> (r: Option<&Vec<u8>>)
        ensures
            match r {
                Some(v) => self@.files.contains_key(p@) && v@ == self@.files[p@],
                None => !self@.files.contains_key(p@),
            },
    {
        match self.find_last(p) {
            Some(i) => {
                proof {
                    lemma_map_of_last_match(entry_views(self.files@), i as int);
                }
                Some(&self.files[i].1)
            }
            None => {
                proof {
                    lemma_map_of_absent(entry_views(self.files@), p@);
                }
                None
            }
        }
    }

    /// Create or overwrite the file at `p` with `data`.
    pub fn write_file(&mut self, p: &[u8], data: Vec<u8>)
        ensures
            final(self)@.files == old(self)@.files.insert(p@, data@),
            final(self)@.dirs == old(self)@.dirs,
    {
        let key = copy_bytes(p);
        let ghost before = entry_views(self.files@);
        let ghost pair = (key@, data@);
        self.files.push((key, data));
        proof {
            assert(entry_views(self.files@) =~= before.push(pair));
            lemma_map_of_push(before, pair);
        }
    }

    /// Delete the file at `p`; deleting an absent file is a no-op.
    pub fn remove_file(&mut self, p: &[u8])
        ensures
            final(self)@.files == old(self)@.files.remove(p@),
            final(self)@.dirs == old(self)@.dirs,
    {
        let ghost before = entry_views(self.files@);
        let mut kept: Vec<(Vec<u8>, Vec<u8>)> = Vec::new();
        let mut i: usize = 0;
        while i < self.files.len()
            invariant
                i <= self.files@.len(),
                entry_views(self.files@) == before,
                entry_views(kept@) == strip_key(before.subrange(0, i as int), p@),
            decreases self.files@.len() - i,
        {
            let keep = !bytes_eq(self.files[i].0.as_slice(), p);
            let ghost prefix = before.subrange(0, i as int);
            if keep {
                let k2 = copy_bytes(self.files[i].0.as_slice());
                let v2 = copy_bytes(self.files[i].1.as_slice());
                kept.push((k2, v2));
            }
            proof {
                assert(before.subrange(0, i + 1).drop_last() =~= prefix);
                assert(before.subrange(0, i + 1).last() == before[i as int]);
                if keep {
                    assert(entry_views(kept@) =~= strip_key(prefix, p@).push(before[i as int]));
                }
            }
            i = i + 1;
        }
        proof {
            assert(before.subrange(0, before.len() as int) =~= before);
            lemma_strip_key_map(before, p@);
        }
        self.files = kept;
    }

    /// Move the file at `from` to `to`, replacing what was there.
    pub fn rename_file(&mut self, from: &[u8], to: &[u8])
        requires
            old(self)@.files.contains_key(from@),
        ensures
            final(self)@.files == old(self)@.files.remove(from@).insert(to@, old(self)@.files[from@]),
            final(self)@.dirs == old(self)@.dirs,
    {
        let data = match self.read_file(from) {
            Some(v) => copy_bytes(v.as_slice()),
            // the precondition rules this arm out
            None => {
                proof {
                    assert(false);
                }
                Vec::new()
            }
        };
        self.remove_file(from);
        self.write_file(to, data);
    }

    /// Copy the file at `from` to `to`, replacing what was there and
    /// leaving `from` as it is.
    pub fn copy_file(&mut self, from: &[u8], to: &[u8])
        requires
            old(self)@.files.contains_key(from@),
        ensures
            final(self)@.files == old(self)@.files.insert(to@, old(self)@.files[from@]),
            final(self)@.dirs == old(self)@.dirs,
    {
        let data = match self.read_file(from) {
            Some(v) => copy_bytes(v.as_slice()),
            // the precondition rules this arm out
            None => {
                proof {
                    assert(false);
                }
                Vec::new()
            }
        };
        self.write_file(to, data);
    }

    /// Whether a directory exists at `p`.
    pub fn dir_exists(&self, p: &[u8]) -> (r: bool)
        ensures
            r == self@.dirs.contains(p@),
    {
        let mut i: usize = 0;
        while i < self.dirs.len()
            invariant
                i <= self.dirs@.len(),
                forall|j: int| 0 <= j < i ==> self.dirs@[j]@ != p@,
            decreases self.dirs@.len() - i,
        {
            if bytes_eq(self.dirs[i].as_slice(), p) {
                proof {
                    lemma_dir_set_present(self.dirs@, i as int);
                }
                return true;
            }
            i = i + 1;
        }
        proof {
            lemma_dir_set_absent(self.dirs@, p@);
        }
        false
    }

    /// Make the directory at `p` exist; files are untouched.
    pub fn create_dir_all(&mut self, p: &[u8])
        ensures
            final(self)@.dirs == old(self)@.dirs.insert(p@),
            final(self)@.files == old(self)@.files,
    {
        let ghost before = self.dirs@;
        let name = copy_bytes(p);
        self.dirs.push(name);
        proof {
            assert(self.dirs@.drop_last() =~= before);
            assert(entry_views(self.files@) == entry_views(old(self).files@));
        }
    }
}

} // verus!
