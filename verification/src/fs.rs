//! A read-only snapshot of the part of a file tree that the logic looks at.
//!
//! The program reads the disk and hands the library this snapshot; the questions one would
//! put to `Path::is_file` / `is_dir` / `exists` / `read_dir` are answered here.
use vstd::prelude::*;

use crate::order::{components_vec, vviews};
use crate::paths::{components, is_absolute};
use crate::text::{chars_of, vec_eq};

verus! {

#[derive(Debug, Clone)]
pub struct FsEntry {
    /// Full path of the entry (as built with `Path::join` from its parent).
    pub path: String,
    /// The directory whose listing holds this entry.
    pub parent: String,
    pub is_dir: bool,
    /// Any execute permission bit set (files only).
    pub executable: bool,
}

pub struct EntryV {
    pub path: Seq<char>,
    pub parent: Seq<char>,
    pub is_dir: bool,
    pub executable: bool,
}

impl View for FsEntry {
    type V = EntryV;

    open spec fn view(&self) -> EntryV {
        EntryV {
            path: self.path@,
            parent: self.parent@,
            is_dir: self.is_dir,
            executable: self.executable,
        }
    }
}

#[derive(Debug, Clone)]
pub struct FsSnapshot {
    /// Entries in directory-listing order.
    pub entries: Vec<FsEntry>,
}

impl View for FsSnapshot {
    type V = Seq<EntryV>;

    open spec fn view(&self) -> Seq<EntryV> {
        self.entries@.map_values(|e: FsEntry| e@)
    }
}

/// Two path strings name the same place: both rooted or both relative, with the same
/// components (empty and `.` segments do not count), as `Path` compares them.
pub open spec fn same_place(a: Seq<char>, b: Seq<char>) -> bool {
    is_absolute(a) == is_absolute(b) && components(a) == components(b)
}

pub open spec fn fs_is_dir(fs: Seq<EntryV>, p: Seq<char>) -> bool {
    exists|i: int| 0 <= i < fs.len() && same_place((#[trigger] fs[i]).path, p) && fs[i].is_dir
}

pub open spec fn fs_is_file(fs: Seq<EntryV>, p: Seq<char>) -> bool {
    exists|i: int| 0 <= i < fs.len() && same_place((#[trigger] fs[i]).path, p) && !fs[i].is_dir
}

pub open spec fn fs_exists(fs: Seq<EntryV>, p: Seq<char>) -> bool {
    exists|i: int| 0 <= i < fs.len() && same_place((#[trigger] fs[i]).path, p)
}

/// `read_dir(d)`: the entries whose parent is `d`, in listing order.
pub open spec fn listing(fs: Seq<EntryV>, d: Seq<char>) -> Seq<EntryV> {
    fs.filter(|e: EntryV| same_place(e.parent, d))
}

/// Whether two path strings name the same place.
pub fn same_path(a: &str, b: &str) -> (r: bool)
    ensures
        r == same_place(a@, b@),
{
    let av = chars_of(a);
    let bv = chars_of(b);
    let aa = av.len() > 0 && av[0] == '/';
    let ba = bv.len() > 0 && bv[0] == '/';
    if aa != ba {
        return false;
    }
    let ac = components_vec(&av);
    let bc = components_vec(&bv);
    let ghost x = vviews(ac@);
    let ghost y = vviews(bc@);
    if ac.len() != bc.len() {
        assert(x.len() == ac.len() && y.len() == bc.len());
        return false;
    }
    let mut i: usize = 0;
    while i < ac.len()
        invariant
            i <= ac.len(),
            ac.len() == bc.len(),
            x == vviews(ac@),
            y == vviews(bc@),
            x == components(a@),
            y == components(b@),
            forall|j: int| 0 <= j < i ==> #[trigger] x[j] == y[j],
        decreases ac.len() - i,
    {
        if !vec_eq(&ac[i], &bc[i]) {
            assert(x[i as int] == ac@[i as int]@);
            assert(y[i as int] == bc@[i as int]@);
            return false;
        }
        i = i + 1;
    }
    assert(x =~= y);
    true
}

pub fn str_eq(a: &str, b: &str) -> (r: bool)
    ensures
        r == (a@ == b@),
{
    vec_eq(&chars_of(a), &chars_of(b))
}

impl FsSnapshot {
    pub fn new() -> (r: Self)
        ensures
            r@ == Seq::<EntryV>::empty(),
    {
        let r = FsSnapshot { entries: Vec::new() };
        assert(r@ =~= Seq::<EntryV>::empty());
        r
    }

    /// Records one entry.
    pub fn add(&mut self, path: &str, parent: &str, is_dir: bool, executable: bool)
        ensures
            final(self)@ == old(self)@.push(
                EntryV { path: path@, parent: parent@, is_dir, executable },
            ),
    {
        let e = FsEntry {
            path: crate::text::string_from(path),
            parent: crate::text::string_from(parent),
            is_dir,
            executable,
        };
        let ghost before = self@;
        self.entries.push(e);
        assert(self@ =~= before.push(
            EntryV { path: path@, parent: parent@, is_dir, executable },
        ));
    }

    fn find(&self, p: &str, want_dir: Option<bool>) -> (r: bool)
        ensures
            want_dir == Some(true) ==> r == fs_is_dir(self@, p@),
            want_dir == Some(false) ==> r == fs_is_file(self@, p@),
            want_dir is None ==> r == fs_exists(self@, p@),
    {
        let mut i: usize = 0;
        while i < self.entries.len()
            invariant
                i <= self.entries.len(),
                forall|j: int|
                    0 <= j < i ==> !(same_place((#[trigger] self@[j]).path, p@) && match want_dir {
                        Some(d) => self@[j].is_dir == d,
                        None => true,
                    }),
            decreases self.entries.len() - i,
        {
            let e = &self.entries[i];
            assert(self@[i as int] == e@);
            if same_path(e.path.as_str(), p) {
                let ok = match want_dir {
                    Some(d) => e.is_dir == d,
                    None => true,
                };
                if ok {
                    return true;
                }
            }
            i = i + 1;
        }
        false
    }

    pub fn is_dir(&self, p: &str) -> (r: bool)
        ensures
            r == fs_is_dir(self@, p@),
    {
        self.find(p, Some(true))
    }

    pub fn is_file(&self, p: &str) -> (r: bool)
        ensures
            r == fs_is_file(self@, p@),
    {
        self.find(p, Some(false))
    }

    pub fn contains_path(&self, p: &str) -> (r: bool)
        ensures
            r == fs_exists(self@, p@),
    {
        self.find(p, None)
    }

    /// The entries listed under directory `d`.
    pub fn read_dir(&self, d: &str) -> (r: Vec<FsEntry>)
        ensures
            r@.map_values(|e: FsEntry| e@) == listing(self@, d@),
    {
        let mut out: Vec<FsEntry> = Vec::new();
        let mut i: usize = 0;
        while i < self.entries.len()
            invariant
                i <= self.entries.len(),
                out@.map_values(|e: FsEntry| e@) == listing(self@.take(i as int), d@),
            decreases self.entries.len() - i,
        {
            let e = &self.entries[i];
            proof {
                assert(self@.take(i + 1) =~= self@.take(i as int).push(e@));
                assert(self@.take(i + 1).drop_last() =~= self@.take(i as int));
                reveal(Seq::filter);
            }
            if same_path(e.parent.as_str(), d) {
                let c = FsEntry {
                    path: e.path.clone(),
                    parent: e.parent.clone(),
                    is_dir: e.is_dir,
                    executable: e.executable,
                };
                let ghost before = out@.map_values(|x: FsEntry| x@);
                out.push(c);
                assert(out@.map_values(|x: FsEntry| x@) =~= before.push(e@));
            }
            i = i + 1;
        }
        assert(self@.take(self.entries.len() as int) =~= self@);
        out
    }
}

} // verus!
