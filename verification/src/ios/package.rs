//! Build a `.ipa` (zip) from an existing `.app` bundle: the checks, and the zip layout
//! `Payload/<App>.app/…`.
//!
//! Writing the zip is the caller's; it writes the entries listed here, in order.
use vstd::prelude::*;

use crate::fs::{fs_is_dir, fs_is_file, listing, EntryV, FsEntry, FsSnapshot};
use crate::paths::{file_name, file_name_vec, file_stem, file_stem_vec, join, join_str, parent, parent_vec};
use crate::text::{chars_of, ends_with, lower_seq, lower_vec, push_str, string_from, string_of, vec_ends_with};

verus! {

#[derive(Debug)]
pub struct PackageResult {
    pub ipa_path: String,
    pub app_name: String,
    /// What to write into the zip, in order.
    pub entries: Vec<ZipEntry>,
}

/// One zip entry: a directory (name ends in `/`) or a file copied from `source`.
#[derive(Debug)]
pub enum ZipEntry {
    Dir(String),
    File { name: String, source: String },
}

pub enum ZipEntryV {
    Dir(Seq<char>),
    File(Seq<char>, Seq<char>),
}

pub open spec fn entry_view(e: ZipEntry) -> ZipEntryV {
    match e {
        ZipEntry::Dir(n) => ZipEntryV::Dir(n@),
        ZipEntry::File { name, source } => ZipEntryV::File(name@, source@),
    }
}

pub open spec fn entries_view(v: Seq<ZipEntry>) -> Seq<ZipEntryV> {
    v.map_values(|e: ZipEntry| entry_view(e))
}

/// The last path component of a directory entry (as `DirEntry::file_name` gives it).
pub open spec fn entry_name(e: EntryV) -> Seq<char> {
    match file_name(e.path) {
        Some(n) => n,
        None => Seq::empty(),
    }
}

/// Zip entries for the tree below `dir`, named under `prefix`, at most `depth` levels.
pub open spec fn tree_entries(fs: Seq<EntryV>, dir: Seq<char>, prefix: Seq<char>, depth: nat) -> Seq<ZipEntryV>
    decreases depth, 1nat, 0int,
{
    if depth == 0 {
        Seq::empty()
    } else {
        list_entries(fs, listing(fs, dir), prefix, (depth - 1) as nat)
    }
}

pub open spec fn list_entries(fs: Seq<EntryV>, es: Seq<EntryV>, prefix: Seq<char>, depth: nat) -> Seq<ZipEntryV>
    decreases depth + 1, 0nat, es.len(),
{
    if es.len() == 0 {
        Seq::empty()
    } else {
        let e = es.last();
        let zp = prefix + "/"@ + entry_name(e);
        list_entries(fs, es.drop_last(), prefix, depth) + if e.is_dir {
            seq![ZipEntryV::Dir(zp + "/"@)] + tree_entries(fs, e.path, zp, depth)
        } else {
            seq![ZipEntryV::File(zp, e.path)]
        }
    }
}

/// How deep below the bundle the layout goes.
pub open spec fn max_depth() -> nat {
    64
}

/// `package_ipa`'s answer: the app name and zip entries, or the error.
pub open spec fn package_spec(fs: Seq<EntryV>, app_path: Seq<char>) -> Result<(Seq<char>, Seq<ZipEntryV>), Seq<char>> {
    if !fs_is_dir(fs, app_path) {
        Err("expected an .app bundle directory, got: "@ + app_path)
    } else {
        match file_name(app_path) {
            None => Err("invalid .app name"@),
            Some(n) => if !ends_with(lower_seq(n), ".app"@) {
                Err("bundle name should end with .app (got "@ + n + ")"@)
            } else {
                Ok((
                    n,
                    seq![ZipEntryV::Dir("Payload/"@), ZipEntryV::Dir("Payload/"@ + n + "/"@)]
                        + tree_entries(fs, app_path, "Payload/"@ + n, max_depth()),
                ))
            },
        }
    }
}

fn visit(fs: &FsSnapshot, dir: &str, prefix: &str, depth: u64, out: &mut Vec<ZipEntry>)
    requires
        depth <= max_depth(),
    ensures
        entries_view(final(out)@) == entries_view(old(out)@) + tree_entries(fs@, dir@, prefix@, depth as nat),
    decreases depth, 1nat,
{
    let ghost start = entries_view(out@);
    if depth == 0 {
        assert(entries_view(out@) =~= start + Seq::<ZipEntryV>::empty());
        return;
    }
    let es = fs.read_dir(dir);
    let ghost esv = es@.map_values(|e: FsEntry| e@);
    let mut i: usize = 0;
    assert(esv.take(0) =~= Seq::<EntryV>::empty());
    assert(entries_view(out@) =~= start + list_entries(fs@, esv.take(0), prefix@, (depth - 1) as nat));
    while i < es.len()
        invariant
            i <= es.len(),
            1 <= depth <= max_depth(),
            esv == es@.map_values(|e: FsEntry| e@),
            esv == listing(fs@, dir@),
            entries_view(out@) == start + list_entries(fs@, esv.take(i as int), prefix@, (depth - 1) as nat),
        decreases es.len() - i,
    {
        let e = &es[i];
        proof {
            assert(esv[i as int] == e@);
            assert(esv.take(i + 1).drop_last() =~= esv.take(i as int));
            assert(esv.take(i + 1).last() == e@);
        }
        let ghost mid = entries_view(out@);
        let name = match file_name_vec(&chars_of(e.path.as_str())) {
            Some(n) => string_of(&n),
            None => String::new(),
        };
        let mut zp = string_from(prefix);
        push_str(&mut zp, "/");
        push_str(&mut zp, name.as_str());
        if e.is_dir {
            let mut dn = zp.clone();
            push_str(&mut dn, "/");
            out.push(ZipEntry::Dir(dn));
            let ghost mid2 = entries_view(out@);
            visit(fs, e.path.as_str(), zp.as_str(), depth - 1, out);
            assert(entries_view(out@) =~= mid + (seq![ZipEntryV::Dir(zp@ + "/"@)] + tree_entries(fs@, e.path@, zp@, (depth - 1) as nat)));
        } else {
            out.push(ZipEntry::File { name: zp.clone(), source: e.path.clone() });
            assert(entries_view(out@) =~= mid + seq![ZipEntryV::File(zp@, e.path@)]);
        }
        i = i + 1;
        assert(entries_view(out@) =~= start + list_entries(fs@, esv.take(i as int), prefix@, (depth - 1) as nat));
    }
    assert(esv.take(es.len() as int) =~= esv);
}

/// Checks the `.app` bundle and lays out the `.ipa`: `Payload/`, `Payload/<App>.app/`, then
/// every directory and file below the bundle in listing order.
pub fn package_ipa(app_path: &str, out_ipa: &str, fs: &FsSnapshot) -> (r: Result<PackageResult, String>)
    ensures
        match (r, package_spec(fs@, app_path@)) {
            (Ok(p), Ok((n, es))) => p.app_name@ == n && p.ipa_path@ == out_ipa@ && entries_view(p.entries@) == es,
            (Err(e), Err(se)) => e@ == se,
            _ => false,
        },
{
    if !fs.is_dir(app_path) {
        let mut m = string_from("expected an .app bundle directory, got: ");
        push_str(&mut m, app_path);
        return Err(m);
    }
    let n = match file_name_vec(&chars_of(app_path)) {
        Some(n) => n,
        None => {
            return Err(string_from("invalid .app name"));
        },
    };
    if !vec_ends_with(&lower_vec(&n), &chars_of(".app")) {
        let mut m = string_from("bundle name should end with .app (got ");
        push_str(&mut m, string_of(&n).as_str());
        push_str(&mut m, ")");
        return Err(m);
    }
    let app_name = string_of(&n);
    let mut entries: Vec<ZipEntry> = Vec::new();
    entries.push(ZipEntry::Dir(string_from("Payload/")));
    let mut d2 = string_from("Payload/");
    push_str(&mut d2, app_name.as_str());
    push_str(&mut d2, "/");
    entries.push(ZipEntry::Dir(d2));
    let mut prefix = string_from("Payload/");
    push_str(&mut prefix, app_name.as_str());
    let ghost head = entries_view(entries@);
    assert(head =~= seq![ZipEntryV::Dir("Payload/"@), ZipEntryV::Dir("Payload/"@ + n@ + "/"@)]);
    visit(fs, app_path, prefix.as_str(), 64, &mut entries);
    Ok(PackageResult { ipa_path: string_from(out_ipa), app_name, entries })
}

/// `<dir of the .app>/<stem>.ipa` (`App` when the path has no stem, `.` when no parent).
pub open spec fn default_ipa_spec(app_path: Seq<char>) -> Seq<char> {
    let stem = match file_stem(app_path) {
        Some(s) => s,
        None => "App"@,
    };
    let dir = match parent(app_path) {
        Some(p) => p,
        None => "."@,
    };
    join(dir, stem + ".ipa"@)
}

/// Default output path beside the `.app`.
pub fn default_ipa_path(app_path: &str) -> (r: String)
    ensures
        r@ == default_ipa_spec(app_path@),
{
    let v = chars_of(app_path);
    let mut name = match file_stem_vec(&v) {
        Some(s) => string_of(&s),
        None => string_from("App"),
    };
    push_str(&mut name, ".ipa");
    let dir = match parent_vec(&v) {
        Some(p) => string_of(&p),
        None => string_from("."),
    };
    join_str(dir.as_str(), name.as_str())
}

} // verus!
