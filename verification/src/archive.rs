//! Extracting a downloaded archive: reading its entries (the `zip` crate),
//! whether they share one top-level folder to strip, which of them are extracted
//! and where, and what is done with each. Paths are given as their components;
//! writing files is left to the caller.

use vstd::prelude::*;
use std::io::Cursor;
use zip::ZipArchive;
use crate::bot_config_bundle::clone_strings;
use crate::text::{push_char, str_eq, views};

verus! {

/// The first component of a path, as a path: empty for an empty path.
pub open spec fn first_part(p: Seq<Seq<char>>) -> Seq<Seq<char>> {
    if p.len() == 0 {
        Seq::empty()
    } else {
        seq![p[0]]
    }
}

/// Whether the components of `prefix` begin those of `p`.
pub open spec fn starts_with_parts(p: Seq<Seq<char>>, prefix: Seq<Seq<char>>) -> bool {
    prefix.len() <= p.len() && p.subrange(0, prefix.len() as int) == prefix
}

/// An archive has a single top-level folder when it has two entries or more and
/// each begins with the first component of the first.
pub open spec fn single_toplevel(entries: Seq<Seq<Seq<char>>>) -> bool {
    &&& entries.len() >= 2
    &&& forall|i: int| 0 <= i < entries.len() ==> starts_with_parts(#[trigger] entries[i], first_part(entries[0]))
}

/// The views of the components of each entry.
pub open spec fn entry_views(entries: Seq<Vec<String>>) -> Seq<Seq<Seq<char>>> {
    entries.map_values(|e: Vec<String>| views(e@))
}

/// Whether the archive's entries, given by the components of their names, all lie
/// in one top-level folder, which extracting then strips.
pub fn has_toplevel(entries: &Vec<Vec<String>>) -> (r: bool)
    ensures
        r == single_toplevel(entry_views(entries@)),
{
    let ghost es = entry_views(entries@);
    if entries.len() < 2 {
        return false;
    }
    let first = &entries[0];
    assert(es[0] == views(first@));
    let mut i: usize = 0;
    while i < entries.len()
        invariant
            2 <= entries@.len(),
            i <= entries@.len(),
            es == entry_views(entries@),
            es[0] == views(first@),
            forall|j: int| 0 <= j < i ==> starts_with_parts(#[trigger] es[j], first_part(es[0])),
        decreases entries.len() - i,
    {
        let e = &entries[i];
        assert(es[i as int] == views(e@));
        if first.len() > 0 {
            let begins = e.len() > 0 && str_eq(e[0].as_str(), first[0].as_str());
            if !begins {
                proof {
                    assert(first_part(es[0]) == seq![first@[0]@]);
                    assert(es[i as int].len() == e@.len());
                    if e@.len() > 0 {
                        assert(es[i as int][0] == e@[0]@);
                        assert(es[i as int].subrange(0, 1)[0] == e@[0]@);
                    }
                    assert(!starts_with_parts(es[i as int], first_part(es[0])));
                }
                return false;
            }
            proof {
                assert(first_part(es[0]) == seq![first@[0]@]);
                assert(es[i as int].subrange(0, 1) =~= seq![e@[0]@]);
            }
        } else {
            assert(first_part(es[0]) =~= Seq::<Seq<char>>::empty());
            assert(es[i as int].subrange(0, 0) =~= Seq::<Seq<char>>::empty());
        }
        i = i + 1;
    }
    true
}

/// The components an entry is extracted under: without its first when the
/// top-level folder is stripped.
pub open spec fn extracted_parts(parts: Seq<Seq<char>>, strip_toplevel: bool) -> Seq<Seq<char>> {
    if strip_toplevel && parts.len() > 0 {
        parts.drop_first()
    } else {
        parts
    }
}

/// Stripping the top-level folder takes exactly the first component off every
/// non-empty path, so that the top-level folder's own entry is left with no
/// component; without stripping a path is kept whole.
pub proof fn lemma_extracted_parts(parts: Seq<Seq<char>>, strip_toplevel: bool)
    ensures
        strip_toplevel && parts.len() > 0 ==> extracted_parts(parts, strip_toplevel).len() == parts.len() - 1
            && forall|i: int| 0 <= i < parts.len() - 1 ==> #[trigger] extracted_parts(parts, strip_toplevel)[i] == parts[i + 1],
        !strip_toplevel ==> extracted_parts(parts, strip_toplevel) == parts,
        strip_toplevel && parts.len() == 1 ==> extracted_parts(parts, strip_toplevel).len() == 0,
{
}

/// The components an entry is extracted under.
pub fn extraction_parts(parts: &Vec<String>, strip_toplevel: bool) -> (r: Vec<String>)
    ensures
        views(r@) == extracted_parts(views(parts@), strip_toplevel),
        strip_toplevel && parts@.len() > 0 ==> r@.len() == parts@.len() - 1
            && forall|i: int| 0 <= i < r@.len() ==> #[trigger] r@[i]@ == parts@[i + 1]@,
        !strip_toplevel ==> views(r@) == views(parts@),
{
    proof { lemma_extracted_parts(views(parts@), strip_toplevel); }
    let start: usize = if strip_toplevel && parts.len() > 0 { 1 } else { 0 };
    let mut r: Vec<String> = Vec::new();
    let mut i: usize = start;
    while i < parts.len()
        invariant
            start <= i <= parts@.len(),
            start == (if strip_toplevel && parts@.len() > 0 { 1int } else { 0int }),
            views(r@) == views(parts@).subrange(start as int, i as int),
        decreases parts.len() - i,
    {
        let ghost before = r@;
        r.push(parts[i].clone());
        assert(views(r@) =~= views(before).push(parts@[i as int]@));
        assert(views(parts@).subrange(start as int, i + 1) =~= views(parts@).subrange(start as int, i as int).push(
            parts@[i as int]@,
        ));
        i = i + 1;
    }
    assert(views(parts@).subrange(start as int, parts@.len() as int) =~= extracted_parts(views(parts@), strip_toplevel));
    assert(views(r@).len() == r@.len());
    assert forall|i: int| 0 <= i < r@.len() && strip_toplevel && parts@.len() > 0 implies #[trigger] r@[i]@ == parts@[i + 1]@ by {
        assert(views(r@)[i] == r@[i]@);
        assert(views(parts@)[i + 1] == parts@[i + 1]@);
    }
    r
}

#[verifier::external_type_specification]
#[verifier::external_body]
#[verifier::reject_recursive_types(T)]
pub struct ExCursor<T>(Cursor<T>);

#[verifier::external_type_specification]
#[verifier::external_body]
#[verifier::reject_recursive_types(R)]
pub struct ExZipArchive<R>(ZipArchive<R>);

/// Whether a relative path, given by its components, stays inside the folder it is
/// taken from when it starts at depth `d` below it: `..` goes up one level, `.`
/// stays, any other component goes down one, and the depth never drops below the
/// folder.
pub open spec fn depth_ok(parts: Seq<Seq<char>>, d: int) -> bool
    decreases parts.len(),
{
    if parts.len() == 0 {
        true
    } else {
        let next = if parts[0] == ".."@ {
            d - 1
        } else if parts[0] == "."@ {
            d
        } else {
            d + 1
        };
        next >= 0 && depth_ok(parts.drop_first(), next)
    }
}

/// A relative path that never leaves the folder it is taken from.
pub open spec fn stays_inside(parts: Seq<Seq<char>>) -> bool {
    depth_ok(parts, 0)
}

/// Every enclosed name of a listing stays inside the folder it is extracted to.
pub open spec fn names_enclosed(l: Seq<ListedEntry>) -> bool {
    forall|i: int| 0 <= i < l.len() ==> ((#[trigger] l[i]).1 matches Some(p) ==> stays_inside(p))
}

/// An entry of an archive as it is listed, by the components of its names, and
/// its contents: `(mangled, enclosed, is_dir, contents)`. The mangled name keeps
/// only the ordinary components of the stored name; the enclosed name is `None`
/// where the stored name is unsafe to extract (absolute, leaving the folder, or
/// holding a NUL); the contents are `None` where reading them fails.
pub type ListedEntry = (Seq<Seq<char>>, Option<Seq<Seq<char>>>, bool, Option<Seq<u8>>);

/// What `ZipArchive::new` reads of an archive's bytes, entry by entry in the
/// order of its central directory, each with what `by_index` and reading the
/// entry give; `None` where `ZipArchive::new` refuses the bytes.
pub uninterp spec fn zip_listing(bytes: Seq<u8>) -> Option<Seq<ListedEntry>>;

/// The entries an opened archive holds.
pub uninterp spec fn zip_entries(archive: ZipArchive<Cursor<Vec<u8>>>) -> Seq<ListedEntry>;

/// `ZipArchive::new` over the bytes: the archive, or the error's message. Each
/// entry's `enclosed_name` is given only for a stored name without a NUL, a root
/// or a prefix, whose `..` components never climb above its start; its components
/// are then `..` for each parent step, `.` for a leading current-folder step, and
/// names.
#[verifier::external_body]
fn open_zip(bytes: Vec<u8>) -> (r: Result<ZipArchive<Cursor<Vec<u8>>>, String>)
    ensures
        r is Ok <==> zip_listing(bytes@) is Some,
        r matches Ok(a) ==> zip_listing(bytes@) == Some(zip_entries(a)),
        r matches Ok(a) ==> names_enclosed(zip_entries(a)),
{
    ZipArchive::new(Cursor::new(bytes)).map_err(|e| e.to_string())
}

/// `ZipArchive::len`: the number of entries.
#[verifier::external_body]
fn zip_len(archive: &ZipArchive<Cursor<Vec<u8>>>) -> (r: usize)
    ensures
        r == zip_entries(*archive).len(),
{
    archive.len()
}

/// An entry of an archive, read out: the components of its mangled and of its
/// enclosed name, whether it is a folder, and its contents.
pub struct ZipEntry {
    pub mangled: Vec<String>,
    pub enclosed: Option<Vec<String>>,
    pub is_dir: bool,
    pub contents: Vec<u8>,
}

impl ZipEntry {
    /// The entry as it is listed.
    pub open spec fn listed(&self) -> ListedEntry {
        (views(self.mangled@), match self.enclosed {
            Some(p) => Some(views(p@)),
            None => None,
        }, self.is_dir, Some(self.contents@))
    }
}

/// `ZipArchive::by_index` and reading the entry to its end: the entry with the
/// components of `mangled_name` and `enclosed_name`, `is_dir` and the contents,
/// or the error's message where either fails. The archive's entries stay as they
/// were.
#[verifier::external_body]
fn zip_entry(archive: &mut ZipArchive<Cursor<Vec<u8>>>, index: usize) -> (r: Result<ZipEntry, String>)
    requires
        index < zip_entries(*old(archive)).len(),
    ensures
        zip_entries(*final(archive)) == zip_entries(*old(archive)),
        match zip_entries(*old(archive))[index as int].3 {
            Some(_) => r matches Ok(e) && e.listed() == zip_entries(*old(archive))[index as int],
            None => r is Err,
        },
{
    let mut f = archive.by_index_decrypt(index, b"").map_err(|e| e.to_string())?.map_err(|e| e.to_string())?;
    let parts = |p: &std::path::Path| p.components().map(|c| c.as_os_str().to_string_lossy().into_owned()).collect();
    let mut contents = Vec::new();
    std::io::Read::read_to_end(&mut f, &mut contents).map_err(|e| e.to_string())?;
    Ok(ZipEntry { mangled: parts(&f.mangled_name()), enclosed: f.enclosed_name().map(parts), is_dir: f.is_dir(), contents })
}

/// Whether every entry of a listing can be read.
pub open spec fn all_readable(l: Seq<ListedEntry>) -> bool {
    forall|i: int| 0 <= i < l.len() ==> (#[trigger] l[i]).3 is Some
}

/// Reads every entry of an archive: the entries in the order of its central
/// directory, or an error's message where the archive is refused or an entry
/// cannot be read.
pub fn read_zip_entries(bytes: Vec<u8>) -> (r: Result<Vec<ZipEntry>, String>)
    ensures
        r is Ok <==> (zip_listing(bytes@) matches Some(l) && all_readable(l)),
        r matches Ok(v) ==> zip_listing(bytes@) == Some(v@.map_values(|e: ZipEntry| e.listed())),
        r matches Ok(v) ==> names_enclosed(v@.map_values(|e: ZipEntry| e.listed())),
{
    let ghost src = bytes@;
    let mut archive = match open_zip(bytes) {
        Ok(a) => a,
        Err(e) => return Err(e),
    };
    let ghost l = zip_entries(archive);
    let n = zip_len(&archive);
    let mut out: Vec<ZipEntry> = Vec::new();
    let mut i: usize = 0;
    while i < n
        invariant
            i <= n,
            n == l.len(),
            zip_entries(archive) == l,
            zip_listing(src) == Some(l),
            names_enclosed(l),
            src == bytes@,
            out@.len() == i,
            forall|j: int| 0 <= j < i ==> (#[trigger] out@[j]).listed() == l[j],
        decreases n - i,
    {
        match zip_entry(&mut archive, i) {
            Ok(e) => out.push(e),
            Err(msg) => {
                assert(l[i as int].3 is None);
                assert(!all_readable(l));
                return Err(msg);
            },
        }
        i = i + 1;
    }
    assert(out@.map_values(|e: ZipEntry| e.listed()) =~= l);
    Ok(out)
}

/// The entries that are extracted, each with its index and the components it is
/// extracted under: those of the first `n` entries with a safe name, in order.
pub open spec fn planned(listing: Seq<ListedEntry>, n: int, strip_toplevel: bool) -> Seq<(int, Seq<Seq<char>>)>
    decreases n,
{
    if n <= 0 {
        Seq::empty()
    } else {
        let prev = planned(listing, n - 1, strip_toplevel);
        match listing[n - 1].1 {
            Some(p) => prev.push((n - 1, extracted_parts(p, strip_toplevel))),
            None => prev,
        }
    }
}

/// A path that stays inside a folder from depth `d` does so from any deeper start.
proof fn lemma_depth_deeper(parts: Seq<Seq<char>>, d: int, e: int)
    requires
        d <= e,
        depth_ok(parts, d),
    ensures
        depth_ok(parts, e),
    decreases parts.len(),
{
    if parts.len() > 0 {
        let nd = if parts[0] == ".."@ { d - 1 } else if parts[0] == "."@ { d } else { d + 1 };
        let ne = if parts[0] == ".."@ { e - 1 } else if parts[0] == "."@ { e } else { e + 1 };
        lemma_depth_deeper(parts.drop_first(), nd, ne);
    }
}

/// Where archives are extracted: when the entries' enclosed names stay inside
/// their folder, each planned path stays inside the target folder when the
/// names are kept whole, and never climbs above the target folder's parent when
/// the top-level folder is stripped.
pub proof fn lemma_plan_stays_inside(listing: Seq<ListedEntry>, n: int, strip_toplevel: bool)
    requires
        0 <= n <= listing.len(),
        names_enclosed(listing),
    ensures
        forall|k: int| 0 <= k < planned(listing, n, strip_toplevel).len() ==> depth_ok(
            #[trigger] planned(listing, n, strip_toplevel)[k].1,
            if strip_toplevel { 1 } else { 0 },
        ),
    decreases n,
{
    if n > 0 {
        lemma_plan_stays_inside(listing, n - 1, strip_toplevel);
        let prev = planned(listing, n - 1, strip_toplevel);
        let cur = planned(listing, n, strip_toplevel);
        let d: int = if strip_toplevel { 1 } else { 0 };
        let e = listing[n - 1];
        match e.1 {
            Some(p) => {
                assert(stays_inside(p));
                let q = extracted_parts(p, strip_toplevel);
                if strip_toplevel && p.len() > 0 {
                    lemma_depth_deeper(p.drop_first(), if p[0] == "."@ { 0 } else { 1 }, 1);
                } else if strip_toplevel {
                    lemma_depth_deeper(p, 0, 1);
                }
                assert(depth_ok(q, d));
                assert(cur == prev.push((n - 1, q)));
                assert forall|k: int| 0 <= k < cur.len() implies depth_ok(#[trigger] cur[k].1, d) by {
                    if k < prev.len() {
                        assert(cur[k] == prev[k]);
                    }
                }
            },
            None => {
                assert(cur == prev);
            },
        }
    }
}

/// The mangled names of a listing.
pub open spec fn mangled_names(listing: Seq<ListedEntry>) -> Seq<Seq<Seq<char>>> {
    listing.map_values(|e: ListedEntry| e.0)
}

/// Which entries of an archive are extracted and under which components: entries
/// without a safe name are skipped, and the single top-level folder, where
/// `strip_toplevel` asks for it and the mangled names share one, is dropped from
/// the path of each.
pub fn extraction_plan(entries: &Vec<ZipEntry>, strip_toplevel: bool) -> (r: Vec<(usize, Vec<String>)>)
    ensures
        ({
            let listing = entries@.map_values(|e: ZipEntry| e.listed());
            let strip = strip_toplevel && single_toplevel(mangled_names(listing));
            let p = planned(listing, entries@.len() as int, strip);
            &&& r@.len() == p.len()
            &&& forall|k: int| 0 <= k < r@.len() ==> (#[trigger] r@[k]).0 == p[k].0 && views(r@[k].1@) == p[k].1
        }),
{
    let ghost listing = entries@.map_values(|e: ZipEntry| e.listed());
    let mut do_strip = false;
    if strip_toplevel {
        let mut names: Vec<Vec<String>> = Vec::new();
        let mut i: usize = 0;
        while i < entries.len()
            invariant
                i <= entries@.len(),
                names@.len() == i,
                forall|j: int| 0 <= j < i ==> (#[trigger] names@[j])@ == entries@[j].mangled@,
            decreases entries.len() - i,
        {
            names.push(clone_strings(&entries[i].mangled));
            i = i + 1;
        }
        assert(entry_views(names@) =~= mangled_names(listing));
        do_strip = has_toplevel(&names);
    }
    let ghost strip = strip_toplevel && single_toplevel(mangled_names(listing));
    assert(do_strip == strip);
    let mut r: Vec<(usize, Vec<String>)> = Vec::new();
    let mut i: usize = 0;
    while i < entries.len()
        invariant
            i <= entries@.len(),
            listing == entries@.map_values(|e: ZipEntry| e.listed()),
            do_strip == strip,
            r@.len() == planned(listing, i as int, strip).len(),
            forall|k: int| 0 <= k < r@.len() ==> (#[trigger] r@[k]).0 == planned(listing, i as int, strip)[k].0 && views(r@[k].1@) == planned(listing, i as int, strip)[k].1,
        decreases entries.len() - i,
    {
        let ghost before = r@;
        let ghost pb = planned(listing, i as int, strip);
        assert(listing[i as int] == entries@[i as int].listed());
        match &entries[i].enclosed {
            Some(p) => {
                let parts = extraction_parts(p, do_strip);
                r.push((i, parts));
            },
            None => {},
        }
        assert(planned(listing, i + 1, strip) == (match listing[i as int].1 {
            Some(p) => pb.push((i as int, extracted_parts(p, strip))),
            None => pb,
        }));
        i = i + 1;
    }
    r
}

/// A character of a path as written with forward slashes.
pub open spec fn forward(c: char) -> char {
    if c == '\\' {
        '/'
    } else {
        c
    }
}

/// The components of a path joined by `/`.
pub open spec fn joined(parts: Seq<Seq<char>>) -> Seq<char>
    decreases parts.len(),
{
    if parts.len() == 0 {
        Seq::empty()
    } else if parts.len() == 1 {
        parts[0]
    } else {
        joined(parts.drop_last()) + "/"@ + parts.last()
    }
}

/// The relative path an entry is written to, with forward slashes only: its
/// components joined by `/`, each backslash turned into a slash.
pub fn relative_text(parts: &Vec<String>) -> (r: String)
    ensures
        r@ == joined(views(parts@)).map_values(|c: char| forward(c)),
{
    let mut r = String::new();
    let mut i: usize = 0;
    proof {
        reveal_strlit("/");
    }
    while i < parts.len()
        invariant
            i <= parts@.len(),
            "/"@ == seq!['/'],
            r@ == joined(views(parts@).subrange(0, i as int)).map_values(|c: char| forward(c)),
        decreases parts.len() - i,
    {
        let ghost before = r@;
        let ghost prefix = views(parts@).subrange(0, i as int);
        let ghost next = views(parts@).subrange(0, i + 1);
        assert(next.drop_last() =~= prefix);
        assert(next.last() == parts@[i as int]@);
        if i > 0 {
            push_char(&mut r, '/');
        }
        let ghost mid = r@;
        let part = parts[i].as_str();
        let n = part.unicode_len();
        let mut k: usize = 0;
        while k < n
            invariant
                k <= n,
                n == part@.len(),
                r@ == mid + part@.subrange(0, k as int).map_values(|c: char| forward(c)),
            decreases n - k,
        {
            let c = part.get_char(k);
            let ghost r0 = r@;
            if c == '\\' {
                push_char(&mut r, '/');
            } else {
                push_char(&mut r, c);
            }
            assert(part@.subrange(0, k + 1).map_values(|c: char| forward(c)) =~= part@.subrange(0, k as int).map_values(
                |c: char| forward(c),
            ).push(forward(part@[k as int])));
            assert(r@ =~= mid + part@.subrange(0, k + 1).map_values(|c: char| forward(c)));
            k = k + 1;
        }
        assert(part@.subrange(0, n as int) =~= part@);
        if i == 0 {
            assert(next =~= seq![part@]);
            assert(r@ =~= joined(next).map_values(|c: char| forward(c)));
        } else {
            assert(joined(next) == joined(prefix) + "/"@ + part@);
            assert((joined(prefix) + "/"@ + part@).map_values(|c: char| forward(c)) =~= joined(prefix).map_values(
                |c: char| forward(c),
            ) + seq!['/'] + part@.map_values(|c: char| forward(c)));
            assert(r@ =~= joined(next).map_values(|c: char| forward(c)));
        }
        i = i + 1;
    }
    assert(views(parts@).subrange(0, parts@.len() as int) =~= views(parts@));
    r
}

/// What is done with an archive entry.
#[derive(Debug, PartialEq, Eq, Structural)]
pub enum EntryAction {
    /// Nothing: the entry is the top-level folder itself, or a file that exists
    /// and is not to be replaced.
    Skip,
    /// A folder: made when it does not exist yet.
    Directory { create: bool },
    /// A file, written out; an existing one is removed first, otherwise the
    /// folder it goes in is made when missing.
    File { replace_existing: bool },
}

/// What is done with an archive entry, given the components it is extracted
/// under, whether it is a folder, whether its target exists, and whether
/// existing files are replaced.
pub fn entry_action(parts: &Vec<String>, is_dir: bool, exists: bool, replace: bool) -> (r: EntryAction)
    ensures
        parts@.len() == 0 ==> r == EntryAction::Skip,
        (parts@.len() > 0 && is_dir) ==> r == (EntryAction::Directory { create: !exists }),
        (parts@.len() > 0 && !is_dir && exists && !replace) ==> r == EntryAction::Skip,
        (parts@.len() > 0 && !is_dir && exists && replace) ==> r == (EntryAction::File { replace_existing: true }),
        (parts@.len() > 0 && !is_dir && !exists) ==> r == (EntryAction::File { replace_existing: false }),
{
    if parts.len() == 0 {
        EntryAction::Skip
    } else if is_dir {
        EntryAction::Directory { create: !exists }
    } else if exists {
        if replace {
            EntryAction::File { replace_existing: true }
        } else {
            EntryAction::Skip
        }
    } else {
        EntryAction::File { replace_existing: false }
    }
}

} // verus!
