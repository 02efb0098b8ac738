//! Safety of release archives: every entry must stay inside the directory it is
//! unpacked into.
use vstd::prelude::*;
use crate::models::opt_view;

verus! {

/// One entry of an archive: its path, and the target of a link entry.
#[derive(Clone, Debug)]
pub struct ArchiveEntry {
    pub path: String,
    pub link: Option<String>,
}

/// The text view of an entry.
pub open spec fn entry_view(e: ArchiveEntry) -> (Seq<char>, Option<Seq<char>>) {
    (e.path@, opt_view(e.link))
}

/// The entries of a gzip-compressed tar archive, in order, or `None` where the
/// bytes do not decode as one.
pub uninterp spec fn archive_listing_of(data: Seq<u8>) -> Option<Seq<(Seq<char>, Option<Seq<char>>)>>;

/// Relies on flate2's `GzDecoder` and tar's `Archive::entries`, `Entry::path` and
/// `Entry::link_name`: the listing depends on the bytes alone.
#[verifier::external_body]
fn list_archive(data: &[u8]) -> (r: Option<Vec<ArchiveEntry>>)
    ensures
        archive_listing_of(data@) == (match r {
            Some(v) => Some(v@.map_values(|e: ArchiveEntry| entry_view(e))),
            None => None,
        }),
{
    let mut archive = tar::Archive::new(flate2::read::GzDecoder::new(data));
    let mut out = Vec::new();
    for entry in archive.entries().ok()? {
        let entry = entry.ok()?;
        let path = entry.path().ok()?.to_string_lossy().into_owned();
        let link = match entry.link_name().ok()? {
            Some(l) => Some(l.to_string_lossy().into_owned()),
            None => None,
        };
        out.push(ArchiveEntry { path, link });
    }
    Some(out)
}

/// Whether a character separates path components.
pub open spec fn is_separator(c: char) -> bool {
    c == '/' || c == '\\'
}

/// Whether a `..` component starts at index `i`.
pub open spec fn parent_component_at(p: Seq<char>, i: int) -> bool {
    &&& 0 <= i
    &&& i + 1 < p.len()
    &&& p[i] == '.'
    &&& p[i + 1] == '.'
    &&& (i == 0 || is_separator(p[i - 1]))
    &&& (i + 2 == p.len() || is_separator(p[i + 2]))
}

/// Whether a path is absolute: it starts at a root or a drive.
pub open spec fn is_absolute_path(p: Seq<char>) -> bool {
    (p.len() > 0 && is_separator(p[0])) || (p.len() >= 2 && p[1] == ':')
}

/// Whether a path stays inside the directory it is taken relative to: it is
/// relative, not empty, and has no `..` component.
pub open spec fn path_stays_inside(p: Seq<char>) -> bool {
    p.len() > 0 && !is_absolute_path(p) && forall|i: int| !parent_component_at(p, i)
}

/// Whether an entry is safe: its path stays inside, and so does a link's target
/// (a link target is held to the same rule, so that no link can reach outside).
pub open spec fn entry_safe(e: (Seq<char>, Option<Seq<char>>)) -> bool {
    path_stays_inside(e.0) && match e.1 {
        None => true,
        Some(t) => path_stays_inside(t),
    }
}

fn is_sep(c: char) -> (r: bool)
    ensures
        r == is_separator(c),
{
    c == '/' || c == '\\'
}

/// Whether a path stays inside the directory it is taken relative to.
pub fn stays_inside(p: &str) -> (r: bool)
    ensures
        r == path_stays_inside(p@),
{
    let n = p.unicode_len();
    if n == 0 {
        return false;
    }
    if is_sep(p.get_char(0)) {
        return false;
    }
    if n >= 2 && p.get_char(1) == ':' {
        return false;
    }
    let mut i: usize = 0;
    while i + 1 < n
        invariant
            n == p@.len(),
            i < n,
            forall|k: int| 0 <= k < i ==> !parent_component_at(p@, k),
        decreases n - i,
    {
        if p.get_char(i) == '.' && p.get_char(i + 1) == '.' && (i == 0 || is_sep(p.get_char(i - 1)))
            && (i + 2 == n || is_sep(p.get_char(i + 2))) {
            assert(parent_component_at(p@, i as int));
            return false;
        }
        i = i + 1;
    }
    assert forall|k: int| !parent_component_at(p@, k) by {
        if 0 <= k < i {
        }
    }
    true
}

/// Whether an archive entry is safe.
pub fn entry_is_safe(e: &ArchiveEntry) -> (r: bool)
    ensures
        r == entry_safe(entry_view(*e)),
{
    if !stays_inside(e.path.as_str()) {
        return false;
    }
    match &e.link {
        None => true,
        Some(t) => stays_inside(t.as_str()),
    }
}

/// Whether every entry of a listing is safe.
pub fn entries_safe(entries: &Vec<ArchiveEntry>) -> (r: bool)
    ensures
        r == forall|i: int| 0 <= i < entries@.len() ==> entry_safe(entry_view(entries@[i])),
{
    let mut i: usize = 0;
    while i < entries.len()
        invariant
            i <= entries@.len(),
            forall|k: int| 0 <= k < i ==> entry_safe(entry_view(entries@[k])),
        decreases entries@.len() - i,
    {
        if !entry_is_safe(&entries[i]) {
            return false;
        }
        i = i + 1;
    }
    true
}

/// Whether every entry of a listing is safe.
pub open spec fn listing_safe(l: Seq<(Seq<char>, Option<Seq<char>>)>) -> bool {
    forall|i: int| 0 <= i < l.len() ==> entry_safe(#[trigger] l[i])
}

/// Why an archive is refused.
#[derive(Clone, Copy, Debug, PartialEq, Eq, Structural)]
pub enum ArchiveError {
    /// The bytes are not a gzip-compressed tar archive.
    Unreadable,
    /// An entry's path, or a link's target, would leave the unpack directory.
    UnsafePath,
}

/// Checks an artifact before it is unpacked: it must decode, and every entry must
/// be safe.
pub fn check_archive(data: &[u8]) -> (r: Result<(), ArchiveError>)
    ensures
        archive_listing_of(data@) is None ==> r == Err::<(), ArchiveError>(ArchiveError::Unreadable),
        archive_listing_of(data@) is Some ==> (r is Ok <==> listing_safe(
            archive_listing_of(data@).unwrap(),
        )),
        archive_listing_of(data@) is Some && !(r is Ok) ==> r == Err::<(), ArchiveError>(
            ArchiveError::UnsafePath,
        ),
{
    match list_archive(data) {
        None => Err(ArchiveError::Unreadable),
        Some(entries) => {
            let ghost listing = archive_listing_of(data@).unwrap();
            assert(listing.len() == entries@.len());
            assert(forall|i: int| 0 <= i < entries@.len() ==> listing[i] == entry_view(entries@[i]));
            if entries_safe(&entries) {
                assert(listing_safe(listing));
                Ok(())
            } else {
                let ghost k = choose|k: int| 0 <= k < entries@.len() && !entry_safe(entry_view(entries@[k]));
                assert(!entry_safe(listing[k]));
                Err(ArchiveError::UnsafePath)
            }
        },
    }
}

/// A top-level item of an unpacked tree.
pub struct TopLevelItem {
    pub name: String,
    pub is_dir: bool,
}

/// The root of an unpacked tree: where it holds one single directory, that
/// directory (its index); otherwise the unpack directory itself (`None`).
pub fn find_extracted_root(items: &Vec<TopLevelItem>) -> (r: Option<usize>)
    ensures
        r is Some <==> items@.len() == 1 && items@[0].is_dir,
        r is Some ==> r.unwrap() == 0,
{
    if items.len() == 1 && items[0].is_dir {
        Some(0)
    } else {
        None
    }
}

} // verus!
