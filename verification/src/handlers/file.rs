//! Serving stored media: `GET /file/{content_type}/{id}`.

use vstd::prelude::*;

use crate::reply::{is_message, message_reply, Reply};
use crate::text::{extension_of, extension_spec, first_segment, first_segment_of, text_eq};

verus! {

/// The directory that holds media of a content type: `./storage/{content_type}`.
pub fn storage_dir(content_type: &str) -> (r: String)
    ensures
        r@ == "./storage/"@ + content_type@,
{
    String::from_str("./storage/").concat(content_type)
}

/// A directory entry as the lookup sees it.
#[derive(Clone, Debug)]
pub struct DirEntryInfo {
    /// The walk gave the entry; `false` where it reported an I/O error in
    /// its place (the service panics on reaching such an entry).
    pub readable: bool,
    pub is_file: bool,
    /// The entry's file name; none where it has none or it is not UTF-8.
    pub file_name: Option<String>,
}

/// The entry is the stored file of resource `id`: a file whose name, up to
/// its first dot, is `id`.
pub open spec fn entry_matches(e: DirEntryInfo, id: Seq<char>) -> bool {
    &&& e.readable
    &&& e.is_file
    &&& e.file_name matches Some(n) && first_segment(n@) == id
}

/// The entry can be looked at without a panic: the walk gave it, a file
/// must have a UTF-8 name, and the file of the resource must have an
/// extension.
pub open spec fn entry_readable(e: DirEntryInfo, id: Seq<char>) -> bool {
    &&& e.readable
    &&& e.is_file ==> e.file_name is Some
    &&& entry_matches(e, id) ==> extension_spec(e.file_name->Some_0@) is Some
}

/// Looks at one directory entry: the extension of the resource's file if
/// this entry is it. The directory is walked in its own order and the first
/// entry that answers is taken.
pub fn entry_extension(e: &DirEntryInfo, id: &str) -> (r: Option<String>)
    requires
        entry_readable(*e, id@),
    ensures
        r is Some <==> entry_matches(*e, id@),
        r matches Some(x) ==> extension_spec(e.file_name->Some_0@) == Some(x@),
{
    if !e.is_file {
        return None;
    }
    match &e.file_name {
        None => None,
        Some(n) => {
            let head = first_segment_of(n.as_str());
            if text_eq(head.as_str(), id) {
                extension_of(n.as_str())
            } else {
                None
            }
        },
    }
}

/// No entry before `i` is the resource's file, so entry `i` is looked at.
pub open spec fn entry_reached(entries: Seq<DirEntryInfo>, id: Seq<char>, i: int) -> bool {
    forall|j: int| 0 <= j < i ==> !entry_matches(#[trigger] entries[j], id)
}

/// Every entry that the walk looks at can be read without a panic.
pub open spec fn listing_readable(entries: Seq<DirEntryInfo>, id: Seq<char>) -> bool {
    forall|i: int| 0 <= i < entries.len() && entry_reached(entries, id, i) ==> entry_readable(#[trigger] entries[i], id)
}

/// The position of the resource's file: the first entry, in listing order,
/// that is it.
pub open spec fn first_match(entries: Seq<DirEntryInfo>, id: Seq<char>) -> Option<int> {
    if exists|i: int| 0 <= i < entries.len() && entry_matches(entries[i], id) {
        Some(choose|i: int| 0 <= i < entries.len() && entry_matches(entries[i], id) && entry_reached(entries, id, i))
    } else {
        None
    }
}

/// The name of the resource's stored file, where the listing has one: that
/// of the first entry, in listing order, that is it.
pub open spec fn chosen_name(entries: Seq<DirEntryInfo>, id: Seq<char>) -> Option<Seq<char>> {
    match first_match(entries, id) {
        Some(i) => Some(entries[i].file_name->Some_0@),
        None => None,
    }
}

/// The entries of a listing that are the resource's file, in listing order.
pub open spec fn resource_files(entries: Seq<DirEntryInfo>, id: Seq<char>) -> Seq<DirEntryInfo> {
    entries.filter(|e: DirEntryInfo| entry_matches(e, id))
}

/// A listing with an entry of the resource has a first one.
proof fn lemma_first_entry_exists(entries: Seq<DirEntryInfo>, id: Seq<char>, k: int)
    requires
        0 <= k < entries.len(),
        entry_matches(entries[k], id),
    ensures
        exists|w: int| 0 <= w < entries.len() && entry_matches(entries[w], id) && entry_reached(entries, id, w),
    decreases k,
{
    if !entry_reached(entries, id, k) {
        let j = choose|j: int| 0 <= j < k && entry_matches(#[trigger] entries[j], id);
        lemma_first_entry_exists(entries, id, j);
    }
}

/// The first entry of the resource is the first of its files.
proof fn lemma_first_match_heads_files(entries: Seq<DirEntryInfo>, id: Seq<char>)
    ensures
        first_match(entries, id) is None <==> resource_files(entries, id).len() == 0,
        first_match(entries, id) matches Some(i) ==> 0 <= i < entries.len() && entry_matches(entries[i], id)
            && entry_reached(entries, id, i) && resource_files(entries, id)[0] == entries[i],
    decreases entries.len(),
{
    reveal(Seq::filter);
    let pred = |e: DirEntryInfo| entry_matches(e, id);
    if entries.len() == 0 {
        return;
    }
    let n = entries.len() - 1;
    let d = entries.drop_last();
    lemma_first_match_heads_files(d, id);
    assert(resource_files(entries, id) == if pred(entries.last()) {
        resource_files(d, id).push(entries.last())
    } else {
        resource_files(d, id)
    });
    match first_match(d, id) {
        Some(i) => {
            assert(entries[i] == d[i]);
            assert(entry_reached(entries, id, i)) by {
                assert forall|j: int| 0 <= j < i implies !entry_matches(#[trigger] entries[j], id) by {
                    assert(entries[j] == d[j]);
                }
            }
            lemma_first_entry_exists(entries, id, i);
            let w = choose|w: int| 0 <= w < entries.len() && entry_matches(entries[w], id) && entry_reached(entries, id, w);
            if w < i {
                assert(entries[w] == d[w]);
            }
            if w > i {
                assert(!entry_matches(entries[i], id));
            }
            assert(w == i);
        },
        None => {
            assert forall|k: int| 0 <= k < n implies !entry_matches(#[trigger] entries[k], id) by {
                assert(entries[k] == d[k]);
                if entry_matches(d[k], id) {
                    lemma_first_entry_exists(d, id, k);
                }
            }
            if entry_matches(entries[n], id) {
                assert(entry_reached(entries, id, n));
                let w = choose|w: int| 0 <= w < entries.len() && entry_matches(entries[w], id) && entry_reached(entries, id, w);
                assert(w == n);
            } else {
                assert(!(exists|k: int| 0 <= k < entries.len() && entry_matches(entries[k], id)));
            }
        },
    }
}

/// Which file is served depends on the resource's own files alone: two
/// listings that hold the same entries of the resource, in the same order,
/// choose the same file, whatever other entries they hold.
pub proof fn law_lookup_ignores_other_entries(first: Seq<DirEntryInfo>, second: Seq<DirEntryInfo>, id: Seq<char>)
    requires
        resource_files(first, id) == resource_files(second, id),
    ensures
        chosen_name(first, id) == chosen_name(second, id),
{
    lemma_first_match_heads_files(first, id);
    lemma_first_match_heads_files(second, id);
}

/// Whether the walk over the listing can be made without a panic.
pub fn listing_ready(entries: &Vec<DirEntryInfo>, id: &str) -> (r: bool)
    ensures
        r == listing_readable(entries@, id@),
{
    let n = entries.len();
    let mut i: usize = 0;
    while i < n
        invariant
            n == entries@.len(),
            i <= n,
            entry_reached(entries@, id@, i as int),
            forall|k: int| 0 <= k < i ==> entry_readable(#[trigger] entries@[k], id@),
        decreases n - i,
    {
        let e = &entries[i];
        if !e.readable {
            assert(!entry_readable(entries@[i as int], id@));
            return false;
        }
        if e.is_file {
            match &e.file_name {
                None => {
                    assert(!entry_readable(entries@[i as int], id@));
                    return false;
                },
                Some(name) => {
                    let head = first_segment_of(name.as_str());
                    if text_eq(head.as_str(), id) {
                        let ext = extension_of(name.as_str());
                        if ext.is_none() {
                            assert(!entry_readable(entries@[i as int], id@));
                            return false;
                        }
                        assert forall|k: int| 0 <= k < entries@.len() && entry_reached(entries@, id@, k) implies entry_readable(#[trigger] entries@[k], id@) by {
                            if k > i {
                                assert(entry_matches(entries@[i as int], id@));
                            }
                        }
                        return true;
                    }
                },
            }
        }
        assert(!entry_matches(entries@[i as int], id@));
        assert(entry_reached(entries@, id@, i + 1)) by {
            assert forall|j: int| 0 <= j < i + 1 implies !entry_matches(#[trigger] entries@[j], id@) by {
                if j < i {
                    assert(entry_reached(entries@, id@, i as int));
                }
            }
        }
        i = i + 1;
    }
    true
}

/// Finds the resource `id` of `content_type` in the listing of its
/// directory: the first entry, in listing order, that is its file gives the
/// extension, hence the file's path and the content type to serve; with no
/// such entry the answer is 404.
pub fn find_resource(entries: &Vec<DirEntryInfo>, content_type: &str, id: &str) -> (r: Result<(String, String), Reply>)
    requires
        listing_readable(entries@, id@),
    ensures
        match chosen_name(entries@, id@) {
            Some(n) => r matches Ok(loc) && (extension_spec(n) matches Some(x)
                && loc.0@ == "./storage/"@ + content_type@ + "/"@ + id@ + "."@ + x
                && loc.1@ == content_type@ + "/"@ + x),
            None => r matches Err(rep) && is_message(rep, 404, "Resource not found"@),
        },
{
    let n = entries.len();
    let mut i: usize = 0;
    while i < n
        invariant
            n == entries@.len(),
            i <= n,
            listing_readable(entries@, id@),
            entry_reached(entries@, id@, i as int),
        decreases n - i,
    {
        assert(entry_readable(entries@[i as int], id@));
        match entry_extension(&entries[i], id) {
            Some(ext) => {
                proof {
                    let w = choose|w: int| 0 <= w < entries@.len() && entry_matches(entries@[w], id@) && entry_reached(entries@, id@, w);
                    assert(entry_matches(entries@[i as int], id@));
                    assert(w == i);
                }
                let loc = resource_location(content_type, id, ext.as_str());
                return Ok(loc);
            },
            None => {
                assert(entry_reached(entries@, id@, i + 1)) by {
                    assert forall|j: int| 0 <= j < i + 1 implies !entry_matches(#[trigger] entries@[j], id@) by {
                        if j < i {
                            assert(entry_reached(entries@, id@, i as int));
                        }
                    }
                }
            },
        }
        i = i + 1;
    }
    Err(not_found_reply())
}

/// Where a found resource lies, `./storage/{ct}/{id}.{ext}`, and the content
/// type it is served with, `{ct}/{ext}`.
pub fn resource_location(content_type: &str, id: &str, ext: &str) -> (r: (String, String))
    ensures
        r.0@ == "./storage/"@ + content_type@ + "/"@ + id@ + "."@ + ext@,
        r.1@ == content_type@ + "/"@ + ext@,
{
    let path = String::from_str("./storage/").concat(content_type).concat("/").concat(id).concat(
        ".",
    ).concat(ext);
    let mime = String::from_str(content_type).concat("/").concat(ext);
    (path, mime)
}

/// The answer when no file of the resource exists.
pub fn not_found_reply() -> (r: Reply)
    ensures
        is_message(r, 404, "Resource not found"@),
{
    message_reply(404, "Resource not found")
}

/// The answer when the found file cannot be read.
pub fn read_failed_reply() -> (r: Reply)
    ensures
        is_message(r, 500, "An internal error occured"@),
{
    message_reply(500, "An internal error occured")
}

} // verus!
