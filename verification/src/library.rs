//! Directory listings: which entries the browser shows, in which order, and
//! which of them can be queued for playback.

use vstd::prelude::*;
use crate::paths::{extension_of, path_extension};
use crate::text::{chars_before, chars_le, chars_of, chars_precede, lowercase, to_lowercase};

verus! {

broadcast use vstd::seq_lib::group_seq_properties;

/// A single entry in a directory listing: either a subdirectory or an audio file.
#[derive(Debug)]
pub struct Entry {
    pub path: String,
    pub name: String,
    pub is_dir: bool,
}

impl Clone for Entry {
    fn clone(&self) -> (r: Self)
        ensures
            r == *self,
    {
        Entry { path: self.path.clone(), name: self.name.clone(), is_dir: self.is_dir }
    }
}

/// An extension (already in lower case) that the player knows how to play.
pub open spec fn audio_extension(ext: Seq<char>) -> bool {
    ext == "mp3"@ || ext == "flac"@ || ext == "ogg"@ || ext == "oga"@
}

/// A path whose extension, in lower case, is one the player can play.
pub open spec fn audio_path(path: Seq<char>) -> bool {
    match path_extension(path) {
        Some(ext) => audio_extension(lowercase(ext)),
        None => false,
    }
}

/// Is `ext` (already in lower case) one of the playable extensions?
pub fn is_listed_extension(ext: &str) -> (r: bool)
    ensures
        r == audio_extension(ext@),
{
    let e = String::from_str(ext);
    e == String::from_str("mp3") || e == String::from_str("flac") || e == String::from_str("ogg")
        || e == String::from_str("oga")
}

/// Is `ext`, once lowered, one of the playable extensions?
pub fn is_audio_extension(ext: &str) -> (r: bool)
    ensures
        r == audio_extension(lowercase(ext@)),
{
    let lower = to_lowercase(ext);
    is_listed_extension(lower.as_str())
}

/// Returns true if the given path has an extension we know how to play.
pub fn is_audio_file(path: &str) -> (r: bool)
    ensures
        r == audio_path(path@),
{
    match extension_of(path) {
        Some(ext) => is_audio_extension(ext.as_str()),
        None => false,
    }
}


/// The key by which listings are ordered: the entry's name in lower case.
pub open spec fn name_key(e: Entry) -> Seq<char> {
    lowercase(e.name@)
}

/// Entries whose sort key is `k`.
pub open spec fn keyed(k: Seq<char>) -> spec_fn(Entry) -> bool {
    |e: Entry| name_key(e) == k
}

/// Every entry's key is no later than the keys of the entries after it.
pub open spec fn sorted_by_name(s: Seq<Entry>) -> bool {
    forall|i: int, j: int| 0 <= i < j < s.len() ==> chars_le(name_key(s[i]), name_key(s[j]))
}

/// `out` is `inp` sorted by lower-cased name with a stable sort: it is
/// ordered by key, and for every key it holds the entries of that key in
/// the order they had in `inp`.
pub open spec fn stable_sort_of(out: Seq<Entry>, inp: Seq<Entry>) -> bool {
    &&& out.len() == inp.len()
    &&& sorted_by_name(out)
    &&& forall|k: Seq<char>| #[trigger] out.filter(keyed(k)) == inp.filter(keyed(k))
}

/// The key of an entry, as characters.
fn key_of(e: &Entry) -> (k: Vec<char>)
    ensures
        k@ == name_key(*e),
{
    let lower = to_lowercase(e.name.as_str());
    chars_of(lower.as_str())
}

/// Inserting `e` right after the last entry whose key is not after `e`'s
/// keeps every key's run in arrival order.
proof fn lemma_insert_keeps_runs(out: Seq<Entry>, p: int, e: Entry, k: Seq<char>)
    requires
        0 <= p <= out.len(),
        forall|j: int| p <= j < out.len() ==> chars_before(name_key(e), #[trigger] name_key(out[j])),
    ensures
        out.insert(p, e).filter(keyed(k)) == if name_key(e) == k {
            out.filter(keyed(k)).push(e)
        } else {
            out.filter(keyed(k))
        },
{
    let pre = out.subrange(0, p);
    let post = out.subrange(p, out.len() as int);
    assert(out =~= pre + post);
    assert(out.insert(p, e) =~= pre.push(e) + post);
    Seq::filter_distributes_over_add(pre, post, keyed(k));
    Seq::filter_distributes_over_add(pre.push(e), post, keyed(k));
    pre.lemma_filter_push(e, keyed(k));
    if name_key(e) == k {
        assert forall|j: int| 0 <= j < post.len() implies !keyed(k)(post[j]) by {
            crate::text::lemma_before_irreflexive(k);
            assert(chars_before(name_key(e), name_key(out[p + j])));
        }
        post.lemma_all_neg_filter_empty(keyed(k));
        assert(post.filter(keyed(k)) =~= Seq::<Entry>::empty());
        assert(pre.filter(keyed(k)) + Seq::<Entry>::empty() =~= pre.filter(keyed(k)));
        assert(pre.filter(keyed(k)).push(e) + Seq::<Entry>::empty() =~= pre.filter(keyed(k)).push(
            e,
        ));
    }
}

/// Sorts entries by lower-cased name, keeping the arrival order of entries
/// whose names are equal once lowered (as `sort_by` does).
pub fn sort_by_name(items: &Vec<Entry>) -> (out: Vec<Entry>)
    ensures
        stable_sort_of(out@, items@),
{
    let mut out: Vec<Entry> = Vec::new();
    let mut keys: Vec<Vec<char>> = Vec::new();
    let n: usize = items.len();
    let mut i: usize = 0;
    while i < n
        invariant
            n == items.len(),
            i <= n,
            out.len() == i,
            keys.len() == out.len(),
            forall|j: int| 0 <= j < keys.len() ==> (#[trigger] keys@[j])@ == name_key(out@[j]),
            sorted_by_name(out@),
            forall|k: Seq<char>| #[trigger]
                out@.filter(keyed(k)) == items@.take(i as int).filter(keyed(k)),
        decreases n - i,
    {
        let e = items[i].clone();
        let k = key_of(&e);
        let mut p: usize = out.len();
        while p > 0 && chars_precede(&k, &keys[p - 1])
            invariant
                p <= out.len(),
                keys.len() == out.len(),
                forall|j: int| 0 <= j < keys.len() ==> (#[trigger] keys@[j])@ == name_key(out@[j]),
                forall|j: int| p <= j < out.len() ==> chars_before(k@, #[trigger] name_key(out@[j])),
            decreases p,
        {
            p = p - 1;
        }
        let ghost old_out = out@;
        proof {
            assert forall|j: int| p <= j < old_out.len() implies chars_before(
                name_key(e),
                #[trigger] name_key(old_out[j]),
            ) by {}
            assert forall|kk: Seq<char>| #[trigger]
                old_out.insert(p as int, e).filter(keyed(kk)) == items@.take(i + 1).filter(
                    keyed(kk),
                ) by {
                lemma_insert_keeps_runs(old_out, p as int, e, kk);
                assert(items@.take(i + 1) =~= items@.take(i as int).push(e));
                items@.take(i as int).lemma_filter_push(e, keyed(kk));
            }
            // the new entry sits between keys no later and keys strictly later
            assert forall|a: int, b: int|
                0 <= a < b < old_out.len() + 1 implies chars_le(
                name_key(#[trigger] old_out.insert(p as int, e)[a]),
                name_key(#[trigger] old_out.insert(p as int, e)[b]),
            ) by {
                let s = old_out.insert(p as int, e);
                if b < p {
                } else if a > p {
                } else if a == p {
                    crate::text::lemma_before_asymmetric(name_key(e), name_key(old_out[b - 1]));
                } else {
                    // a < p == b
                    if a < p - 1 {
                        crate::text::lemma_le_transitive(
                            name_key(old_out[a]),
                            name_key(old_out[p - 1]),
                            name_key(e),
                        );
                    }
                }
            }
        }
        out.insert(p, e);
        keys.insert(p, k);
        proof {
            assert(out@ == old_out.insert(p as int, e));
            assert forall|j: int| 0 <= j < keys.len() implies (#[trigger] keys@[j])@ == name_key(
                out@[j],
            ) by {}
        }
        i = i + 1;
    }
    assert(items@.take(n as int) =~= items@);
    out
}


/// A name the browser hides (dotfiles and dot-directories).
pub open spec fn is_hidden(name: Seq<char>) -> bool {
    name.len() > 0 && name[0] == '.'
}

/// A raw directory item that the browser lists as a directory.
pub open spec fn listed_dir() -> spec_fn(Entry) -> bool {
    |e: Entry| !is_hidden(e.name@) && e.is_dir
}

/// A raw directory item that the browser lists as a playable file.
pub open spec fn listed_file() -> spec_fn(Entry) -> bool {
    |e: Entry| !is_hidden(e.name@) && !e.is_dir && audio_path(e.path@)
}

/// The arrangement of a listing: directories first, then audio files, each
/// group stably sorted by lower-cased name; the split point is the number of
/// directories.
pub open spec fn arranged(out: Seq<Entry>, raw: Seq<Entry>) -> bool {
    let dirs = raw.filter(listed_dir());
    let files = raw.filter(listed_file());
    &&& out.len() == dirs.len() + files.len()
    &&& stable_sort_of(out.take(dirs.len() as int), dirs)
    &&& stable_sort_of(out.skip(dirs.len() as int), files)
}

fn starts_with_dot(name: &str) -> (r: bool)
    ensures
        r == is_hidden(name@),
{
    let cs = chars_of(name);
    cs.len() > 0 && cs[0] == '.'
}

/// Given the raw items of a directory (path, file name and whether the
/// path is a directory), returns the browser's listing: hidden names are
/// skipped, and of the rest the directories come first and then the audio
/// files, both alphabetically (case-insensitive); other files are skipped.
pub fn arrange_listing(raw: &Vec<Entry>) -> (out: Vec<Entry>)
    ensures
        arranged(out@, raw@),
{
    let mut dirs: Vec<Entry> = Vec::new();
    let mut files: Vec<Entry> = Vec::new();
    let n: usize = raw.len();
    let mut i: usize = 0;
    while i < n
        invariant
            n == raw.len(),
            i <= n,
            dirs@ == raw@.take(i as int).filter(listed_dir()),
            files@ == raw@.take(i as int).filter(listed_file()),
        decreases n - i,
    {
        let item = &raw[i];
        proof {
            assert(raw@.take(i + 1) =~= raw@.take(i as int).push(raw@[i as int]));
            raw@.take(i as int).lemma_filter_push(raw@[i as int], listed_dir());
            raw@.take(i as int).lemma_filter_push(raw@[i as int], listed_file());
        }
        if !starts_with_dot(item.name.as_str()) {
            if item.is_dir {
                dirs.push(item.clone());
            } else if is_audio_file(item.path.as_str()) {
                files.push(item.clone());
            }
        }
        i = i + 1;
    }
    assert(raw@.take(n as int) =~= raw@);
    let mut sorted_dirs = sort_by_name(&dirs);
    let mut sorted_files = sort_by_name(&files);
    let ghost d = sorted_dirs@;
    let ghost f = sorted_files@;
    sorted_dirs.append(&mut sorted_files);
    assert(sorted_dirs@.take(d.len() as int) =~= d);
    assert(sorted_dirs@.skip(d.len() as int) =~= f);
    sorted_dirs
}

/// Entries that are files rather than directories.
pub open spec fn is_file() -> spec_fn(Entry) -> bool {
    |e: Entry| !e.is_dir
}

/// Returns just the audio files (no directories) of a listing, in the
/// listing's order: the play queue built when a track is chosen.
pub fn audio_files_in(listing: &Vec<Entry>) -> (r: Vec<String>)
    ensures
        r@ == listing@.filter(is_file()).map_values(|e: Entry| e.path),
{
    let mut r: Vec<String> = Vec::new();
    let n: usize = listing.len();
    let mut i: usize = 0;
    while i < n
        invariant
            n == listing.len(),
            i <= n,
            r@ == listing@.take(i as int).filter(is_file()).map_values(|e: Entry| e.path),
        decreases n - i,
    {
        proof {
            assert(listing@.take(i + 1) =~= listing@.take(i as int).push(listing@[i as int]));
            listing@.take(i as int).lemma_filter_push(listing@[i as int], is_file());
        }
        if !listing[i].is_dir {
            r.push(listing[i].path.clone());
            assert(r@ =~= listing@.take(i + 1).filter(is_file()).map_values(|e: Entry| e.path));
        }
        i = i + 1;
    }
    assert(listing@.take(n as int) =~= listing@);
    r
}

} // verus!
