//! The album-art cache: rendered art is kept per (file, width, height), so
//! the cover is only extracted and rendered again when the track or the size
//! of the pane changes. A failed attempt is cached as well.

use vstd::prelude::*;
use crate::paths::{path_same, same_path};
use ansi_to_tui::IntoText;
use ratatui::text::Text;

verus! {

/// ratatui's styled text, held as an opaque value.
#[verifier::external_type_specification]
#[verifier::external_body]
pub struct ExText<'a>(Text<'a>);

/// Name for the styled text that ansi-to-tui's `into_text` parses out of a
/// string of ANSI output: a function of the string alone.
pub uninterp spec fn ansi_text(ansi: Seq<char>) -> Text<'static>;

/// Calls ansi-to-tui's `into_text` on the ANSI output of the renderer. Its
/// parser never fails (escape sequences it does not know are skipped), so
/// the text always comes back; the contract names it `ansi_text` of the
/// output and claims nothing of its lines and styles.
#[verifier::external_body]
fn ansi_to_text(ansi: &String) -> (r: Option<Text<'static>>)
    ensures
        r == Some(ansi_text(ansi@)),
{
    ansi.into_text().ok()
}

/// Calls the derived `Clone` of ratatui's `Text`, which copies it field by
/// field: the copy equals the original.
#[verifier::external_body]
fn clone_text(t: &Text<'static>) -> (r: Text<'static>)
    ensures
        r == *t,
{
    t.clone()
}

/// A copy of an optional text.
fn clone_art(a: &Option<Text<'static>>) -> (r: Option<Text<'static>>)
    ensures
        r == *a,
{
    match a {
        Some(t) => Some(clone_text(t)),
        None => None,
    }
}

/// One cached rendering.
pub struct ArtCacheItem {
    pub path: String,
    pub width: u16,
    pub height: u16,
    /// The rendered art, or `None` when there is none.
    pub art: Option<Text<'static>>,
}

/// Caches rendered album art per (file, width, height), files compared as
/// paths. `None` means "we tried and there's no art, or chafa isn't
/// available"; that is cached too, so it is not retried every frame.
pub struct ArtRenderer {
    cache: Vec<ArtCacheItem>,
    pub chafa_missing: bool,
}

/// The key under which a rendering is cached.
pub open spec fn art_key(item: ArtCacheItem) -> (Seq<char>, u16, u16) {
    (item.path@, item.width, item.height)
}

/// What a render request finds.
#[derive(Debug)]
pub enum ArtLookup {
    /// The answer is known: the cached art, or `None` for an empty pane.
    Ready(Option<Text<'static>>),
    /// Nothing is cached yet: the caller extracts the cover, runs the
    /// renderer, and hands the outcome to `finish_render`.
    Missing,
}


/// The pictures a tag holds, each as its encoded image bytes (jpeg/png).
pub type TagPictures = Vec<Vec<u8>>;

/// The tag a cover is taken from: the primary tag when the file has one,
/// else its first tag.
pub open spec fn cover_tag(primary: Option<TagPictures>, first: Option<TagPictures>) -> Option<TagPictures> {
    if primary is Some {
        primary
    } else {
        first
    }
}

/// The cover to render: the first picture (front cover, or whatever is
/// first) of the primary tag, or of the first tag when there is no primary
/// tag; nothing when that tag has no picture or there is no tag.
pub fn cover_from_tags(primary: Option<TagPictures>, first: Option<TagPictures>) -> (r: Option<Vec<u8>>)
    ensures
        r == match cover_tag(primary, first) {
            Some(pics) => if pics@.len() > 0 {
                Some(pics@[0])
            } else {
                None
            },
            None => None,
        },
{
    let tag = match primary {
        Some(p) => Some(p),
        None => first,
    };
    match tag {
        Some(mut pics) => {
            if pics.len() > 0 {
                Some(pics.remove(0))
            } else {
                None
            }
        },
        None => None,
    }
}

/// What extracting and rendering a cover gave.
#[derive(Debug)]
pub enum ArtOutcome {
    /// The track has no embedded picture (or could not be read).
    NoCover,
    /// The renderer produced this ANSI text.
    Rendered(String),
    /// The renderer could not be run or failed.
    RendererFailed,
}

/// The view of an `ArtOutcome`.
pub enum ArtOutcomeView {
    NoCover,
    Rendered(Seq<char>),
    RendererFailed,
}

impl View for ArtOutcome {
    type V = ArtOutcomeView;

    open spec fn view(&self) -> ArtOutcomeView {
        match self {
            ArtOutcome::NoCover => ArtOutcomeView::NoCover,
            ArtOutcome::Rendered(s) => ArtOutcomeView::Rendered(s@),
            ArtOutcome::RendererFailed => ArtOutcomeView::RendererFailed,
        }
    }
}

/// A cache key: the file, and the width and height of the area.
pub type ArtKey = (Seq<char>, u16, u16);

/// The abstract state of the cache: its entries in the order their keys
/// were first stored, each a key and the art kept for it.
pub struct ArtState {
    pub entries: Seq<(ArtKey, Option<Text<'static>>)>,
    pub chafa_missing: bool,
}

/// The art a render outcome yields: the styled text parsed out of rendered
/// output, and nothing when there was no cover or the renderer failed.
pub open spec fn outcome_art(outcome: ArtOutcomeView) -> Option<Text<'static>> {
    match outcome {
        ArtOutcomeView::Rendered(s) => Some(ansi_text(s)),
        _ => None,
    }
}

/// A stored key answers a request for `key`: the same size, and a file
/// that is the same path.
pub open spec fn key_answers(stored: ArtKey, key: ArtKey) -> bool {
    stored.1 == key.1 && stored.2 == key.2 && path_same(key.0, stored.0)
}

/// Entry `i` is the first that answers a request for `key`.
pub open spec fn answers_first(entries: Seq<(ArtKey, Option<Text<'static>>)>, key: ArtKey, i: int) -> bool {
    &&& 0 <= i < entries.len()
    &&& key_answers(entries[i].0, key)
    &&& forall|j: int| 0 <= j < i ==> !key_answers(#[trigger] entries[j].0, key)
}

/// The entry that answers a request for `key`, if any: the first that does.
pub open spec fn first_answer(entries: Seq<(ArtKey, Option<Text<'static>>)>, key: ArtKey) -> Option<int> {
    if exists|i: int| answers_first(entries, key, i) {
        Some(choose|i: int| answers_first(entries, key, i))
    } else {
        None
    }
}

/// The first answering entry is unique.
pub proof fn lemma_first_answer(entries: Seq<(ArtKey, Option<Text<'static>>)>, key: ArtKey, i: int)
    requires
        answers_first(entries, key, i),
    ensures
        first_answer(entries, key) == Some(i),
{
    let c = choose|c: int| answers_first(entries, key, c);
    if c < i {
        assert(!key_answers(entries[c].0, key));
    } else if c > i {
        assert(!key_answers(entries[i].0, key));
    }
}

/// A request for `q` finds an entry holding `art`.
pub open spec fn answered_with(entries: Seq<(ArtKey, Option<Text<'static>>)>, q: ArtKey, art: Option<Text<'static>>) -> bool {
    match first_answer(entries, q) {
        Some(i) => entries[i].1 == art,
        None => false,
    }
}

/// A request for `q` finds the same entry in `f` as in `e`.
pub open spec fn answered_alike(
    f: Seq<(ArtKey, Option<Text<'static>>)>,
    e: Seq<(ArtKey, Option<Text<'static>>)>,
    q: ArtKey,
) -> bool {
    &&& first_answer(f, q) == first_answer(e, q)
    &&& match first_answer(f, q) {
        Some(i) => f[i] == e[i],
        None => true,
    }
}

/// When some entry answers a request, a first one does.
pub proof fn lemma_some_answer(entries: Seq<(ArtKey, Option<Text<'static>>)>, key: ArtKey, n: int)
    requires
        0 <= n < entries.len(),
        key_answers(entries[n].0, key),
    ensures
        exists|i: int| answers_first(entries, key, i),
    decreases n,
{
    if exists|j: int| 0 <= j < n && key_answers(entries[j].0, key) {
        let j = choose|j: int| 0 <= j < n && key_answers(entries[j].0, key);
        lemma_some_answer(entries, key, j);
    } else {
        assert(answers_first(entries, key, n));
    }
}

/// Recording art for one key changes what a request answers only for the
/// requests that the written entry answers, and those now get the new art.
pub proof fn lemma_finish_answers(
    a: ArtState,
    path: Seq<char>,
    width: u16,
    height: u16,
    outcome: ArtOutcomeView,
    art: Option<Text<'static>>,
    q: ArtKey,
)
    ensures
        ({
            let f = a.finish(path, width, height, outcome, art).entries;
            let k = (path, width, height);
            &&& q == k ==> answered_with(f, q, art)
            &&& (q.1, q.2) != (width, height) ==> answered_alike(f, a.entries, q)
            &&& answered_alike(f, a.entries, q) || answered_with(f, q, art)
        }),
{
    let e = a.entries;
    let k = (path, width, height);
    let f = a.finish(path, width, height, outcome, art).entries;
    match first_answer(e, k) {
        Some(i) => {
            assert(answers_first(e, k, i));
            assert(f == e.update(i, (e[i].0, art)));
            assert forall|j: int| answers_first(f, q, j) == answers_first(e, q, j) by {
                assert forall|m: int| 0 <= m < f.len() implies f[m].0 == e[m].0 by {}
            }
            if exists|j: int| answers_first(e, q, j) {
                let j = choose|j: int| answers_first(e, q, j);
                lemma_first_answer(e, q, j);
                lemma_first_answer(f, q, j);
            } else {
                assert(forall|j: int| !answers_first(f, q, j));
            }
            if q == k {
                lemma_first_answer(f, q, i);
            }
        },
        None => {
            assert(f == e.push((k, art)));
            if exists|j: int| answers_first(e, q, j) {
                let j = choose|j: int| answers_first(e, q, j);
                lemma_first_answer(e, q, j);
                assert(answers_first(f, q, j));
                lemma_first_answer(f, q, j);
            } else {
                assert forall|j: int| 0 <= j < e.len() implies !key_answers(#[trigger] e[j].0, q) by {
                    if key_answers(e[j].0, q) {
                        lemma_some_answer(e, q, j);
                    }
                }
                if key_answers(k, q) {
                    assert(answers_first(f, q, e.len() as int));
                    lemma_first_answer(f, q, e.len() as int);
                } else {
                    assert forall|j: int| !answers_first(f, q, j) by {
                        if answers_first(f, q, j) && j < e.len() {
                            assert(f[j] == e[j]);
                        }
                    }
                }
            }
            if q == k {
                assert(key_answers(k, k));
            }
        },
    }
}

impl ArtState {
    /// What a render request for `path` at `width` x `height` answers.
    pub open spec fn lookup(self, path: Seq<char>, width: u16, height: u16) -> ArtLookup {
        if width == 0 || height == 0 {
            ArtLookup::Ready(None)
        } else {
            match first_answer(self.entries, (path, width, height)) {
                Some(i) => ArtLookup::Ready(self.entries[i].1),
                None => ArtLookup::Missing,
            }
        }
    }

    /// The cache after `art`, made from a render outcome, is recorded for
    /// `path` at `width` x `height`: in the entry that answers that key,
    /// which keeps its key, or else in a new entry; a failed renderer is
    /// remembered.
    pub open spec fn finish(
        self,
        path: Seq<char>,
        width: u16,
        height: u16,
        outcome: ArtOutcomeView,
        art: Option<Text<'static>>,
    ) -> ArtState {
        ArtState {
            entries: match first_answer(self.entries, (path, width, height)) {
                Some(i) => self.entries.update(i, (self.entries[i].0, art)),
                None => self.entries.push(((path, width, height), art)),
            },
            chafa_missing: self.chafa_missing || outcome is RendererFailed,
        }
    }
}

/// The key and art of a cached item.
pub open spec fn item_entry(item: ArtCacheItem) -> (ArtKey, Option<Text<'static>>) {
    (art_key(item), item.art)
}

impl View for ArtRenderer {
    type V = ArtState;

    closed spec fn view(&self) -> ArtState {
        ArtState { entries: self.cache@.map_values(|item: ArtCacheItem| item_entry(item)), chafa_missing: self.chafa_missing }
    }
}

impl ArtRenderer {
    /// An empty cache.
    pub fn new() -> (r: ArtRenderer)
        ensures
            r@.entries.len() == 0,
            !r@.chafa_missing,
    {
        ArtRenderer { cache: Vec::new(), chafa_missing: false }
    }

    /// Whether the renderer was found missing or failing.
    pub fn renderer_missing(&self) -> (r: bool)
        ensures
            r == self@.chafa_missing,
    {
        self.chafa_missing
    }

    /// Looks up the art for `path` sized to fit a `width` x `height`
    /// character cell area: nothing for an empty area, the cached result
    /// when there is one, and otherwise `Missing`.
    pub fn render(&self, path: &str, width: u16, height: u16) -> (r: ArtLookup)
        ensures
            r == self@.lookup(path@, width, height),
    {
        if width == 0 || height == 0 {
            return ArtLookup::Ready(None);
        }
        match self.position_of(path, width, height) {
            Some(i) => {
                proof {
                    lemma_first_answer(self@.entries, (path@, width, height), i as int);
                }
                let item = &self.cache[i];
                ArtLookup::Ready(clone_art(&item.art))
            },
            None => ArtLookup::Missing,
        }
    }

    /// Records what extracting and rendering the cover of `path` gave and
    /// returns the art to show: the rendered output turned into styled
    /// text, or `None` when the track has no cover or the renderer failed
    /// (then `chafa_missing` is set).
    pub fn finish_render(&mut self, path: &str, width: u16, height: u16, outcome: ArtOutcome) -> (r:
        Option<Text<'static>>)
        ensures
            r == outcome_art(outcome@),
            final(self)@ == old(self)@.finish(path@, width, height, outcome@, r),
    {
        let failed = match &outcome {
            ArtOutcome::RendererFailed => true,
            _ => false,
        };
        let art = match &outcome {
            ArtOutcome::Rendered(s) => ansi_to_text(s),
            _ => None,
        };
        if failed {
            self.chafa_missing = true;
        }
        let copy = clone_art(&art);
        let ghost before = self@.entries;
        let ghost k = (path@, width, height);
        match self.position_of(path, width, height) {
            Some(i) => {
                proof {
                    lemma_first_answer(before, k, i as int);
                }
                let stored = self.cache[i].path.clone();
                let item = ArtCacheItem { path: stored, width, height, art: copy };
                self.cache.set(i, item);
                assert(self@.entries =~= before.update(i as int, (before[i as int].0, art)));
            },
            None => {
                proof {
                    assert forall|j: int| #![auto] 0 <= j < before.len() implies !answers_first(before, k, j) by {}
                }
                let key_path = String::from_str(path);
                self.cache.push(ArtCacheItem { path: key_path, width, height, art: copy });
                assert(self@.entries =~= before.push((k, art)));
            },
        }
        art
    }

    /// The first cached item that answers `path` at `width` x `height`, if any.
    fn position_of(&self, path: &str, width: u16, height: u16) -> (r: Option<usize>)
        ensures
            match r {
                Some(i) => answers_first(self@.entries, (path@, width, height), i as int),
                None => forall|i: int| 0 <= i < self@.entries.len() ==> !key_answers(#[trigger] self@.entries[i].0, (path@, width, height)),
            },
    {
        let n: usize = self.cache.len();
        let mut i: usize = 0;
        while i < n
            invariant
                n == self.cache@.len(),
                i <= n,
                forall|j: int| 0 <= j < i ==> !key_answers(#[trigger] self@.entries[j].0, (path@, width, height)),
            decreases n - i,
        {
            let item = &self.cache[i];
            if item.width == width && item.height == height && same_path(path, item.path.as_str()) {
                return Some(i);
            }
            i = i + 1;
        }
        None
    }
}

} // verus!
