//! The conversation store: the library's model of stable storage for
//! conversation envelopes, keyed by file name. Saving merges-on-write: the
//! caller supplies only the transcript, and archival flags and the display
//! name are carried forward from any envelope already stored under the same
//! path. The shell mirrors this value to and from disk.

use vstd::prelude::*;

use crate::models::EnvelopeView;
use crate::models::Message;
use crate::models::MessageView;
use crate::models::SavedConversation;
use crate::strutil::stem_of;

verus! {

/// The map a sequence of path/envelope entries stands for; a later entry for
/// the same path wins.
pub open spec fn assoc_map(entries: Seq<(String, SavedConversation)>) -> Map<
    Seq<char>,
    EnvelopeView,
>
    decreases entries.len(),
{
    if entries.len() == 0 {
        Map::<Seq<char>, EnvelopeView>::empty()
    } else {
        assoc_map(entries.drop_last()).insert(entries.last().0@, entries.last().1@)
    }
}

/// Whether the entries carry pairwise-distinct paths.
pub open spec fn distinct_keys(entries: Seq<(String, SavedConversation)>) -> bool {
    forall|i: int, j: int| 0 <= i < j < entries.len() ==> entries[i].0@ != entries[j].0@
}

/// A path is in the map exactly when some entry carries it.
proof fn lemma_assoc_map_domain(entries: Seq<(String, SavedConversation)>, k: Seq<char>)
    ensures
        assoc_map(entries).contains_key(k) <==> exists|i: int|
            0 <= i < entries.len() && entries[i].0@ == k,
    decreases entries.len(),
{
    if entries.len() > 0 {
        lemma_assoc_map_domain(entries.drop_last(), k);
        if assoc_map(entries).contains_key(k) {
            if entries.last().0@ != k {
                let i = choose|i: int|
                    0 <= i < entries.drop_last().len() && entries.drop_last()[i].0@ == k;
                assert(entries[i].0@ == k);
            }
        }
        if exists|i: int| 0 <= i < entries.len() && entries[i].0@ == k {
            let i = choose|i: int| 0 <= i < entries.len() && entries[i].0@ == k;
            if i < entries.len() - 1 {
                assert(entries.drop_last()[i].0@ == k);
            }
        }
    }
}

/// Under distinct paths, the map sends an entry's path to that entry's
/// envelope.
proof fn lemma_assoc_map_lookup(entries: Seq<(String, SavedConversation)>, i: int)
    requires
        distinct_keys(entries),
        0 <= i < entries.len(),
    ensures
        assoc_map(entries).contains_key(entries[i].0@),
        assoc_map(entries)[entries[i].0@] == entries[i].1@,
    decreases entries.len(),
{
    if i == entries.len() - 1 {
    } else {
        lemma_assoc_map_lookup(entries.drop_last(), i);
        assert(entries.drop_last()[i] == entries[i]);
    }
}

/// Replacing the envelope stored at one entry inserts over its path.
proof fn lemma_assoc_map_update(
    entries: Seq<(String, SavedConversation)>,
    i: int,
    v: (String, SavedConversation),
)
    requires
        distinct_keys(entries),
        0 <= i < entries.len(),
        v.0@ == entries[i].0@,
    ensures
        assoc_map(entries.update(i, v)) =~= assoc_map(entries).insert(v.0@, v.1@),
    decreases entries.len(),
{
    let updated = entries.update(i, v);
    if i == entries.len() - 1 {
        assert(updated.drop_last() =~= entries.drop_last());
    } else {
        assert(updated.drop_last() =~= entries.drop_last().update(i, v));
        assert(entries.drop_last()[i] == entries[i]);
        lemma_assoc_map_update(entries.drop_last(), i, v);
        assert(updated.last() == entries.last());
    }
}

/// Removing an entry removes its path from the map, when paths are distinct.
proof fn lemma_assoc_map_remove(entries: Seq<(String, SavedConversation)>, i: int)
    requires
        distinct_keys(entries),
        0 <= i < entries.len(),
    ensures
        assoc_map(entries.remove(i)) =~= assoc_map(entries).remove(entries[i].0@),
    decreases entries.len(),
{
    let shrunk = entries.remove(i);
    if i == entries.len() - 1 {
        assert(shrunk =~= entries.drop_last());
        lemma_assoc_map_domain(entries.drop_last(), entries[i].0@);
    } else {
        assert(shrunk.drop_last() =~= entries.drop_last().remove(i));
        assert(entries.drop_last()[i] == entries[i]);
        lemma_assoc_map_remove(entries.drop_last(), i);
        assert(shrunk.last() == entries.last());
    }
}

/// The stored envelope that a save of `transcript` under `path` produces:
/// the transcript is the caller's; the flags and display name come from the
/// envelope already stored under `path`, if any, and otherwise default to
/// unarchived, unstarred, and the path's file stem.
pub open spec fn merged_envelope(
    m: Map<Seq<char>, EnvelopeView>,
    path: Seq<char>,
    transcript: Seq<MessageView>,
) -> EnvelopeView {
    if m.contains_key(path) {
        EnvelopeView {
            conversation: transcript,
            archived: m[path].archived,
            starred: m[path].starred,
            name: m[path].name,
        }
    } else {
        EnvelopeView { conversation: transcript, archived: false, starred: false, name: stem_of(path) }
    }
}

/// What persisting an adapter's history does to the store: nothing for an
/// empty history (a logged no-op, not an error), and a merge-on-write save
/// otherwise.
pub open spec fn export_effect(
    m: Map<Seq<char>, EnvelopeView>,
    path: Seq<char>,
    hist: Seq<MessageView>,
) -> Map<Seq<char>, EnvelopeView> {
    if hist.len() == 0 {
        m
    } else {
        m.insert(path, merged_envelope(m, path, hist))
    }
}

/// In-memory image of the conversation folder.
pub struct ConversationStore {
    entries: Vec<(String, SavedConversation)>,
}

impl View for ConversationStore {
    type V = Map<Seq<char>, EnvelopeView>;

    closed spec fn view(&self) -> Map<Seq<char>, EnvelopeView> {
        assoc_map(self.entries@)
    }
}

impl ConversationStore {
    /// Well-formedness: no path is stored twice.
    pub closed spec fn wf(&self) -> bool {
        distinct_keys(self.entries@)
    }

    /// An empty store.
    pub fn new() -> (r: Self)
        ensures
            r.wf(),
            r@ == Map::<Seq<char>, EnvelopeView>::empty(),
    {
        let r = ConversationStore { entries: Vec::new() };
        proof {
            assert(r@ =~= Map::<Seq<char>, EnvelopeView>::empty());
        }
        r
    }

    /// Index of the entry stored under `path`, if any.
    fn find_index(&self, path: &str) -> (r: Option<usize>)
        ensures
            match r {
                Some(i) => i < self.entries@.len() && self.entries@[i as int].0@ == path@,
                None => forall|k: int|
                    0 <= k < self.entries@.len() ==> self.entries@[k].0@ != path@,
            },
    {
        let mut i: usize = 0;
        while i < self.entries.len()
            invariant
                0 <= i <= self.entries@.len(),
                forall|k: int| 0 <= k < i ==> self.entries@[k].0@ != path@,
            decreases self.entries@.len() - i,
        {
            if crate::strutil::str_eq(self.entries[i].0.as_str(), path) {
                return Some(i);
            }
            i = i + 1;
        }
        None
    }

    /// The envelope stored under `path`; nothing (not an error) when the path
    /// holds no conversation.
    pub fn load(&self, path: &str) -> (r: Option<SavedConversation>)
        requires
            self.wf(),
        ensures
            match r {
                Some(envelope) => self@.contains_key(path@) && envelope@ == self@[path@],
                None => !self@.contains_key(path@),
            },
    {
        proof {
            lemma_assoc_map_domain(self.entries@, path@);
        }
        match self.find_index(path) {
            Some(i) => {
                proof {
                    lemma_assoc_map_lookup(self.entries@, i as int);
                }
                Some(self.entries[i].1.clone())
            },
            None => None,
        }
    }

    /// Stores `transcript` under `path`, merging on write: flags and display
    /// name of a previously stored envelope survive; a fresh path gets the
    /// defaults.
    pub fn save(&mut self, transcript: &Vec<Message>, path: &str)
        requires
            old(self).wf(),
        ensures
            final(self).wf(),
            final(self)@ == old(self)@.insert(
                path@,
                merged_envelope(old(self)@, path@, transcript.deep_view()),
            ),
    {
        proof {
            lemma_assoc_map_domain(self.entries@, path@);
        }
        let conversation = transcript.clone();
        proof {
            assert(conversation.deep_view() =~= transcript.deep_view());
        }
        match self.find_index(path) {
            Some(i) => {
                proof {
                    lemma_assoc_map_lookup(self.entries@, i as int);
                }
                let key = self.entries[i].0.clone();
                let merged = SavedConversation {
                    conversation,
                    archived: self.entries[i].1.archived,
                    starred: self.entries[i].1.starred,
                    name: self.entries[i].1.name.clone(),
                };
                proof {
                    lemma_assoc_map_update(self.entries@, i as int, (key, merged));
                }
                self.entries.set(i, (key, merged));
            },
            None => {
                let fresh = SavedConversation {
                    conversation,
                    archived: false,
                    starred: false,
                    name: crate::strutil::file_stem(path),
                };
                self.entries.push((String::from_str(path), fresh));
                proof {
                    assert(self.entries@.drop_last() =~= old(self).entries@);
                }
            },
        }
    }

    /// Overwrites the archival flags of the envelope stored under `path`;
    /// reports whether one was there.
    pub fn set_flags(&mut self, path: &str, archived: bool, starred: bool) -> (r: bool)
        requires
            old(self).wf(),
        ensures
            final(self).wf(),
            r == old(self)@.contains_key(path@),
            r ==> final(self)@ == old(self)@.insert(
                path@,
                EnvelopeView {
                    conversation: old(self)@[path@].conversation,
                    archived,
                    starred,
                    name: old(self)@[path@].name,
                },
            ),
            !r ==> final(self)@ == old(self)@,
    {
        proof {
            lemma_assoc_map_domain(self.entries@, path@);
        }
        match self.find_index(path) {
            Some(i) => {
                proof {
                    lemma_assoc_map_lookup(self.entries@, i as int);
                }
                let key = self.entries[i].0.clone();
                let updated = SavedConversation {
                    conversation: self.entries[i].1.conversation.clone(),
                    archived,
                    starred,
                    name: self.entries[i].1.name.clone(),
                };
                proof {
                    assert(updated.conversation.deep_view() =~= self.entries@[i as int]
                        .1
                        .conversation
                        .deep_view());
                    lemma_assoc_map_update(self.entries@, i as int, (key, updated));
                }
                self.entries.set(i, (key, updated));
                true
            },
            None => false,
        }
    }

    /// Renames the envelope stored under `path`; reports whether one was
    /// there.
    pub fn set_name(&mut self, path: &str, new_name: String) -> (r: bool)
        requires
            old(self).wf(),
        ensures
            final(self).wf(),
            r == old(self)@.contains_key(path@),
            r ==> final(self)@ == old(self)@.insert(
                path@,
                EnvelopeView {
                    conversation: old(self)@[path@].conversation,
                    archived: old(self)@[path@].archived,
                    starred: old(self)@[path@].starred,
                    name: new_name@,
                },
            ),
            !r ==> final(self)@ == old(self)@,
    {
        proof {
            lemma_assoc_map_domain(self.entries@, path@);
        }
        match self.find_index(path) {
            Some(i) => {
                proof {
                    lemma_assoc_map_lookup(self.entries@, i as int);
                }
                let key = self.entries[i].0.clone();
                let updated = SavedConversation {
                    conversation: self.entries[i].1.conversation.clone(),
                    archived: self.entries[i].1.archived,
                    starred: self.entries[i].1.starred,
                    name: new_name,
                };
                proof {
                    assert(updated.conversation.deep_view() =~= self.entries@[i as int]
                        .1
                        .conversation
                        .deep_view());
                    lemma_assoc_map_update(self.entries@, i as int, (key, updated));
                }
                self.entries.set(i, (key, updated));
                true
            },
            None => false,
        }
    }

    /// Deletes the conversation stored under `path`; reports whether one was
    /// there.
    pub fn remove_conversation(&mut self, path: &str) -> (r: bool)
        requires
            old(self).wf(),
        ensures
            final(self).wf(),
            r == old(self)@.contains_key(path@),
            final(self)@ == old(self)@.remove(path@),
    {
        proof {
            lemma_assoc_map_domain(self.entries@, path@);
        }
        match self.find_index(path) {
            Some(i) => {
                proof {
                    lemma_assoc_map_remove(self.entries@, i as int);
                }
                let _ = self.entries.remove(i);
                true
            },
            None => {
                proof {
                    assert(self@ =~= self@.remove(path@));
                }
                false
            },
        }
    }
}

/// The store's round-trip law: loading a path right after saving a
/// transcript under it yields that transcript, wrapped in an envelope whose
/// flags and display name are those of the envelope previously stored under
/// the path when there was one, and the defaults otherwise.
pub proof fn lemma_save_then_load(
    m: Map<Seq<char>, EnvelopeView>,
    path: Seq<char>,
    transcript: Seq<MessageView>,
)
    ensures
        ({
            let saved = m.insert(path, merged_envelope(m, path, transcript));
            &&& saved.contains_key(path)
            &&& saved[path].conversation == transcript
            &&& m.contains_key(path) ==> saved[path].archived == m[path].archived
                && saved[path].starred == m[path].starred && saved[path].name == m[path].name
            &&& !m.contains_key(path) ==> saved[path].archived == false && saved[path].starred
                == false && saved[path].name == stem_of(path)
        }),
{
}

} // verus!
