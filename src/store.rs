//! The set of open documents: each URI maps to the full current text.
use vstd::prelude::*;

verus! {

/// Every open document's text, keyed by URI. Each write replaces a whole text.
pub struct DocumentStore {
    entries: Vec<(String, String)>,
    model: Ghost<Map<Seq<char>, Seq<char>>>,
}

impl View for DocumentStore {
    type V = Map<Seq<char>, Seq<char>>;

    closed spec fn view(&self) -> Map<Seq<char>, Seq<char>> {
        self.model@
    }
}

impl DocumentStore {
    /// One entry per URI, and the entries are exactly the model.
    pub closed spec fn wf(&self) -> bool {
        &&& forall|i: int, j: int|
            0 <= i < self.entries.len() && 0 <= j < self.entries.len() && i != j
                ==> #[trigger] self.entries@[i].0@ != #[trigger] self.entries@[j].0@
        &&& forall|i: int|
            0 <= i < self.entries.len() ==> self.model@.contains_key(#[trigger] self.entries@[i].0@)
                && self.model@[self.entries@[i].0@] == self.entries@[i].1@
        &&& forall|k: Seq<char>|
            #[trigger] self.model@.contains_key(k) ==> exists|i: int|
                0 <= i < self.entries.len() && #[trigger] self.entries@[i].0@ == k
    }

    /// An empty store.
    pub fn new() -> (r: Self)
        ensures
            r.wf(),
            r@ == Map::<Seq<char>, Seq<char>>::empty(),
    {
        DocumentStore { entries: Vec::new(), model: Ghost(Map::empty()) }
    }

    fn find(&self, uri: &String) -> (r: Option<usize>)
        requires
            self.wf(),
        ensures
            match r {
                Some(i) => i < self.entries.len() && self.entries@[i as int].0@ == uri@,
                None => !self@.contains_key(uri@),
            },
    {
        let mut i: usize = 0;
        while i < self.entries.len()
            invariant
                self.wf(),
                i <= self.entries.len(),
                forall|j: int| 0 <= j < i ==> #[trigger] self.entries@[j].0@ != uri@,
            decreases self.entries.len() - i,
        {
            if self.entries[i].0 == *uri {
                return Some(i);
            }
            i = i + 1;
        }
        None
    }

    /// Stores `text` as the document at `uri`, replacing any text it had.
    pub fn open(&mut self, uri: String, text: String)
        requires
            old(self).wf(),
        ensures
            final(self).wf(),
            final(self)@ == old(self)@.insert(uri@, text@),
    {
        let ghost k = uri@;
        let ghost v = text@;
        match self.find(&uri) {
            Some(i) => {
                self.entries.set(i, (uri, text));
                self.model = Ghost(self.model@.insert(k, v));
                assert forall|k2: Seq<char>| #[trigger] self.model@.contains_key(k2) implies exists|
                    j: int,
                | 0 <= j < self.entries.len() && #[trigger] self.entries@[j].0@ == k2 by {
                    if k2 == k {
                        assert(self.entries@[i as int].0@ == k2);
                    } else {
                        assert(old(self).model@.contains_key(k2));
                        let j = choose|j: int|
                            0 <= j < old(self).entries.len() && #[trigger] old(self).entries@[j].0@
                                == k2;
                        assert(self.entries@[j].0@ == k2);
                    }
                }
            },
            None => {
                self.entries.push((uri, text));
                self.model = Ghost(self.model@.insert(k, v));
                let ghost n = self.entries.len() - 1;
                assert forall|k2: Seq<char>| #[trigger] self.model@.contains_key(k2) implies exists|
                    j: int,
                | 0 <= j < self.entries.len() && #[trigger] self.entries@[j].0@ == k2 by {
                    if k2 == k {
                        assert(self.entries@[n].0@ == k2);
                    } else {
                        assert(old(self).model@.contains_key(k2));
                        let j = choose|j: int|
                            0 <= j < old(self).entries.len() && #[trigger] old(self).entries@[j].0@
                                == k2;
                        assert(self.entries@[j].0@ == k2);
                    }
                }
            },
        }
    }

    /// Applies a change notification: the first reported text replaces the
    /// document's text, whether or not it was open; later ones are ignored,
    /// and a notification without any leaves the store as it was.
    pub fn change(&mut self, uri: String, changes: Vec<String>)
        requires
            old(self).wf(),
        ensures
            final(self).wf(),
            changes.len() == 0 ==> final(self)@ == old(self)@,
            changes.len() > 0 ==> final(self)@ == old(self)@.insert(uri@, changes@[0]@),
    {
        if changes.len() > 0 {
            let text = changes[0].clone();
            self.open(uri, text);
        }
    }

    /// Forgets the document at `uri`; a URI that is not open is left alone.
    pub fn close(&mut self, uri: &String)
        requires
            old(self).wf(),
        ensures
            final(self).wf(),
            final(self)@ == old(self)@.remove(uri@),
    {
        match self.find(uri) {
            Some(i) => {
                let ghost k = uri@;
                let ghost old_entries = self.entries@;
                self.entries.remove(i);
                self.model = Ghost(self.model@.remove(k));
                assert forall|i2: int|
                    0 <= i2 < self.entries.len() implies self.model@.contains_key(
                    #[trigger] self.entries@[i2].0@,
                ) && self.model@[self.entries@[i2].0@] == self.entries@[i2].1@ by {
                    if i2 < i {
                        assert(self.entries@[i2] == old_entries[i2]);
                    } else {
                        assert(self.entries@[i2] == old_entries[i2 + 1]);
                    }
                }
                assert forall|k2: Seq<char>| #[trigger] self.model@.contains_key(k2) implies exists|
                    j: int,
                | 0 <= j < self.entries.len() && #[trigger] self.entries@[j].0@ == k2 by {
                    let j = choose|j: int|
                        0 <= j < old_entries.len() && #[trigger] old_entries[j].0@ == k2;
                    if j < i {
                        assert(self.entries@[j].0@ == k2);
                    } else {
                        assert(self.entries@[j - 1].0@ == k2);
                    }
                }
            },
            None => {
                assert(self.model@.remove(uri@) =~= self.model@);
            },
        }
    }

    /// The current text of the document at `uri`, or `None` where it is not open.
    pub fn read(&self, uri: &String) -> (r: Option<String>)
        requires
            self.wf(),
        ensures
            match r {
                Some(t) => self@.contains_key(uri@) && t@ == self@[uri@],
                None => !self@.contains_key(uri@),
            },
    {
        match self.find(uri) {
            Some(i) => Some(self.entries[i].1.clone()),
            None => None,
        }
    }
}

/// A write or a close, as the store receives it.
pub enum StoreEvent {
    Write { uri: Seq<char>, text: Seq<char> },
    Close { uri: Seq<char> },
}

/// The URI that an event is about.
pub open spec fn event_uri(e: StoreEvent) -> Seq<char> {
    match e {
        StoreEvent::Write { uri, .. } => uri,
        StoreEvent::Close { uri } => uri,
    }
}

/// The store's contents after the events `evs`, in order, starting from `m`:
/// `open` and `change` write, `close` removes.
pub open spec fn replay(m: Map<Seq<char>, Seq<char>>, evs: Seq<StoreEvent>) -> Map<
    Seq<char>,
    Seq<char>,
>
    decreases evs.len(),
{
    if evs.len() == 0 {
        m
    } else {
        let prev = replay(m, evs.drop_last());
        match evs.last() {
            StoreEvent::Write { uri, text } => prev.insert(uri, text),
            StoreEvent::Close { uri } => prev.remove(uri),
        }
    }
}

/// Reading a URI gives the text of the last write to it, as long as no
/// close of that URI came after the write.
pub proof fn lemma_last_write_wins(
    m: Map<Seq<char>, Seq<char>>,
    evs: Seq<StoreEvent>,
    i: int,
    uri: Seq<char>,
    text: Seq<char>,
)
    requires
        0 <= i < evs.len(),
        evs[i] == (StoreEvent::Write { uri, text }),
        forall|j: int| i < j < evs.len() ==> event_uri(#[trigger] evs[j]) != uri,
    ensures
        replay(m, evs).contains_key(uri),
        replay(m, evs)[uri] == text,
    decreases evs.len(),
{
    if i < evs.len() - 1 {
        let front = evs.drop_last();
        assert forall|j: int| i < j < front.len() implies event_uri(#[trigger] front[j]) != uri by {
            assert(front[j] == evs[j]);
        }
        lemma_last_write_wins(m, front, i, uri, text);
        assert(event_uri(evs[evs.len() - 1]) != uri);
    } else {
        assert(evs.last() == evs[i]);
    }
}

/// After a close of a URI, and until the next write to it, the URI reads as
/// not open.
pub proof fn lemma_closed_reads_nothing(
    m: Map<Seq<char>, Seq<char>>,
    evs: Seq<StoreEvent>,
    i: int,
    uri: Seq<char>,
)
    requires
        0 <= i < evs.len(),
        evs[i] == (StoreEvent::Close { uri }),
        forall|j: int| i < j < evs.len() ==> event_uri(#[trigger] evs[j]) != uri,
    ensures
        !replay(m, evs).contains_key(uri),
    decreases evs.len(),
{
    if i < evs.len() - 1 {
        let front = evs.drop_last();
        assert forall|j: int| i < j < front.len() implies event_uri(#[trigger] front[j]) != uri by {
            assert(front[j] == evs[j]);
        }
        lemma_closed_reads_nothing(m, front, i, uri);
        assert(event_uri(evs[evs.len() - 1]) != uri);
    } else {
        assert(evs.last() == evs[i]);
    }
}

} // verus!
