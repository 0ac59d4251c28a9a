//! Drag-and-drop payloads: data keyed by MIME type.
use vstd::prelude::*;

verus! {

/// Plain text.
pub const TEXT_PLAIN: &'static str = "text/plain";
/// A list of URIs.
pub const TEXT_URI_LIST: &'static str = "text/uri-list";
/// HTML.
pub const TEXT_HTML: &'static str = "text/html";
/// JSON.
pub const APPLICATION_JSON: &'static str = "application/json";
/// A PNG image.
pub const IMAGE_PNG: &'static str = "image/png";
/// A JPEG image.
pub const IMAGE_JPEG: &'static str = "image/jpeg";

/// The data stored under `key` among `entries`, if any.
pub open spec fn lookup(entries: Seq<(Seq<char>, Seq<char>)>, key: Seq<char>) -> Option<Seq<char>> {
    if exists|i: int| 0 <= i < entries.len() && (#[trigger] entries[i]).0 == key {
        Some(entries[choose|i: int| 0 <= i < entries.len() && (#[trigger] entries[i]).0 == key].1)
    } else {
        None
    }
}

/// No key occurs twice.
pub open spec fn keys_unique(entries: Seq<(Seq<char>, Seq<char>)>) -> bool {
    forall|i: int, j: int| 0 <= i < j < entries.len() ==> (#[trigger] entries[i]).0 != (#[trigger] entries[j]).0
}

/// Data keyed by MIME type, in the order the types were first inserted.
#[derive(Debug, Clone)]
pub struct Payload {
    data: Vec<(String, String)>,
}

impl Payload {
    /// The (type, data) pairs, in insertion order.
    pub closed spec fn view(&self) -> Seq<(Seq<char>, Seq<char>)> {
        Seq::new(self.data.len() as nat, |i: int| (self.data@[i].0@, self.data@[i].1@))
    }

    /// Each type occurs once.
    pub open spec fn wf(&self) -> bool {
        keys_unique(self.view())
    }

    /// An empty payload.
    pub fn new() -> (r: Payload)
        ensures
            r.wf(),
            r.view().len() == 0,
    {
        Payload { data: Vec::new() }
    }

    fn find(&self, mime_type: &str) -> (r: Option<usize>)
        ensures
            match r {
                Some(i) => i < self.view().len() && self.view()[i as int].0 == mime_type@,
                None => forall|j: int| 0 <= j < self.view().len() ==> (#[trigger] self.view()[j]).0 != mime_type@,
            },
    {
        let key = mime_type.to_owned();
        let mut i: usize = 0;
        while i < self.data.len()
            invariant
                i <= self.data.len(),
                key@ == mime_type@,
                forall|j: int| 0 <= j < i ==> (#[trigger] self.view()[j]).0 != mime_type@,
            decreases self.data.len() - i,
        {
            if self.data[i].0 == key {
                return Some(i);
            }
            i = i + 1;
        }
        None
    }

    /// Stores `data` under `mime_type`, replacing what was stored there.
    pub fn insert(&mut self, mime_type: &str, data: &str)
        requires
            old(self).wf(),
        ensures
            final(self).wf(),
            match lookup(old(self).view(), mime_type@) {
                Some(_) => final(self).view() == old(self).view().update(
                    choose|i: int| 0 <= i < old(self).view().len() && (#[trigger] old(self).view()[i]).0 == mime_type@,
                    (mime_type@, data@),
                ),
                None => final(self).view() == old(self).view().push((mime_type@, data@)),
            },
            lookup(final(self).view(), mime_type@) == Some(data@),
    {
        let ghost before = self.view();
        let ghost k: int;
        match self.find(mime_type) {
            Some(i) => {
                let ghost c = choose|k: int| 0 <= k < before.len() && (#[trigger] before[k]).0 == mime_type@;
                assert(before[i as int].0 == mime_type@);
                assert(c == i) by {
                    if c != i {
                        if c < i {
                            assert(before[c].0 != before[i as int].0);
                        } else {
                            assert(before[i as int].0 != before[c].0);
                        }
                    }
                }
                self.data.set(i, (mime_type.to_owned(), data.to_owned()));
                assert(self.view() =~= before.update(i as int, (mime_type@, data@)));
                proof {
                    k = i as int;
                }
            },
            None => {
                self.data.push((mime_type.to_owned(), data.to_owned()));
                assert(self.view() =~= before.push((mime_type@, data@)));
                proof {
                    k = before.len() as int;
                }
            },
        }
        let ghost after = self.view();
        assert(after[k].0 == mime_type@);
        let ghost w = choose|j: int| 0 <= j < after.len() && (#[trigger] after[j]).0 == mime_type@;
        assert(after[w].1 == data@) by {
            if w != k {
                if w < k {
                    assert(after[w].0 != after[k].0);
                } else {
                    assert(after[k].0 != after[w].0);
                }
            }
        }
    }

    /// The data stored under `mime_type`.
    pub fn get(&self, mime_type: &str) -> (r: Option<&String>)
        requires
            self.wf(),
        ensures
            match r {
                Some(s) => lookup(self.view(), mime_type@) == Some(s@),
                None => lookup(self.view(), mime_type@) is None,
            },
    {
        match self.find(mime_type) {
            Some(i) => {
                let ghost v = self.view();
                let ghost w = choose|k: int| 0 <= k < v.len() && (#[trigger] v[k]).0 == mime_type@;
                assert(v[i as int].0 == mime_type@);
                assert(w == i) by {
                    if w != i {
                        if w < i {
                            assert(v[w].0 != v[i as int].0);
                        } else {
                            assert(v[i as int].0 != v[w].0);
                        }
                    }
                }
                Some(&self.data[i].1)
            },
            None => None,
        }
    }

    /// True when data is stored under `mime_type`.
    pub fn contains(&self, mime_type: &str) -> (r: bool)
        ensures
            r == (lookup(self.view(), mime_type@) is Some),
    {
        match self.find(mime_type) {
            Some(i) => {
                assert(self.view()[i as int].0 == mime_type@);
                true
            },
            None => false,
        }
    }

    /// True when nothing is stored.
    pub fn is_empty(&self) -> (r: bool)
        ensures
            r == (self.view().len() == 0),
    {
        self.data.len() == 0
    }

    /// The number of MIME types stored.
    pub fn len(&self) -> (r: usize)
        ensures
            r == self.view().len(),
    {
        self.data.len()
    }

    /// The MIME types stored, in insertion order.
    pub fn mime_types(&self) -> (r: Vec<String>)
        ensures
            r.len() == self.view().len(),
            forall|i: int| 0 <= i < r.len() ==> (#[trigger] r[i])@ == self.view()[i].0,
    {
        let mut out: Vec<String> = Vec::new();
        let mut i: usize = 0;
        while i < self.data.len()
            invariant
                i <= self.data.len(),
                out.len() == i,
                forall|j: int| 0 <= j < i ==> (#[trigger] out[j])@ == self.view()[j].0,
            decreases self.data.len() - i,
        {
            out.push(self.data[i].0.clone());
            i = i + 1;
        }
        out
    }

    /// Removes everything.
    pub fn clear(&mut self)
        ensures
            final(self).wf(),
            final(self).view().len() == 0,
    {
        self.data = Vec::new();
    }
}

} // verus!
