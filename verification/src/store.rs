//! The storage semantics of the scoped data directory, stated over an
//! explicit directory value: a map from file name to full file text.
//! `write_file` stores the whole new text under the name, replacing any
//! prior contents from the start; `read_file` returns the stored text,
//! and for a name with no file creates an empty one and returns empty
//! text (create-on-open).

use vstd::prelude::*;
use vstd::string::StringExecFns;

verus! {

/// The contents described by a sequence of (name, text) entries, later
/// entries overriding earlier ones.
pub open spec fn dir_contents(entries: Seq<(String, String)>) -> Map<Seq<char>, Seq<char>>
    decreases entries.len(),
{
    if entries.len() == 0 {
        Map::empty()
    } else {
        dir_contents(entries.drop_last()).insert(entries.last().0@, entries.last().1@)
    }
}

/// The text stored under `name`, if any file of that name exists.
pub open spec fn stored(m: Map<Seq<char>, Seq<char>>, name: Seq<char>) -> Option<Seq<char>> {
    if m.contains_key(name) {
        Some(m[name])
    } else {
        None
    }
}

/// What a scoped read returns from a directory with contents `m`: the
/// stored text, or empty text for a name with no file.
pub open spec fn read_result(m: Map<Seq<char>, Seq<char>>, name: Seq<char>) -> Seq<char> {
    match stored(m, name) {
        Some(text) => text,
        None => Seq::empty(),
    }
}

/// A scoped data directory: flat storage of full file texts under
/// caller-supplied names.
pub struct Directory {
    entries: Vec<(String, String)>,
}

impl View for Directory {
    type V = Map<Seq<char>, Seq<char>>;

    closed spec fn view(&self) -> Map<Seq<char>, Seq<char>> {
        dir_contents(self.entries@)
    }
}

impl Directory {
    /// A fresh, empty data directory.
    pub fn new() -> (d: Directory)
        ensures
            d@ == Map::<Seq<char>, Seq<char>>::empty(),
    {
        Directory { entries: Vec::new() }
    }

    /// Looks up the text stored under `name`.
    fn find(&self, name: &str) -> (r: Option<String>)
        ensures
            r is Some <==> self@.contains_key(name@),
            r is Some ==> r->Some_0@ == self@[name@],
    {
        let wanted = name.to_owned();
        let mut i: usize = self.entries.len();
        proof {
            assert(self.entries@.take(i as int) =~= self.entries@);
        }
        while i > 0
            invariant
                i <= self.entries.len(),
                wanted@ == name@,
                stored(dir_contents(self.entries@.take(i as int)), name@) == stored(
                    self@,
                    name@,
                ),
            decreases i,
        {
            i = i - 1;
            proof {
                assert(self.entries@.take(i + 1 as int).drop_last() =~= self.entries@.take(
                    i as int,
                ));
                assert(self.entries@.take(i + 1 as int).last() == self.entries@[i as int]);
            }
            if self.entries[i].0 == wanted {
                return Some(self.entries[i].1.clone());
            }
        }
        proof {
            assert(self.entries@.take(0) =~= Seq::<(String, String)>::empty());
        }
        None
    }

    /// read_file: returns the stored text for `name`; for a name with
    /// no file, the open creates an empty one, so empty text is
    /// returned and the directory afterwards holds exactly what was
    /// returned.
    pub fn read_file(&mut self, name: &str) -> (r: String)
        ensures
            r@ == read_result(old(self)@, name@),
            final(self)@ == old(self)@.insert(name@, r@),
    {
        match self.find(name) {
            Some(text) => {
                proof {
                    assert(old(self)@.insert(name@, text@) =~= old(self)@);
                }
                text
            },
            None => {
                let text = String::new();
                self.entries.push((name.to_owned(), String::new()));
                proof {
                    assert(self.entries@.drop_last() =~= old(self).entries@);
                }
                text
            },
        }
    }

    /// write_file: stores `data` as the full new text under `name`,
    /// overwriting existing contents from the start of the file — prior
    /// longer contents leave no stale trailing characters.
    pub fn write_file(&mut self, name: &str, data: String)
        ensures
            final(self)@ == old(self)@.insert(name@, data@),
    {
        let entry = (name.to_owned(), data);
        self.entries.push(entry);
        proof {
            assert(self.entries@.drop_last() =~= old(self).entries@);
        }
    }
}

/// Round trip: after writing text `d` under name `n`, a read of `n`
/// returns exactly `d`, whatever the directory held before.
pub proof fn lemma_write_read_round_trip(m: Map<Seq<char>, Seq<char>>, n: Seq<char>, d: Seq<char>)
    ensures
        read_result(m.insert(n, d), n) == d,
{
}

/// Write shortening: writing text no longer than the prior contents
/// under the same name leaves no stale trailing characters — what a
/// read then returns is exactly the new text, in length too.
pub proof fn lemma_write_shortening(m: Map<Seq<char>, Seq<char>>, n: Seq<char>, d: Seq<char>)
    requires
        m.contains_key(n),
        d.len() <= m[n].len(),
    ensures
        read_result(m.insert(n, d), n) == d,
        read_result(m.insert(n, d), n).len() == d.len(),
{
}

/// A read of a name with no stored file succeeds with empty text, not
/// an error.
pub proof fn lemma_read_missing(m: Map<Seq<char>, Seq<char>>, n: Seq<char>)
    requires
        !m.contains_key(n),
    ensures
        read_result(m, n) == Seq::<char>::empty(),
{
}

} // verus!
