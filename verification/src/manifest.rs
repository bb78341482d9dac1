//! The checksum-manifest format: plain text, one entry per line, split on
//! whitespace into `<hex-hash> <filename>`. Lines that do not yield exactly
//! two tokens are skipped. Lookup is an exact byte-string match against the
//! filename as it stands in the manifest.

use vstd::prelude::*;

verus! {

/// A token separator: ASCII space, tab, carriage return or line feed.
pub open spec fn is_sep(b: u8) -> bool {
    b == 32 || b == 9 || b == 13 || b == 10
}

/// Tokenization of `s` with accumulator state: `cur` is the token being
/// collected, `done` the tokens already emitted.
pub open spec fn tokens_acc(s: Seq<u8>, cur: Seq<u8>, done: Seq<Seq<u8>>) -> Seq<Seq<u8>>
    decreases s.len(),
{
    if s.len() == 0 {
        if cur.len() == 0 {
            done
        } else {
            done.push(cur)
        }
    } else if is_sep(s[0]) {
        if cur.len() == 0 {
            tokens_acc(s.skip(1), cur, done)
        } else {
            tokens_acc(s.skip(1), Seq::empty(), done.push(cur))
        }
    } else {
        tokens_acc(s.skip(1), cur.push(s[0]), done)
    }
}

/// The maximal runs of non-separator bytes of `s`, in order.
pub open spec fn tokens_of(s: Seq<u8>) -> Seq<Seq<u8>> {
    tokens_acc(s, Seq::empty(), Seq::empty())
}

/// Line splitting with accumulator state: lines are separated by line feeds;
/// the text after the last line feed is a line as well.
pub open spec fn lines_acc(s: Seq<u8>, cur: Seq<u8>, done: Seq<Seq<u8>>) -> Seq<Seq<u8>>
    decreases s.len(),
{
    if s.len() == 0 {
        done.push(cur)
    } else if s[0] == 10 {
        lines_acc(s.skip(1), Seq::empty(), done.push(cur))
    } else {
        lines_acc(s.skip(1), cur.push(s[0]), done)
    }
}

/// The lines of `s`, split on line feeds.
pub open spec fn lines_of(s: Seq<u8>) -> Seq<Seq<u8>> {
    lines_acc(s, Seq::empty(), Seq::empty())
}

/// The entries a single line contributes: one `(filename, hash)` pair when
/// the line has exactly two tokens (hash first, filename second), none
/// otherwise.
pub open spec fn line_entry(line: Seq<u8>) -> Seq<(Seq<u8>, Seq<u8>)> {
    let ts = tokens_of(line);
    if ts.len() == 2 {
        seq![(ts[1], ts[0])]
    } else {
        Seq::empty()
    }
}

/// The entries of a sequence of lines, in line order.
pub open spec fn entries_of_lines(lines: Seq<Seq<u8>>) -> Seq<(Seq<u8>, Seq<u8>)>
    decreases lines.len(),
{
    if lines.len() == 0 {
        Seq::empty()
    } else {
        line_entry(lines[0]) + entries_of_lines(lines.skip(1))
    }
}

/// The `(filename, hash)` entries of a whole manifest text.
pub open spec fn entries_of(text: Seq<u8>) -> Seq<(Seq<u8>, Seq<u8>)> {
    entries_of_lines(lines_of(text))
}

/// The hash recorded for `name`: that of the first entry bearing `name`,
/// or nothing when no entry does.
pub open spec fn lookup_spec(entries: Seq<(Seq<u8>, Seq<u8>)>, name: Seq<u8>) -> Option<Seq<u8>>
    decreases entries.len(),
{
    if entries.len() == 0 {
        Option::None
    } else if entries[0].0 == name {
        Option::Some(entries[0].1)
    } else {
        lookup_spec(entries.skip(1), name)
    }
}

/// The element-wise views of a sequence of byte vectors.
pub open spec fn views_of(v: Seq<Vec<u8>>) -> Seq<Seq<u8>> {
    v.map_values(|x: Vec<u8>| x@)
}

fn is_sep_byte(b: u8) -> (r: bool)
    ensures
        r == is_sep(b),
{
    b == 32 || b == 9 || b == 13 || b == 10
}

/// Exact byte-string equality.
pub fn bytes_eq(a: &Vec<u8>, b: &Vec<u8>) -> (r: bool)
    ensures
        r <==> a@ == b@,
{
    if a.len() != b.len() {
        assert(a@.len() != b@.len());
        return false;
    }
    let n = a.len();
    let mut i: usize = 0;
    while i < n
        invariant
            n == a@.len(),
            n == b@.len(),
            i <= n,
            forall|k: int| 0 <= k < i ==> a@[k] == b@[k],
        decreases n - i,
    {
        if a[i] != b[i] {
            assert(a@[i as int] != b@[i as int]);
            return false;
        }
        i += 1;
    }
    assert(a@ =~= b@);
    true
}

/// The tokens of `line`, as the tokenization spec gives them.
pub fn tokenize(line: &Vec<u8>) -> (r: Vec<Vec<u8>>)
    ensures
        views_of(r@) == tokens_of(line@),
{
    let mut done: Vec<Vec<u8>> = Vec::new();
    let mut cur: Vec<u8> = Vec::new();
    let n = line.len();
    let mut i: usize = 0;
    proof {
        assert(line@.skip(0) =~= line@);
        assert(views_of(done@) =~= Seq::<Seq<u8>>::empty());
        assert(cur@ =~= Seq::<u8>::empty());
    }
    while i < n
        invariant
            n == line@.len(),
            i <= n,
            tokens_acc(line@.skip(i as int), cur@, views_of(done@)) == tokens_of(line@),
        decreases n - i,
    {
        let ghost pre_rest = line@.skip(i as int);
        let ghost pre_cur = cur@;
        let ghost pre_done = views_of(done@);
        let b = line[i];
        assert(pre_rest[0] == b);
        if is_sep_byte(b) {
            if cur.len() > 0 {
                done.push(cur);
                cur = Vec::new();
                proof {
                    assert(views_of(done@) =~= pre_done.push(pre_cur));
                    assert(cur@ =~= Seq::<u8>::empty());
                }
            }
        } else {
            cur.push(b);
        }
        proof {
            assert(line@.skip(i as int).skip(1) =~= line@.skip(i + 1 as int));
        }
        i += 1;
    }
    proof {
        assert(line@.skip(n as int) =~= Seq::<u8>::empty());
    }
    if cur.len() > 0 {
        let ghost pre_done = views_of(done@);
        let ghost pre_cur = cur@;
        done.push(cur);
        proof {
            assert(views_of(done@) =~= pre_done.push(pre_cur));
        }
    }
    done
}

/// The lines of `text`, as the line-splitting spec gives them.
pub fn split_lines(text: &Vec<u8>) -> (r: Vec<Vec<u8>>)
    ensures
        views_of(r@) == lines_of(text@),
{
    let mut done: Vec<Vec<u8>> = Vec::new();
    let mut cur: Vec<u8> = Vec::new();
    let n = text.len();
    let mut i: usize = 0;
    proof {
        assert(text@.skip(0) =~= text@);
        assert(views_of(done@) =~= Seq::<Seq<u8>>::empty());
        assert(cur@ =~= Seq::<u8>::empty());
    }
    while i < n
        invariant
            n == text@.len(),
            i <= n,
            lines_acc(text@.skip(i as int), cur@, views_of(done@)) == lines_of(text@),
        decreases n - i,
    {
        let ghost pre_rest = text@.skip(i as int);
        let ghost pre_cur = cur@;
        let ghost pre_done = views_of(done@);
        let b = text[i];
        assert(pre_rest[0] == b);
        if b == 10 {
            done.push(cur);
            cur = Vec::new();
            proof {
                assert(views_of(done@) =~= pre_done.push(pre_cur));
                assert(cur@ =~= Seq::<u8>::empty());
            }
        } else {
            cur.push(b);
        }
        proof {
            assert(text@.skip(i as int).skip(1) =~= text@.skip(i + 1 as int));
        }
        i += 1;
    }
    proof {
        assert(text@.skip(n as int) =~= Seq::<u8>::empty());
    }
    let ghost pre_done = views_of(done@);
    let ghost pre_cur = cur@;
    done.push(cur);
    proof {
        assert(views_of(done@) =~= pre_done.push(pre_cur));
    }
    done
}

/// One association of a checksum manifest: the hash recorded for a filename.
#[derive(Clone)]
pub struct ManifestEntry {
    pub filename: Vec<u8>,
    pub hash: Vec<u8>,
}

impl View for ManifestEntry {
    type V = (Seq<u8>, Seq<u8>);

    open spec fn view(&self) -> (Seq<u8>, Seq<u8>) {
        (self.filename@, self.hash@)
    }
}

/// A parsed checksum manifest: filename-to-hash associations in line order.
#[derive(Clone)]
pub struct Manifest {
    pub entries: Vec<ManifestEntry>,
}

impl View for Manifest {
    type V = Seq<(Seq<u8>, Seq<u8>)>;

    open spec fn view(&self) -> Seq<(Seq<u8>, Seq<u8>)> {
        self.entries@.map_values(|e: ManifestEntry| e@)
    }
}

impl Manifest {
    /// Parses manifest text: each line with exactly two whitespace-separated
    /// tokens contributes one entry, hash first and filename second; every
    /// other line is skipped.
    pub fn parse(text: &Vec<u8>) -> (m: Manifest)
        ensures
            m@ == entries_of(text@),
    {
        let lines = split_lines(text);
        let mut entries: Vec<ManifestEntry> = Vec::new();
        let n = lines.len();
        let mut i: usize = 0;
        proof {
            assert(views_of(lines@).skip(0) =~= views_of(lines@));
            assert(entries@.map_values(|e: ManifestEntry| e@) =~= Seq::<(Seq<u8>, Seq<u8>)>::empty());
        }
        while i < n
            invariant
                n == lines@.len(),
                i <= n,
                views_of(lines@).len() == n,
                entries@.map_values(|e: ManifestEntry| e@) + entries_of_lines(views_of(lines@).skip(i as int))
                    == entries_of_lines(views_of(lines@)),
                entries_of_lines(views_of(lines@)) == entries_of(text@),
            decreases n - i,
        {
            let ghost pre_entries = entries@.map_values(|e: ManifestEntry| e@);
            let ghost rest = views_of(lines@).skip(i as int);
            assert(rest[0] == lines@[i as int]@);
            let mut toks = tokenize(&lines[i]);
            if toks.len() == 2 {
                let hash = toks.remove(0);
                let filename = toks.remove(0);
                assert(hash@ == tokens_of(lines@[i as int]@)[0]);
                assert(filename@ == tokens_of(lines@[i as int]@)[1]);
                let entry = ManifestEntry { filename, hash };
                entries.push(entry);
                proof {
                    assert(entries@.map_values(|e: ManifestEntry| e@) =~= pre_entries.push(entry@));
                    assert(line_entry(rest[0]) =~= seq![entry@]);
                }
            } else {
                assert(views_of(toks@).len() != 2);
                assert(line_entry(rest[0]) =~= Seq::<(Seq<u8>, Seq<u8>)>::empty());
            }
            proof {
                assert(views_of(lines@).skip(i as int).skip(1) =~= views_of(lines@).skip(i + 1 as int));
                assert(entries_of_lines(rest) == line_entry(rest[0]) + entries_of_lines(views_of(lines@).skip(i + 1 as int)));
            }
            i += 1;
        }
        proof {
            assert(views_of(lines@).skip(n as int) =~= Seq::<Seq<u8>>::empty());
            assert(entries@.map_values(|e: ManifestEntry| e@) + Seq::<(Seq<u8>, Seq<u8>)>::empty()
                =~= entries@.map_values(|e: ManifestEntry| e@));
        }
        let m = Manifest { entries };
        proof {
            assert(m@ =~= entries_of(text@));
        }
        m
    }

    /// Exact-string lookup: the hash of the first entry whose filename
    /// equals `name`, or nothing when no entry bears `name`.
    pub fn lookup(&self, name: &Vec<u8>) -> (r: Option<Vec<u8>>)
        ensures
            match r {
                Option::Some(h) => lookup_spec(self@, name@) == Option::Some(h@),
                Option::None => lookup_spec(self@, name@) is None,
            },
    {
        let n = self.entries.len();
        let mut i: usize = 0;
        proof {
            assert(self@.skip(0) =~= self@);
        }
        while i < n
            invariant
                n == self.entries@.len(),
                i <= n,
                self@.len() == n,
                lookup_spec(self@.skip(i as int), name@) == lookup_spec(self@, name@),
            decreases n - i,
        {
            let ghost rest = self@.skip(i as int);
            assert(rest[0] == self.entries@[i as int]@);
            if bytes_eq(&self.entries[i].filename, name) {
                let h = clone_bytes(&self.entries[i].hash);
                return Option::Some(h);
            }
            proof {
                assert(self@.skip(i as int).skip(1) =~= self@.skip(i + 1 as int));
            }
            i += 1;
        }
        proof {
            assert(self@.skip(n as int) =~= Seq::<(Seq<u8>, Seq<u8>)>::empty());
        }
        Option::None
    }
}

/// A copy of a byte string.
pub fn clone_bytes(v: &Vec<u8>) -> (r: Vec<u8>)
    ensures
        r@ == v@,
{
    let n = v.len();
    let mut r: Vec<u8> = Vec::new();
    let mut i: usize = 0;
    while i < n
        invariant
            n == v@.len(),
            i <= n,
            r@ =~= v@.take(i as int),
        decreases n - i,
    {
        r.push(v[i]);
        proof {
            assert(v@.take(i as int).push(v@[i as int]) =~= v@.take(i + 1 as int));
        }
        i += 1;
    }
    proof {
        assert(v@.take(n as int) =~= v@);
    }
    r
}

/// Looking up a filename that stands in the entries, with no earlier entry
/// bearing the same filename, returns exactly the hash recorded beside it.
pub proof fn lemma_lookup_present(entries: Seq<(Seq<u8>, Seq<u8>)>, i: int)
    requires
        0 <= i < entries.len(),
        forall|k: int| 0 <= k < i ==> entries[k].0 != entries[i].0,
    ensures
        lookup_spec(entries, entries[i].0) == Option::Some(entries[i].1),
    decreases i,
{
    if i == 0 {
    } else {
        assert(entries[0].0 != entries[i].0);
        assert(entries.skip(1)[i - 1] == entries[i]);
        assert(forall|k: int| 0 <= k < i - 1 ==> entries.skip(1)[k] == entries[k + 1]);
        lemma_lookup_present(entries.skip(1), i - 1);
    }
}

/// Looking up a filename that stands in no entry returns nothing.
pub proof fn lemma_lookup_absent(entries: Seq<(Seq<u8>, Seq<u8>)>, name: Seq<u8>)
    requires
        forall|k: int| 0 <= k < entries.len() ==> entries[k].0 != name,
    ensures
        lookup_spec(entries, name) is None,
    decreases entries.len(),
{
    if entries.len() == 0 {
    } else {
        assert(forall|k: int| 0 <= k < entries.len() - 1 ==> entries.skip(1)[k] == entries[k + 1]);
        lemma_lookup_absent(entries.skip(1), name);
    }
}

/// For all manifest text: parsing and then looking up a filename present in
/// the entries (and not on an earlier entry) yields exactly the hash on its
/// line, and looking up an absent filename yields nothing.
pub proof fn lemma_parse_lookup_exact(text: Seq<u8>, i: int, absent: Seq<u8>)
    requires
        0 <= i < entries_of(text).len(),
        forall|k: int| 0 <= k < i ==> entries_of(text)[k].0 != entries_of(text)[i].0,
        forall|k: int| 0 <= k < entries_of(text).len() ==> entries_of(text)[k].0 != absent,
    ensures
        lookup_spec(entries_of(text), entries_of(text)[i].0) == Option::Some(entries_of(text)[i].1),
        lookup_spec(entries_of(text), absent) is None,
{
    lemma_lookup_present(entries_of(text), i);
    lemma_lookup_absent(entries_of(text), absent);
}

} // verus!
