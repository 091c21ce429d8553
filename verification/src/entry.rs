//! Plain-value records for one filesystem child and for absolute paths.
//!
//! An `Entry` carries what a directory listing learned about one child: its
//! name and either its metadata or the message of the failed metadata
//! query. Entries are built fresh on every listing and never mutated. A
//! `DirPath` holds an absolute path as its components from the root, so
//! that moving up and down the tree is plain sequence work.
//!
//! Names and path components are raw bytes: a filesystem name need not be
//! valid text, and the same bytes that a listing produced are handed back
//! for every lookup and open. Converting them to text, lossily, is the
//! displaying caller's business alone.

use vstd::prelude::*;

verus! {

/// What kind of filesystem object an entry is.
#[derive(Clone, Copy, PartialEq, Eq, Structural, Debug)]
pub enum EntryKind {
    Directory,
    File,
    Symlink,
    Unknown,
}

/// Successfully queried metadata of an entry.
#[derive(Clone, Copy, PartialEq, Eq, Structural, Debug)]
pub struct EntryMeta {
    pub kind: EntryKind,
    pub size: u64,
}

/// One child found in a directory listing. `name` holds the raw bytes of
/// the filesystem name. `meta` holds the metadata when the query succeeded,
/// and the query's error message when it did not; such an entry still
/// stands in the listing and is only shown degraded.
pub struct Entry {
    pub name: Vec<u8>,
    pub meta: Result<EntryMeta, String>,
}

impl View for Entry {
    type V = (Seq<u8>, Result<EntryMeta, Seq<char>>);

    open spec fn view(&self) -> (Seq<u8>, Result<EntryMeta, Seq<char>>) {
        (
            self.name@,
            match self.meta {
                Ok(m) => Ok(m),
                Err(ref s) => Err(s@),
            },
        )
    }
}

impl Entry {
    /// The entry can be descended into: a directory, or a symlink that may
    /// resolve to one.
    pub open spec fn is_dir_like(&self) -> bool {
        self.meta matches Ok(m) && (m.kind is Directory || m.kind is Symlink)
    }

    /// The entry is a regular file.
    pub open spec fn is_file(&self) -> bool {
        self.meta matches Ok(m) && m.kind is File
    }

    pub fn dir_like(&self) -> (r: bool)
        ensures
            r == self.is_dir_like(),
    {
        match &self.meta {
            Ok(m) => match m.kind {
                EntryKind::Directory => true,
                EntryKind::Symlink => true,
                _ => false,
            },
            Err(_) => false,
        }
    }

    pub fn file_like(&self) -> (r: bool)
        ensures
            r == self.is_file(),
    {
        match &self.meta {
            Ok(m) => match m.kind {
                EntryKind::File => true,
                _ => false,
            },
            Err(_) => false,
        }
    }
}

/// A copy of a byte string, with the same bytes.
fn clone_bytes(v: &Vec<u8>) -> (r: Vec<u8>)
    ensures
        r@ == v@,
{
    let mut r: Vec<u8> = Vec::new();
    let mut i: usize = 0;
    while i < v.len()
        invariant
            i <= v@.len(),
            r@ == v@.take(i as int),
        decreases v@.len() - i,
    {
        r.push(v[i]);
        proof {
            assert(v@.take((i + 1) as int) =~= v@.take(i as int).push(v@[i as int]));
        }
        i = i + 1;
    }
    proof {
        assert(v@.take(v@.len() as int) =~= v@);
    }
    r
}

/// A copy of an entry, with the same view.
fn clone_entry(e: &Entry) -> (r: Entry)
    ensures
        r@ == e@,
{
    Entry {
        name: clone_bytes(&e.name),
        meta: match &e.meta {
            Ok(m) => Ok(*m),
            Err(s) => Err(s.clone()),
        },
    }
}

/// The entries a listing keeps, as their views: the readable children in
/// their order, the unreadable ones dropped.
pub open spec fn present_entries(children: Seq<Option<Entry>>) -> Seq<
    (Seq<u8>, Result<EntryMeta, Seq<char>>),
>
    decreases children.len(),
{
    if children.len() == 0 {
        Seq::empty()
    } else {
        let rest = present_entries(children.drop_last());
        match children.last() {
            Some(e) => rest.push(e@),
            None => rest,
        }
    }
}

/// The listing's skip policy: a child whose directory-stream record could
/// not be read at all (`None`) is dropped silently, every other child stays
/// — also one whose metadata query failed, which `Entry::meta` annotates.
pub fn keep_readable(children: &Vec<Option<Entry>>) -> (r: Vec<Entry>)
    ensures
        r@.map_values(|e: Entry| e@) == present_entries(children@),
{
    let mut out: Vec<Entry> = Vec::new();
    let mut i: usize = 0;
    while i < children.len()
        invariant
            i <= children@.len(),
            out@.map_values(|e: Entry| e@) == present_entries(children@.take(i as int)),
        decreases children@.len() - i,
    {
        match &children[i] {
            Some(e) => {
                let c = clone_entry(e);
                proof {
                    assert(out@.push(c).map_values(|e: Entry| e@) =~= out@.map_values(
                        |e: Entry| e@,
                    ).push(c@));
                }
                out.push(c);
            },
            None => (),
        }
        proof {
            assert(children@.take((i + 1) as int).drop_last() =~= children@.take(i as int));
            assert(children@.take((i + 1) as int).last() == children@[i as int]);
        }
        i = i + 1;
    }
    proof {
        assert(children@.take(children@.len() as int) =~= children@);
    }
    out
}

/// The sequence of byte strings that a vector of components stands for.
pub open spec fn parts_view(parts: Seq<Vec<u8>>) -> Seq<Seq<u8>> {
    Seq::new(parts.len(), |i: int| parts[i]@)
}

/// The byte of the path separator `/`.
pub const SLASH: u8 = 47;

/// The text of a sequence of path components, each behind one slash.
pub open spec fn display_of_parts(parts: Seq<Seq<u8>>) -> Seq<u8>
    decreases parts.len(),
{
    if parts.len() == 0 {
        Seq::empty()
    } else {
        display_of_parts(parts.drop_last()) + seq![SLASH] + parts.last()
    }
}

/// The display text of an absolute path: its components each behind one
/// slash, and a single slash for the bare root.
pub open spec fn display_of_path(parts: Seq<Seq<u8>>) -> Seq<u8> {
    if parts.len() == 0 {
        seq![SLASH]
    } else {
        display_of_parts(parts)
    }
}

/// An absolute path, held as the raw bytes of its components from the root;
/// the root itself is the empty sequence of components.
pub struct DirPath {
    parts: Vec<Vec<u8>>,
}

impl View for DirPath {
    type V = Seq<Seq<u8>>;

    closed spec fn view(&self) -> Seq<Seq<u8>> {
        parts_view(self.parts@)
    }
}

impl DirPath {
    /// The filesystem root.
    pub fn root() -> (r: DirPath)
        ensures
            r@ == Seq::<Seq<u8>>::empty(),
    {
        let r = DirPath { parts: Vec::new() };
        proof {
            assert(r@ =~= Seq::<Seq<u8>>::empty());
        }
        r
    }

    /// The path made of the given components, root first.
    pub fn from_parts(parts: Vec<Vec<u8>>) -> (r: DirPath)
        ensures
            r@ == parts_view(parts@),
    {
        DirPath { parts }
    }

    pub fn parts(&self) -> (r: &Vec<Vec<u8>>)
        ensures
            parts_view(r@) == self@,
    {
        &self.parts
    }

    pub fn depth(&self) -> (n: usize)
        ensures
            n == self@.len(),
    {
        self.parts.len()
    }

    pub fn is_root(&self) -> (r: bool)
        ensures
            r == (self@.len() == 0),
    {
        self.parts.len() == 0
    }

    /// A copy of the components, with the same bytes.
    fn clone_parts(&self) -> (r: Vec<Vec<u8>>)
        ensures
            parts_view(r@) == self@,
    {
        let mut r: Vec<Vec<u8>> = Vec::new();
        let mut i: usize = 0;
        while i < self.parts.len()
            invariant
                i <= self.parts@.len(),
                r@.len() == i,
                forall|k: int| 0 <= k < i ==> r@[k]@ == self@[k],
            decreases self.parts@.len() - i,
        {
            r.push(clone_bytes(&self.parts[i]));
            i = i + 1;
        }
        proof {
            assert(parts_view(r@) =~= self@);
        }
        r
    }

    /// The path one level up; the root alone has none.
    pub fn parent(&self) -> (r: Option<DirPath>)
        ensures
            self@.len() == 0 ==> r is None,
            self@.len() > 0 ==> (r matches Some(p) && p@ == self@.drop_last()),
    {
        if self.parts.len() == 0 {
            None
        } else {
            let mut parts = self.clone_parts();
            parts.pop();
            let p = DirPath { parts };
            proof {
                assert(p@ =~= self@.drop_last());
            }
            Some(p)
        }
    }

    /// The path of the child named `name` directly under this path.
    pub fn child(&self, name: &Vec<u8>) -> (r: DirPath)
        ensures
            r@ == self@.push(name@),
    {
        let mut parts = self.clone_parts();
        parts.push(clone_bytes(name));
        let r = DirPath { parts };
        proof {
            assert(r@ =~= self@.push(name@));
        }
        r
    }

    /// The display bytes of this path: each component behind one slash, the
    /// bare root as a single slash. Turning them into text — lossily, where
    /// the name was no valid text — is the displaying caller's business.
    pub fn display_bytes(&self) -> (r: Vec<u8>)
        ensures
            r@ == display_of_path(self@),
    {
        let mut out: Vec<u8> = Vec::new();
        if self.parts.len() == 0 {
            out.push(SLASH);
            proof {
                assert(out@ =~= display_of_path(self@));
            }
            return out;
        }
        let mut i: usize = 0;
        while i < self.parts.len()
            invariant
                i <= self.parts@.len(),
                out@ == display_of_parts(self@.take(i as int)),
            decreases self.parts@.len() - i,
        {
            out.push(SLASH);
            let ghost mid = out@;
            let part = &self.parts[i];
            let mut j: usize = 0;
            while j < part.len()
                invariant
                    j <= part@.len(),
                    out@ == mid + part@.take(j as int),
                decreases part@.len() - j,
            {
                out.push(part[j]);
                proof {
                    assert(mid + part@.take((j + 1) as int) =~= (mid + part@.take(
                        j as int,
                    )).push(part@[j as int]));
                }
                j = j + 1;
            }
            proof {
                assert(part@.take(part@.len() as int) =~= part@);
                assert(self@.take((i + 1) as int).drop_last() =~= self@.take(i as int));
                assert(self@.take((i + 1) as int).last() == self@[i as int]);
                assert(out@ =~= display_of_parts(self@.take((i + 1) as int)));
            }
            i = i + 1;
        }
        proof {
            assert(self@.take(self@.len() as int) =~= self@);
        }
        out
    }
}

/// Law: descending into a child and taking the parent of the resulting path
/// leads back to the original path, whatever the child's name.
pub proof fn lemma_child_parent_round_trip(p: Seq<Seq<u8>>, name: Seq<u8>)
    ensures
        p.push(name).drop_last() == p,
{
    assert(p.push(name).drop_last() =~= p);
}

} // verus!
