use vstd::prelude::*;

use crate::error::MirrorError;

verus! {

/// A filesystem path as the sequence of its components; for an absolute
/// path the first component is the root itself.
#[derive(Clone, Debug, PartialEq, Eq)]
pub struct FsPath {
    pub parts: Vec<String>,
}

impl View for FsPath {
    type V = Seq<Seq<char>>;

    open spec fn view(&self) -> Seq<Seq<char>> {
        self.parts@.map_values(|s: String| s@)
    }
}

/// `root` names `path` itself or a directory above it.
pub open spec fn is_under(path: Seq<Seq<char>>, root: Seq<Seq<char>>) -> bool {
    root.len() <= path.len() && path.subrange(0, root.len() as int) == root
}

/// The components of `path` below `root`.
pub open spec fn relative_of(path: Seq<Seq<char>>, root: Seq<Seq<char>>) -> Seq<Seq<char>> {
    path.subrange(root.len() as int, path.len() as int)
}

/// Where `path`, taken under `from`, lands under `to`.
pub open spec fn destination_spec(
    path: Seq<Seq<char>>,
    from: Seq<Seq<char>>,
    to: Seq<Seq<char>>,
) -> Seq<Seq<char>> {
    to + relative_of(path, from)
}

/// A path has a parent when it has a component besides its first.
pub open spec fn has_parent(p: Seq<Seq<char>>) -> bool {
    p.len() > 1
}

pub open spec fn parent_spec(p: Seq<Seq<char>>) -> Seq<Seq<char>> {
    p.drop_last()
}

impl FsPath {
    pub fn new(parts: Vec<String>) -> (r: FsPath)
        ensures
            r.parts@ == parts@,
    {
        FsPath { parts }
    }

    /// A path with the same components.
    pub fn duplicate(&self) -> (r: FsPath)
        ensures
            r@ == self@,
    {
        let mut parts: Vec<String> = Vec::new();
        let mut k: usize = 0;
        while k < self.parts.len()
            invariant
                0 <= k <= self.parts.len(),
                parts@.len() == k,
                forall|j: int| 0 <= j < k ==> parts@[j]@ == self.parts@[j]@,
            decreases self.parts.len() - k,
        {
            parts.push(self.parts[k].clone());
            k = k + 1;
        }
        let r = FsPath { parts };
        assert(r@ =~= self@);
        r
    }

    /// Whether two paths have the same components.
    pub fn same_as(&self, other: &FsPath) -> (r: bool)
        ensures
            r == (self@ == other@),
    {
        if self.parts.len() != other.parts.len() {
            assert(self@.len() != other@.len());
            return false;
        }
        let mut i: usize = 0;
        while i < self.parts.len()
            invariant
                self.parts.len() == other.parts.len(),
                0 <= i <= self.parts.len(),
                forall|j: int| 0 <= j < i ==> self.parts@[j]@ == other.parts@[j]@,
            decreases self.parts.len() - i,
        {
            if self.parts[i] != other.parts[i] {
                assert(self@[i as int] != other@[i as int]);
                return false;
            }
            i = i + 1;
        }
        assert(self@ =~= other@);
        true
    }

    /// The path's components below `root`, or `PathOutsideRoot` when `root`
    /// is not a leading part of it.
    pub fn relative(&self, root: &FsPath) -> (r: Result<FsPath, MirrorError>)
        ensures
            r is Ok <==> is_under(self@, root@),
            r is Ok ==> r->Ok_0@ == relative_of(self@, root@),
            r is Err ==> r->Err_0 == MirrorError::PathOutsideRoot,
    {
        let n = root.parts.len();
        if n > self.parts.len() {
            return Err(MirrorError::PathOutsideRoot);
        }
        let mut i: usize = 0;
        while i < n
            invariant
                n == root.parts.len(),
                n <= self.parts.len(),
                0 <= i <= n,
                forall|j: int| 0 <= j < i ==> self.parts@[j]@ == root.parts@[j]@,
            decreases n - i,
        {
            if self.parts[i] != root.parts[i] {
                assert(self@.subrange(0, n as int)[i as int] != root@[i as int]);
                return Err(MirrorError::PathOutsideRoot);
            }
            i = i + 1;
        }
        assert(self@.subrange(0, n as int) =~= root@);
        let mut rest: Vec<String> = Vec::new();
        let mut k: usize = n;
        while k < self.parts.len()
            invariant
                n <= k <= self.parts.len(),
                rest@.len() == k - n,
                forall|j: int| 0 <= j < k - n ==> rest@[j]@ == self.parts@[n + j]@,
            decreases self.parts.len() - k,
        {
            rest.push(self.parts[k].clone());
            k = k + 1;
        }
        let r = FsPath { parts: rest };
        assert(r@ =~= relative_of(self@, root@));
        Ok(r)
    }

    /// `self` with the components of `rel` appended.
    pub fn join(&self, rel: &FsPath) -> (r: FsPath)
        ensures
            r@ == self@ + rel@,
    {
        let mut parts: Vec<String> = Vec::new();
        let mut k: usize = 0;
        while k < self.parts.len()
            invariant
                0 <= k <= self.parts.len(),
                parts@.len() == k,
                forall|j: int| 0 <= j < k ==> parts@[j]@ == self.parts@[j]@,
            decreases self.parts.len() - k,
        {
            parts.push(self.parts[k].clone());
            k = k + 1;
        }
        let mut m: usize = 0;
        while m < rel.parts.len()
            invariant
                0 <= m <= rel.parts.len(),
                parts@.len() == self.parts@.len() + m,
                forall|j: int| 0 <= j < self.parts@.len() ==> parts@[j]@ == self.parts@[j]@,
                forall|j: int|
                    0 <= j < m ==> parts@[self.parts@.len() + j]@ == rel.parts@[j]@,
            decreases rel.parts.len() - m,
        {
            parts.push(rel.parts[m].clone());
            m = m + 1;
        }
        let r = FsPath { parts };
        assert(r@ =~= self@ + rel@);
        r
    }

    /// The directory holding the path, or `PathResolution` when it has none.
    pub fn parent(&self) -> (r: Result<FsPath, MirrorError>)
        ensures
            r is Ok <==> has_parent(self@),
            r is Ok ==> r->Ok_0@ == parent_spec(self@),
            r is Err ==> r->Err_0 == MirrorError::PathResolution,
    {
        if self.parts.len() <= 1 {
            return Err(MirrorError::PathResolution);
        }
        let last = self.parts.len() - 1;
        let mut parts: Vec<String> = Vec::new();
        let mut k: usize = 0;
        while k < last
            invariant
                last == self.parts.len() - 1,
                0 <= k <= last,
                parts@.len() == k,
                forall|j: int| 0 <= j < k ==> parts@[j]@ == self.parts@[j]@,
            decreases last - k,
        {
            parts.push(self.parts[k].clone());
            k = k + 1;
        }
        let r = FsPath { parts };
        assert(r@ =~= parent_spec(self@));
        Ok(r)
    }
}

/// The destination counterpart of `path`: the destination root joined with
/// the part of `path` below the source root.
pub fn destination_of(path: &FsPath, from: &FsPath, to: &FsPath) -> (r: Result<FsPath, MirrorError>)
    ensures
        r is Ok <==> is_under(path@, from@),
        r is Ok ==> r->Ok_0@ == destination_spec(path@, from@, to@),
        r is Err ==> r->Err_0 == MirrorError::PathOutsideRoot,
{
    let rel = path.relative(from)?;
    Ok(to.join(&rel))
}

} // verus!
