//! File-system paths modelled as a flag for absoluteness plus a sequence of
//! components. The loaders compute which files to read in this model; the
//! surrounding program maps it onto real paths.

use vstd::prelude::*;
use crate::strutil::str_eq;

verus! {

/// Mathematical value of a path: absoluteness and components.
pub struct PathView {
    pub absolute: bool,
    pub parts: Seq<Seq<char>>,
}

/// A path as the loaders see it: a flag for absoluteness and the list of
/// components from the root (or from the current directory).
#[derive(Clone, Debug)]
pub struct FsPath {
    pub absolute: bool,
    pub parts: Vec<String>,
}

impl View for FsPath {
    type V = PathView;

    open spec fn view(&self) -> PathView {
        PathView { absolute: self.absolute, parts: self.parts.deep_view() }
    }
}

/// Duplicate of a list of components, equal element by element.
pub fn clone_parts(v: &Vec<String>) -> (r: Vec<String>)
    ensures
        r@ == v@,
{
    let mut r: Vec<String> = Vec::new();
    let n = v.len();
    let mut i: usize = 0;
    while i < n
        invariant
            i <= n,
            n == v@.len(),
            r@ =~= v@.take(i as int),
        decreases n - i,
    {
        r.push(v[i].clone());
        proof {
            assert(r@ =~= v@.take(i + 1));
        }
        i = i + 1;
    }
    proof {
        assert(v@.take(n as int) =~= v@);
    }
    r
}

impl FsPath {
    /// The empty relative path.
    pub fn new_relative() -> (r: FsPath)
        ensures
            r@.absolute == false,
            r@.parts == Seq::<Seq<char>>::empty(),
    {
        FsPath { absolute: false, parts: Vec::new() }
    }

    /// A copy with the same value.
    pub fn duplicate(&self) -> (r: FsPath)
        ensures
            r@ == self@,
    {
        FsPath { absolute: self.absolute, parts: clone_parts(&self.parts) }
    }

    pub fn is_relative(&self) -> (r: bool)
        ensures
            r == !self@.absolute,
    {
        !self.absolute
    }

    /// The path extended by one component.
    pub fn child(&self, name: &str) -> (r: FsPath)
        ensures
            r@.absolute == self@.absolute,
            r@.parts == self@.parts.push(name@),
    {
        let mut parts = clone_parts(&self.parts);
        parts.push(String::from_str(name));
        proof {
            assert(parts.deep_view() =~= self@.parts.push(name@));
        }
        FsPath { absolute: self.absolute, parts }
    }

    /// `self` followed by a relative path's components; an absolute `other`
    /// replaces `self`, as `Path::join` does.
    pub fn join(&self, other: &FsPath) -> (r: FsPath)
        ensures
            other@.absolute ==> r@ == other@,
            !other@.absolute ==> r@ == (PathView {
                absolute: self@.absolute,
                parts: self@.parts + other@.parts,
            }),
    {
        if other.absolute {
            let r = FsPath { absolute: true, parts: clone_parts(&other.parts) };
            proof {
                assert(r@ =~= other@);
            }
            r
        } else {
            let mut parts = clone_parts(&self.parts);
            let mut more = clone_parts(&other.parts);
            parts.append(&mut more);
            proof {
                assert(parts.deep_view() =~= self@.parts + other@.parts);
            }
            FsPath { absolute: self.absolute, parts }
        }
    }

    /// The path without its final component; none when there is no component
    /// to drop.
    pub fn parent(&self) -> (r: Option<FsPath>)
        ensures
            self@.parts.len() == 0 ==> r is None,
            self@.parts.len() > 0 ==> (r matches Some(p) && p@ == (PathView {
                absolute: self@.absolute,
                parts: self@.parts.drop_last(),
            })),
    {
        if self.parts.len() == 0 {
            None
        } else {
            let mut parts = clone_parts(&self.parts);
            let _last = parts.pop();
            proof {
                assert(parts.deep_view() =~= self@.parts.drop_last());
            }
            Some(FsPath { absolute: self.absolute, parts })
        }
    }

    /// The path with its final component (if any) replaced by `name`.
    pub fn with_file_name(&self, name: &str) -> (r: FsPath)
        ensures
            r@ == (PathView {
                absolute: self@.absolute,
                parts: (if self@.parts.len() > 0 {
                    self@.parts.drop_last()
                } else {
                    self@.parts
                }).push(name@),
            }),
    {
        let mut parts = clone_parts(&self.parts);
        if parts.len() > 0 {
            let _last = parts.pop();
        }
        parts.push(String::from_str(name));
        proof {
            assert(parts.deep_view() =~= (if self@.parts.len() > 0 {
                self@.parts.drop_last()
            } else {
                self@.parts
            }).push(name@));
        }
        FsPath { absolute: self.absolute, parts }
    }

    /// Structural equality of two paths.
    pub fn path_eq(&self, other: &FsPath) -> (r: bool)
        ensures
            r == (self@ == other@),
    {
        if self.absolute != other.absolute {
            return false;
        }
        let n = self.parts.len();
        if n != other.parts.len() {
            proof {
                assert(self@.parts.len() != other@.parts.len());
            }
            return false;
        }
        let mut i: usize = 0;
        while i < n
            invariant
                i <= n,
                n == self.parts@.len(),
                n == other.parts@.len(),
                self.absolute == other.absolute,
                forall|j: int| 0 <= j < i ==> self@.parts[j] == other@.parts[j],
            decreases n - i,
        {
            if !str_eq(self.parts[i].as_str(), other.parts[i].as_str()) {
                proof {
                    assert(self@.parts[i as int] != other@.parts[i as int]);
                }
                return false;
            }
            i = i + 1;
        }
        proof {
            assert(self@.parts =~= other@.parts);
        }
        true
    }
}

} // verus!
