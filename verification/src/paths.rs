//! Canonical filesystem paths as sequences of components, with the
//! component-wise containment relation of the served root.

use vstd::prelude::*;

verus! {

/// A component of a canonical path: non-empty, free of separators, and
/// not one of the relative markers `.` and `..`. Canonicalized paths as
/// the filesystem hands them back consist solely of such components.
pub open spec fn valid_component(c: Seq<char>) -> bool {
    &&& c.len() > 0
    &&& (forall|i: int| 0 <= i < c.len() ==> c[i] != '/')
    &&& c != "."@
    &&& c != ".."@
}

pub open spec fn all_components_valid(cs: Seq<Seq<char>>) -> bool {
    forall|i: int| 0 <= i < cs.len() ==> valid_component(cs[i])
}

/// `root` is a component-wise prefix of `p`: the containment relation of
/// the served root. Comparing components, not raw strings, is what keeps
/// `/srv/site` from claiming `/srv/site-secrets`.
pub open spec fn is_path_prefix(root: Seq<Seq<char>>, p: Seq<Seq<char>>) -> bool {
    &&& root.len() <= p.len()
    &&& forall|i: int| 0 <= i < root.len() ==> p[i] == root[i]
}

/// The textual form of a canonical path: a separator before each
/// component. The empty path renders as the empty string, to which a
/// caller-side join adds the root separator.
pub open spec fn path_string_of(cs: Seq<Seq<char>>) -> Seq<char>
    decreases cs.len(),
{
    if cs.len() == 0 {
        Seq::<char>::empty()
    } else {
        path_string_of(cs.drop_last()) + "/"@ + cs.last()
    }
}

/// An absolute, canonicalized path, stored as its components in order.
/// The empty sequence stands for the filesystem root `/`.
pub struct CanonPath {
    components: Vec<String>,
}

impl View for CanonPath {
    type V = Seq<Seq<char>>;

    closed spec fn view(&self) -> Seq<Seq<char>> {
        self.components.deep_view()
    }
}

/// Decides `valid_component(s@)`.
fn component_ok(s: &String) -> (b: bool)
    ensures
        b == valid_component(s@),
{
    proof {
        reveal_strlit(".");
        reveal_strlit("..");
    }
    let n = s.as_str().unicode_len();
    if n == 0 {
        return false;
    }
    if n == 1 && s.as_str().get_char(0) == '.' {
        proof {
            assert(s@ =~= "."@);
        }
        return false;
    }
    if n == 2 && s.as_str().get_char(0) == '.' && s.as_str().get_char(1) == '.' {
        proof {
            assert(s@ =~= ".."@);
        }
        return false;
    }
    let mut i: usize = 0;
    while i < n
        invariant
            i <= n,
            n == s@.len(),
            forall|j: int| 0 <= j < i ==> s@[j] != '/',
        decreases n - i,
    {
        if s.as_str().get_char(i) == '/' {
            return false;
        }
        i += 1;
    }
    proof {
        assert(s@ != "."@);
        assert(s@ != ".."@);
    }
    true
}

impl CanonPath {
    /// Every value of the type consists of valid components only.
    pub open spec fn wf(&self) -> bool {
        all_components_valid(self@)
    }

    /// Builds a canonical path from its components, rejecting any
    /// sequence that a canonicalized path could not have.
    pub fn from_components(cs: Vec<String>) -> (r: Option<CanonPath>)
        ensures
            r matches Some(p) ==> p@ == cs.deep_view() && p.wf(),
            r is Some <==> all_components_valid(cs.deep_view()),
    {
        let mut i: usize = 0;
        while i < cs.len()
            invariant
                i <= cs.len(),
                forall|j: int| 0 <= j < i ==> valid_component(cs.deep_view()[j]),
            decreases cs.len() - i,
        {
            if !component_ok(&cs[i]) {
                proof {
                    assert(cs.deep_view()[i as int] == cs@[i as int]@);
                    assert(!valid_component(cs.deep_view()[i as int]));
                }
                return None;
            }
            proof {
                assert(cs.deep_view()[i as int] == cs@[i as int]@);
            }
            i += 1;
        }
        Some(CanonPath { components: cs })
    }

    /// The components, for callers that must hand the path to the
    /// filesystem.
    pub fn components(&self) -> (r: &Vec<String>)
        ensures
            r.deep_view() == self@,
    {
        &self.components
    }

    /// The final component, the file name of a resolved path.
    pub fn last_component(&self) -> (r: Option<&String>)
        ensures
            match r {
                Some(s) => self@.len() > 0 && s@ == self@.last(),
                None => self@.len() == 0,
            },
    {
        if self.components.len() == 0 {
            None
        } else {
            Some(&self.components[self.components.len() - 1])
        }
    }

    /// Renders the path with a separator before each component, the
    /// form the filesystem is asked to read.
    pub fn to_path_string(&self) -> (r: String)
        ensures
            r@ == path_string_of(self@),
    {
        let mut s = String::new();
        let mut i: usize = 0;
        while i < self.components.len()
            invariant
                i <= self.components.len(),
                self@.len() == self.components.len(),
                s@ == path_string_of(self@.take(i as int)),
            decreases self.components.len() - i,
        {
            s.append("/");
            s.append(self.components[i].as_str());
            proof {
                let t = self@.take(i as int + 1);
                assert(t.drop_last() =~= self@.take(i as int));
                assert(t.last() == self@[i as int]);
                assert(self@[i as int] == self.components@[i as int]@);
            }
            i += 1;
        }
        proof {
            assert(self@.take(self@.len() as int) =~= self@);
        }
        s
    }

    /// Decides the containment relation `is_path_prefix(root@, self@)`.
    pub fn is_contained_in(&self, root: &CanonPath) -> (b: bool)
        ensures
            b == is_path_prefix(root@, self@),
    {
        if root.components.len() > self.components.len() {
            return false;
        }
        let mut i: usize = 0;
        while i < root.components.len()
            invariant
                i <= root@.len(),
                root@.len() == root.components.len(),
                self@.len() == self.components.len(),
                root@.len() <= self@.len(),
                forall|j: int| 0 <= j < i ==> self@[j] == root@[j],
            decreases root@.len() - i,
        {
            if !(self.components[i] == root.components[i]) {
                proof {
                    assert(self@[i as int] == self.components@[i as int]@);
                    assert(root@[i as int] == root.components@[i as int]@);
                    assert(self@[i as int] != root@[i as int]);
                }
                return false;
            }
            proof {
                assert(self@[i as int] == self.components@[i as int]@);
                assert(root@[i as int] == root.components@[i as int]@);
            }
            i += 1;
        }
        true
    }
}

} // verus!
