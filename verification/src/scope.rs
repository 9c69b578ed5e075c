//! A model of the GUI runtime's filesystem-access scope: the permission
//! records that decide which paths the runtime's file-access capability may
//! touch.
//!
//! A grant either names one directory path exactly or is the wildcard `*`,
//! which matches every path.  The bootstrapper makes a single wildcard,
//! non-recursive grant during setup.

use vstd::prelude::*;

verus! {

/// The wildcard path pattern: a grant with this path matches every path.
pub open spec fn wildcard() -> Seq<char> {
    "*"@
}

/// One permission record in the filesystem-access scope.
#[derive(Debug)]
pub struct ScopeGrant {
    /// The granted path, or the wildcard `*`.
    pub path: String,
    /// Whether a concrete directory grant extends to its subtree.  The
    /// bootstrapper's wildcard grant sets this to `false`: the wildcard
    /// itself already matches any path and asks for no recursive expansion.
    pub recursive: bool,
}

impl ScopeGrant {
    /// Whether this grant is the wildcard grant.
    pub open spec fn is_wildcard(self) -> bool {
        self.path@ == wildcard()
    }

    /// Whether this grant covers `path`: it is the wildcard, or it names
    /// `path` itself.
    pub open spec fn covers(self, path: Seq<char>) -> bool {
        self.is_wildcard() || self.path@ == path
    }
}

/// Builds the one grant the bootstrapper makes during setup: wildcard path,
/// non-recursive.
pub fn wildcard_grant() -> (g: ScopeGrant)
    ensures
        g.is_wildcard(),
        !g.recursive,
{
    ScopeGrant { path: "*".to_owned(), recursive: false }
}

/// The filesystem-access scope: the grants made so far, in the order they
/// were made.  It starts empty; grants are only ever added, never revoked or
/// narrowed.
pub struct FsScope {
    grants: Vec<ScopeGrant>,
}

impl View for FsScope {
    type V = Seq<ScopeGrant>;

    closed spec fn view(&self) -> Seq<ScopeGrant> {
        self.grants@
    }
}

impl FsScope {
    /// Whether the scope allows `path`: some grant covers it.
    pub open spec fn spec_allows(self, path: Seq<char>) -> bool {
        exists|i: int| 0 <= i < self@.len() && self@[i].covers(path)
    }

    /// A fresh scope allows nothing.
    pub fn new() -> (s: FsScope)
        ensures
            s@ == Seq::<ScopeGrant>::empty(),
    {
        FsScope { grants: Vec::new() }
    }

    /// Records a grant for `path`.  Existing grants are kept unchanged: a
    /// grant is never narrowed by a later one.
    pub fn allow_directory(&mut self, path: String, recursive: bool)
        ensures
            final(self)@ == old(self)@.push((ScopeGrant { path, recursive })),
    {
        self.grants.push(ScopeGrant { path, recursive });
    }

    /// Queries the scope: is `path` allowed?
    pub fn allows(&self, path: &String) -> (b: bool)
        ensures
            b == self.spec_allows(path@),
    {
        let star: String = "*".to_owned();
        let n: usize = self.grants.len();
        let mut i: usize = 0;
        while i < n
            invariant
                n == self@.len(),
                0 <= i <= n,
                star@ == wildcard(),
                forall|j: int| 0 <= j < i ==> !self@[j].covers(path@),
            decreases n - i,
        {
            let g = &self.grants[i];
            if g.path == star || g.path == *path {
                return true;
            }
            i += 1;
        }
        false
    }
}

/// Law: the wildcard grant is never narrowed.  A scope that holds a wildcard
/// grant anywhere allows every path, whatever else it holds.
pub proof fn lemma_wildcard_allows_all(s: FsScope, path: Seq<char>)
    requires
        exists|i: int| 0 <= i < s@.len() && s@[i].is_wildcard(),
    ensures
        s.spec_allows(path),
{
    let i = choose|i: int| 0 <= i < s@.len() && s@[i].is_wildcard();
    assert(s@[i].covers(path));
}

/// Law: granting never revokes.  A path allowed before a grant is still
/// allowed after it.
pub proof fn lemma_grant_preserves_allowed(
    before: FsScope,
    after: FsScope,
    g: ScopeGrant,
    path: Seq<char>,
)
    requires
        after@ == before@.push(g),
        before.spec_allows(path),
    ensures
        after.spec_allows(path),
{
    let i = choose|i: int| 0 <= i < before@.len() && before@[i].covers(path);
    assert(after@[i].covers(path));
}

} // verus!
