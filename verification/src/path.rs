//! Paths of files.

use vstd::prelude::*;

verus! {

/// A part of a path.
#[derive(PartialEq, Eq, Hash, Debug)]
pub enum PathComponent {
    /// What stands before the root on some systems, such as a drive.
    Prefix(Vec<u8>),
    RootDir,
    CurDir,
    ParentDir,
    Normal(Vec<u8>),
}

/// A part of a path, as a value.
pub enum ComponentView {
    Prefix(Seq<u8>),
    RootDir,
    CurDir,
    ParentDir,
    Normal(Seq<u8>),
}

impl View for PathComponent {
    type V = ComponentView;

    open spec fn view(&self) -> ComponentView {
        match self {
            PathComponent::Prefix(name) => ComponentView::Prefix(name@),
            PathComponent::RootDir => ComponentView::RootDir,
            PathComponent::CurDir => ComponentView::CurDir,
            PathComponent::ParentDir => ComponentView::ParentDir,
            PathComponent::Normal(name) => ComponentView::Normal(name@),
        }
    }
}

/// A path, as the components it is made of. Two paths are the same if their components are, however
/// they are written: a separator at the end, or two in place of one, make no difference.
#[derive(PartialEq, Eq, Hash, Debug)]
pub struct FilePath {
    pub components: Vec<PathComponent>,
}

impl View for FilePath {
    type V = Seq<ComponentView>;

    open spec fn view(&self) -> Seq<ComponentView> {
        self.components@.map_values(|component: PathComponent| component@)
    }
}

/// Whether two names are the same.
fn same_name(a: &Vec<u8>, b: &Vec<u8>) -> (same: bool)
    ensures
        same == (a@ == b@),
{
    if a.len() != b.len() {
        return false;
    }
    let mut i: usize = 0;
    while i < a.len()
        invariant
            i <= a.len(),
            a.len() == b.len(),
            forall|k: int| 0 <= k < i ==> a@[k] == b@[k],
        decreases a.len() - i,
    {
        if a[i] != b[i] {
            return false;
        }
        i = i + 1;
    }
    proof {
        assert(a@ =~= b@);
    }
    true
}

/// Whether two components are the same.
fn same_component(a: &PathComponent, b: &PathComponent) -> (same: bool)
    ensures
        same == (a@ == b@),
{
    match (a, b) {
        (PathComponent::Prefix(a), PathComponent::Prefix(b)) => same_name(a, b),
        (PathComponent::RootDir, PathComponent::RootDir) => true,
        (PathComponent::CurDir, PathComponent::CurDir) => true,
        (PathComponent::ParentDir, PathComponent::ParentDir) => true,
        (PathComponent::Normal(a), PathComponent::Normal(b)) => same_name(a, b),
        _ => false,
    }
}

impl FilePath {
    /// Whether two paths are the same.
    pub fn same(&self, other: &FilePath) -> (same: bool)
        ensures
            same == (self@ == other@),
    {
        if self.components.len() != other.components.len() {
            proof {
                assert(self@.len() != other@.len());
            }
            return false;
        }
        let mut i: usize = 0;
        while i < self.components.len()
            invariant
                i <= self.components.len(),
                self.components.len() == other.components.len(),
                forall|k: int| 0 <= k < i ==> self@[k] == other@[k],
            decreases self.components.len() - i,
        {
            if !same_component(&self.components[i], &other.components[i]) {
                proof {
                    assert(self@[i as int] != other@[i as int]);
                }
                return false;
            }
            i = i + 1;
        }
        proof {
            assert(self@ =~= other@);
        }
        true
    }
}

/// Two paths are the same exactly if they have as many components and each is of the same kind as
/// its counterpart, with the same name if it has one.
pub proof fn law_same_paths_have_the_same_components(a: FilePath, b: FilePath)
    ensures
        a@ == b@ <==> {
            &&& a.components@.len() == b.components@.len()
            &&& forall|i: int|
                0 <= i < a.components@.len() ==> match (
                    #[trigger] a.components@[i],
                    b.components@[i],
                ) {
                    (PathComponent::Prefix(x), PathComponent::Prefix(y)) => x@ == y@,
                    (PathComponent::Normal(x), PathComponent::Normal(y)) => x@ == y@,
                    (PathComponent::RootDir, PathComponent::RootDir) => true,
                    (PathComponent::CurDir, PathComponent::CurDir) => true,
                    (PathComponent::ParentDir, PathComponent::ParentDir) => true,
                    _ => false,
                }
        },
{
    assert(a@.len() == a.components@.len());
    assert(b@.len() == b.components@.len());
    if a@ == b@ {
        assert forall|i: int| 0 <= i < a.components@.len() implies a.components@[i]@
            == b.components@[i]@ by {
            assert(a@[i] == b@[i]);
        }
    }
    if a.components@.len() == b.components@.len() && forall|i: int|
        0 <= i < a.components@.len() ==> match (#[trigger] a.components@[i], b.components@[i]) {
            (PathComponent::Prefix(x), PathComponent::Prefix(y)) => x@ == y@,
            (PathComponent::Normal(x), PathComponent::Normal(y)) => x@ == y@,
            (PathComponent::RootDir, PathComponent::RootDir) => true,
            (PathComponent::CurDir, PathComponent::CurDir) => true,
            (PathComponent::ParentDir, PathComponent::ParentDir) => true,
            _ => false,
        } {
        assert forall|i: int| 0 <= i < a@.len() implies a@[i] == b@[i] by {
            assert(a.components@[i]@ == b.components@[i]@);
        }
        assert(a@ =~= b@);
    }
}

} // verus!
