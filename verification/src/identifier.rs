//! Canonical identity of a declared foreign type: an ordered sequence of
//! namespace segments followed by a final name. Two identifiers are equal
//! exactly when their full qualified paths match.

use vstd::prelude::*;

verus! {

/// Mathematical value of a [`TypeIdentifier`]: the namespace segments and the
/// final name, each as a sequence of characters.
#[verifier::ext_equal]
pub ghost struct IdView {
    pub namespace: Seq<Seq<char>>,
    pub name: Seq<char>,
}

/// Identity of one declared type, the sole key into the safety store.
#[derive(Debug)]
pub struct TypeIdentifier {
    pub namespace: Vec<String>,
    pub name: String,
}

impl View for TypeIdentifier {
    type V = IdView;

    open spec fn view(&self) -> IdView {
        IdView { namespace: self.namespace.deep_view(), name: self.name@ }
    }
}

impl DeepView for TypeIdentifier {
    type V = IdView;

    open spec fn deep_view(&self) -> IdView {
        self.view()
    }
}

impl TypeIdentifier {
    /// An identifier under the given namespace segments.
    pub fn new(namespace: Vec<String>, name: String) -> (r: Self)
        ensures
            r@ == (IdView { namespace: namespace.deep_view(), name: name@ }),
    {
        TypeIdentifier { namespace, name }
    }

    /// An identifier in the root namespace, as user configuration writes it.
    pub fn root(name: String) -> (r: Self)
        ensures
            r@ == (IdView { namespace: Seq::<Seq<char>>::empty(), name: name@ }),
    {
        let r = TypeIdentifier { namespace: Vec::new(), name };
        proof {
            assert(r@.namespace =~= Seq::<Seq<char>>::empty());
        }
        r
    }

    /// Whether two identifiers name the same fully qualified path.
    pub fn same_path(&self, other: &Self) -> (r: bool)
        ensures
            r == (self@ == other@),
    {
        if !(self.name == other.name) {
            proof {
                assert(self@.name != other@.name);
            }
            return false;
        }
        if self.namespace.len() != other.namespace.len() {
            proof {
                assert(self@.namespace.len() != other@.namespace.len());
            }
            return false;
        }
        let n = self.namespace.len();
        let mut i: usize = 0;
        while i < n
            invariant
                n == self.namespace.len(),
                n == other.namespace.len(),
                i <= n,
                forall|j: int| 0 <= j < i ==> self@.namespace[j] == other@.namespace[j],
            decreases n - i,
        {
            if !(self.namespace[i] == other.namespace[i]) {
                proof {
                    assert(self@.namespace[i as int] != other@.namespace[i as int]);
                }
                return false;
            }
            i += 1;
        }
        proof {
            assert(self@.namespace =~= other@.namespace);
            assert(self@ =~= other@);
        }
        true
    }
}

/// The paths named by a list of identifiers, in order.
pub open spec fn ids_view(s: Seq<TypeIdentifier>) -> Seq<IdView> {
    s.map_values(|t: TypeIdentifier| t@)
}

/// A vector of identifiers views deeply to the paths of its elements.
pub proof fn lemma_ids_view_deep(v: &Vec<TypeIdentifier>)
    ensures
        v.deep_view() == ids_view(v@),
{
    assert forall|j: int| 0 <= j < v@.len() implies v.deep_view()[j] == ids_view(v@)[j] by {
        assert(v.deep_view()[j] == v@[j]@);
    }
    assert(v.deep_view() =~= ids_view(v@));
}

pub proof fn lemma_ids_view_push(s: Seq<TypeIdentifier>, t: TypeIdentifier)
    ensures
        ids_view(s.push(t)) == ids_view(s).push(t@),
{
    assert(ids_view(s.push(t)) =~= ids_view(s).push(t@));
}

pub proof fn lemma_ids_view_drop_last(s: Seq<TypeIdentifier>)
    requires
        s.len() > 0,
    ensures
        ids_view(s.drop_last()) == ids_view(s).drop_last(),
{
    assert(ids_view(s.drop_last()) =~= ids_view(s).drop_last());
}

/// Copies a list of identifiers, preserving every path.
pub fn clone_identifiers(v: &Vec<TypeIdentifier>) -> (r: Vec<TypeIdentifier>)
    ensures
        r.deep_view() == v.deep_view(),
{
    let mut r: Vec<TypeIdentifier> = Vec::new();
    let n = v.len();
    let mut i: usize = 0;
    while i < n
        invariant
            n == v@.len(),
            i <= n,
            r@.len() == i,
            forall|j: int| 0 <= j < i ==> r@[j]@ == v@[j]@,
        decreases n - i,
    {
        r.push(v[i].clone());
        i += 1;
    }
    proof {
        assert forall|j: int| 0 <= j < v@.len() implies r.deep_view()[j] == v.deep_view()[j] by {
            assert(r@[j]@ == v@[j]@);
        }
        assert(r.deep_view() =~= v.deep_view());
    }
    r
}

impl Clone for TypeIdentifier {
    /// The clone names the same fully qualified path.
    fn clone(&self) -> (r: Self)
        ensures
            r@ == self@,
    {
        let namespace = self.namespace.clone();
        let name = self.name.clone();
        proof {
            assert(namespace.deep_view() =~= self.namespace.deep_view());
        }
        let r = TypeIdentifier { namespace, name };
        proof {
            assert(r@ =~= self@);
        }
        r
    }
}

} // verus!
