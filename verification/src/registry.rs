//! The type registry: an immutable, ordered collection of named variants,
//! each carrying its precomputed discriminator, built once from a finalized
//! list of type names.

use vstd::prelude::*;

verus! {

use crate::discriminator::derive_discriminator;
use crate::discriminator::spec_discriminator;
use crate::discriminator::Namespace;

/// One registered payload type: its name bound to its precomputed
/// discriminator.
#[derive(Clone, Debug)]
pub struct Variant {
    /// The declared type name.
    pub name: String,
    /// The discriminator derived from the name under the registry's
    /// namespace.
    pub discriminator: [u8; 8],
}

/// A construction-time defect in the name list handed to [`TaggedUnion::build`].
#[derive(Clone, Debug, PartialEq, Eq)]
pub enum BuildError {
    /// Two entries share a type name.
    DuplicateName {
        /// The name that occurs twice.
        name: String,
    },
    /// Two distinctly named entries share a discriminator.
    DuplicateDiscriminator {
        /// The earlier of the two colliding names, in declaration order.
        first: String,
        /// The later of the two colliding names.
        second: String,
    },
}

/// A name-based or tag-based registry query found no variant.
#[derive(Clone, Copy, Debug, PartialEq, Eq, Structural)]
pub enum LookupError {
    /// No registered variant carries the queried name.
    UnknownName,
    /// No registered variant carries the queried discriminator.
    UnknownDiscriminator,
}

/// An immutable, ordered registry of variants for one namespace family.
///
/// Built once by [`TaggedUnion::build`]; no insert or remove operation is
/// exposed afterward.
#[derive(Clone, Debug)]
pub struct TaggedUnion {
    namespace: Namespace,
    variants: Vec<Variant>,
}

impl View for TaggedUnion {
    type V = Seq<Variant>;

    closed spec fn view(&self) -> Seq<Variant> {
        self.variants@
    }
}

/// The views of a list of names.
pub open spec fn seq_views(names: Seq<String>) -> Seq<Seq<char>> {
    names.map_values(|n: String| n@)
}

/// Whether two entries of the list share a name.
pub open spec fn has_duplicate_name(names: Seq<Seq<char>>) -> bool {
    exists|i: int, j: int| 0 <= i < j < names.len() && names[i] == names[j]
}

/// Whether two distinctly named entries of the list share a discriminator.
pub open spec fn has_colliding_discriminator(ns: Namespace, names: Seq<Seq<char>>) -> bool {
    exists|i: int, j: int|
        0 <= i < j < names.len() && names[i] != names[j] && spec_discriminator(ns, names[i])
            == spec_discriminator(ns, names[j])
}

impl TaggedUnion {
    /// The namespace the registry was built for.
    pub closed spec fn spec_namespace(self) -> Namespace {
        self.namespace
    }

    /// Well-formedness: every variant's discriminator is derived from its
    /// name under the registry's namespace, and both names and
    /// discriminators are pairwise distinct.
    pub open spec fn wf(self) -> bool {
        &&& forall|i: int|
            0 <= i < self@.len() ==> (#[trigger] self@[i]).discriminator@ == spec_discriminator(
                self.spec_namespace(),
                self@[i].name@,
            )
        &&& forall|i: int, j: int|
            0 <= i < j < self@.len() ==> #[trigger] self@[i].name@ != #[trigger] self@[j].name@
        &&& forall|i: int, j: int|
            0 <= i < j < self@.len() ==> #[trigger] self@[i].discriminator@
                != #[trigger] self@[j].discriminator@
    }

    /// Whether the variant at index `i` carries `name`.
    pub open spec fn name_matches_at(self, name: Seq<char>, i: int) -> bool {
        0 <= i < self@.len() && self@[i].name@ == name
    }

    /// Whether the variant at index `i` carries the discriminator `tag`.
    pub open spec fn tag_matches_at(self, tag: Seq<u8>, i: int) -> bool {
        0 <= i < self@.len() && self@[i].discriminator@ == tag
    }

    /// Whether `i` is the first index whose variant carries `name`.
    pub open spec fn first_name_match(self, name: Seq<char>, i: int) -> bool {
        self.name_matches_at(name, i) && forall|j: int|
            0 <= j < i ==> !self.name_matches_at(name, j)
    }

    /// Whether `i` is the first index whose variant carries the
    /// discriminator `tag`.
    pub open spec fn first_tag_match(self, tag: Seq<u8>, i: int) -> bool {
        self.tag_matches_at(tag, i) && forall|j: int| 0 <= j < i ==> !self.tag_matches_at(tag, j)
    }

    /// The number of registered variants.
    pub fn len(&self) -> (n: usize)
        ensures
            n == self@.len(),
    {
        self.variants.len()
    }

    /// The namespace the registry was built for.
    pub fn namespace(&self) -> (ns: Namespace)
        ensures
            ns == self.spec_namespace(),
    {
        self.namespace
    }

    /// The registered variant at index `i`, in declaration order.
    pub fn variant_at(&self, i: usize) -> (v: &Variant)
        requires
            i < self@.len(),
        ensures
            *v == self@[i as int],
    {
        &self.variants[i]
    }

    /// Builds the registry for namespace `ns` from the finalized, ordered
    /// name list, deriving each name's discriminator.
    ///
    /// Construction is rejected if two entries share a name, or if two
    /// distinctly named entries share a discriminator; the latter would
    /// otherwise let declaration order silently mask a hash collision.
    pub fn build(ns: Namespace, names: Vec<String>) -> (r: Result<TaggedUnion, BuildError>)
        ensures
            (r matches Ok(tu)) <==> (!has_duplicate_name(seq_views(names@))
                && !has_colliding_discriminator(ns, seq_views(names@))),
            (r matches Err(BuildError::DuplicateName { .. })) <==> has_duplicate_name(
                seq_views(names@),
            ),
            (r matches Err(BuildError::DuplicateDiscriminator { .. })) <==> (!has_duplicate_name(
                seq_views(names@),
            ) && has_colliding_discriminator(ns, seq_views(names@))),
            r matches Ok(tu) ==> {
                &&& tu.wf()
                &&& tu.spec_namespace() == ns
                &&& tu@.len() == names@.len()
                &&& forall|i: int| 0 <= i < names@.len() ==> (#[trigger] tu@[i]).name@ == names@[i]@
            },
            r matches Err(BuildError::DuplicateName { name }) ==> exists|i: int, j: int|
                0 <= i < j < names@.len() && names@[i]@ == names@[j]@ && name@ == names@[j]@,
            r matches Err(BuildError::DuplicateDiscriminator { first, second }) ==> exists|
                i: int,
                j: int,
            |
                0 <= i < j < names@.len() && names@[i]@ != names@[j]@ && spec_discriminator(
                    ns,
                    names@[i]@,
                ) == spec_discriminator(ns, names@[j]@) && first@ == names@[i]@ && second@
                    == names@[j]@,
    {
        let n = names.len();
        for k in 0..n
            invariant
                n == names@.len(),
                forall|i: int, j: int| 0 <= i < j < k ==> names@[i]@ != names@[j]@,
        {
            for j in 0..k
                invariant
                    n == names@.len(),
                    k < n,
                    forall|i: int, j2: int| 0 <= i < j2 < k ==> names@[i]@ != names@[j2]@,
                    forall|j2: int| 0 <= j2 < j ==> names@[j2]@ != names@[k as int]@,
            {
                if names[j] == names[k] {
                    assert(seq_views(names@)[j as int] == seq_views(names@)[k as int]);
                    return Err(BuildError::DuplicateName { name: names[k].clone() });
                }
            }
        }
        let mut variants: Vec<Variant> = Vec::new();
        for k in 0..n
            invariant
                n == names@.len(),
                variants@.len() == k,
                forall|i: int|
                    0 <= i < k ==> (#[trigger] variants@[i]).name@ == names@[i]@
                        && variants@[i].discriminator@ == spec_discriminator(ns, names@[i]@),
        {
            let d = derive_discriminator(ns, names[k].as_str());
            variants.push(Variant { name: names[k].clone(), discriminator: d });
        }
        let n2 = variants.len();
        for k in 0..n2
            invariant
                n == names@.len(),
                n2 == n,
                variants@.len() == n,
                forall|i: int, j: int| 0 <= i < j < n ==> names@[i]@ != names@[j]@,
                forall|i: int|
                    0 <= i < n ==> (#[trigger] variants@[i]).name@ == names@[i]@
                        && variants@[i].discriminator@ == spec_discriminator(ns, names@[i]@),
                forall|i: int, j: int|
                    0 <= i < j < k ==> #[trigger] variants@[i].discriminator@
                        != #[trigger] variants@[j].discriminator@,
        {
            for j in 0..k
                invariant
                    n == names@.len(),
                    n2 == n,
                    k < n,
                    variants@.len() == n,
                    forall|i: int, j2: int| 0 <= i < j2 < n ==> names@[i]@ != names@[j2]@,
                    forall|i: int|
                        0 <= i < n ==> (#[trigger] variants@[i]).name@ == names@[i]@
                            && variants@[i].discriminator@ == spec_discriminator(ns, names@[i]@),
                    forall|j2: int|
                        0 <= j2 < j ==> #[trigger] variants@[j2].discriminator@
                            != variants@[k as int].discriminator@,
            {
                if discrim_eq(&variants[j].discriminator, &variants[k].discriminator) {
                    assert(seq_views(names@)[j as int] == names@[j as int]@);
                    assert(seq_views(names@)[k as int] == names@[k as int]@);
                    return Err(
                        BuildError::DuplicateDiscriminator {
                            first: variants[j].name.clone(),
                            second: variants[k].name.clone(),
                        },
                    );
                }
            }
        }
        assert(!has_duplicate_name(seq_views(names@))) by {
            assert(forall|i: int|
                0 <= i < n ==> #[trigger] seq_views(names@)[i] == names@[i]@);
        }
        assert(!has_colliding_discriminator(ns, seq_views(names@))) by {
            assert(forall|i: int|
                0 <= i < n ==> #[trigger] seq_views(names@)[i] == names@[i]@);
            assert forall|i: int, j: int|
                0 <= i < j < n && seq_views(names@)[i] != seq_views(names@)[j] implies
                spec_discriminator(ns, seq_views(names@)[i]) != spec_discriminator(
                ns,
                seq_views(names@)[j],
            ) by {
                assert(variants@[i].discriminator@ == spec_discriminator(ns, names@[i]@));
                assert(variants@[j].discriminator@ == spec_discriminator(ns, names@[j]@));
            }
        }
        Ok(TaggedUnion { namespace: ns, variants })
    }

    /// Returns the precomputed discriminator of the registered variant
    /// carrying `name`, or `UnknownName` if no variant does.
    ///
    /// No hash is recomputed for arbitrary input: only discriminators of
    /// registered names are ever returned.
    pub fn name_to_discrim(&self, name: &str) -> (r: Result<[u8; 8], LookupError>)
        ensures
            (r matches Ok(d)) <==> exists|i: int| self.name_matches_at(name@, i),
            r matches Ok(d) ==> exists|i: int|
                #[trigger] self.first_name_match(name@, i) && d@ == self@[i].discriminator@,
            r matches Err(e) ==> e == LookupError::UnknownName,
    {
        let needle: String = name.to_owned();
        let n = self.variants.len();
        for i in 0..n
            invariant
                n == self@.len(),
                needle@ == name@,
                forall|j: int| 0 <= j < i ==> !self.name_matches_at(name@, j),
        {
            if self.variants[i].name == needle {
                assert(self.first_name_match(name@, i as int));
                return Ok(self.variants[i].discriminator);
            }
        }
        Err(LookupError::UnknownName)
    }

    /// Returns the name of the registered variant carrying the
    /// discriminator `discrim`, or `UnknownDiscriminator` if no variant
    /// does.
    pub fn discrim_to_name(&self, discrim: [u8; 8]) -> (r: Result<String, LookupError>)
        ensures
            (r matches Ok(s)) <==> exists|i: int| self.tag_matches_at(discrim@, i),
            r matches Ok(s) ==> exists|i: int|
                #[trigger] self.first_tag_match(discrim@, i) && s@ == self@[i].name@,
            r matches Err(e) ==> e == LookupError::UnknownDiscriminator,
    {
        let n = self.variants.len();
        for i in 0..n
            invariant
                n == self@.len(),
                forall|j: int| 0 <= j < i ==> !self.tag_matches_at(discrim@, j),
        {
            if discrim_eq(&self.variants[i].discriminator, &discrim) {
                assert(self.first_tag_match(discrim@, i as int));
                return Ok(self.variants[i].name.clone());
            }
        }
        Err(LookupError::UnknownDiscriminator)
    }
}

/// Byte-for-byte equality of two discriminators.
pub fn discrim_eq(a: &[u8; 8], b: &[u8; 8]) -> (r: bool)
    ensures
        r == (a@ == b@),
{
    let r = a[0] == b[0] && a[1] == b[1] && a[2] == b[2] && a[3] == b[3] && a[4] == b[4] && a[5]
        == b[5] && a[6] == b[6] && a[7] == b[7];
    proof {
        if r {
            assert(a@ =~= b@);
        }
    }
    r
}

/// Law: within one well-formed registry, distinct variants carry pairwise
/// distinct names and pairwise distinct discriminators.
pub proof fn lemma_registry_tags_distinct(tu: TaggedUnion, i: int, j: int)
    requires
        tu.wf(),
        0 <= i < tu@.len(),
        0 <= j < tu@.len(),
        i != j,
    ensures
        tu@[i].name@ != tu@[j].name@,
        tu@[i].discriminator@ != tu@[j].discriminator@,
{
}

} // verus!
