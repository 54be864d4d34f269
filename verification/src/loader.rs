//! Merging the three groups of the catalogue into one map from atom name
//! to what is expected of the atom.

use vstd::prelude::*;
use vstd::hash_map::StringHashMap;
use crate::model::{AtomSpec, AtomSpecView, Category, CurvatureSpec, CurvatureSpecView};
use crate::oracle::str_eq;

verus! {

/// The entries of one group, as pairs of a name and what it stands for.
pub type Group = Vec<(String, AtomSpec)>;

/// Mathematical value of a [`Group`].
pub type GroupView = Seq<(Seq<char>, AtomSpecView)>;

/// Mathematical value of the merged map.
pub type MergedView = Map<Seq<char>, (AtomSpecView, Category)>;

/// The catalogue as it was read: one list of named entries per category.
/// Within a list a later entry replaces an earlier one of the same name.
#[derive(Debug)]
pub struct Catalogue {
    pub affine_atoms: Group,
    pub convex_atoms: Group,
    pub concave_atoms: Group,
}

/// Mathematical value of a [`Catalogue`].
pub struct CatalogueView {
    pub affine_atoms: GroupView,
    pub convex_atoms: GroupView,
    pub concave_atoms: GroupView,
}

/// The entries of a group by their values.
pub open spec fn group_view(group: Seq<(String, AtomSpec)>) -> GroupView {
    group.map_values(|e: (String, AtomSpec)| (e.0@, e.1@))
}

impl View for Catalogue {
    type V = CatalogueView;

    open spec fn view(&self) -> CatalogueView {
        CatalogueView {
            affine_atoms: group_view(self.affine_atoms@),
            convex_atoms: group_view(self.convex_atoms@),
            concave_atoms: group_view(self.concave_atoms@),
        }
    }
}

/// The curvature an entry has once its category is taken into account.
/// The convex and the concave group force their symbol. The affine group
/// fills in its symbol where the entry's own curvature is unresolved: where
/// it is absent, a composite rule, or the symbol `unknown` itself.
pub open spec fn normalized_curvature(
    declared: CurvatureSpecView,
    category: Category,
) -> CurvatureSpecView {
    match category {
        Category::Affine => if declared.symbol() == "unknown"@ {
            CurvatureSpecView::Simple("affine"@)
        } else {
            declared
        },
        Category::Convex => CurvatureSpecView::Simple("convex"@),
        Category::Concave => CurvatureSpecView::Simple("concave"@),
    }
}

/// An entry with its curvature normalized for the category; the other
/// fields are kept.
pub open spec fn normalized(spec: AtomSpecView, category: Category) -> AtomSpecView {
    AtomSpecView { curvature: normalized_curvature(spec.curvature, category), ..spec }
}

/// The map after the entries of one group were inserted into `base`, one
/// after the other.
pub open spec fn merge_group(base: MergedView, group: GroupView, category: Category) -> MergedView
    decreases group.len(),
{
    if group.len() == 0 {
        base
    } else {
        merge_group(base, group.drop_last(), category).insert(
            group.last().0,
            (normalized(group.last().1, category), category),
        )
    }
}

/// The merged map: the affine group is inserted first, then the convex
/// group, then the concave group, so that the group inserted last decides
/// a name that several groups declare.
pub open spec fn merged(catalogue: CatalogueView) -> MergedView {
    merge_group(
        merge_group(
            merge_group(Map::empty(), catalogue.affine_atoms, Category::Affine),
            catalogue.convex_atoms,
            Category::Convex,
        ),
        catalogue.concave_atoms,
        Category::Concave,
    )
}

/// What a group declares for a name: its last entry of that name.
pub open spec fn declared_in(group: GroupView, name: Seq<char>) -> Option<AtomSpecView>
    decreases group.len(),
{
    if group.len() == 0 {
        None
    } else if group.last().0 == name {
        Some(group.last().1)
    } else {
        declared_in(group.drop_last(), name)
    }
}

/// The entries of a map by their values.
pub open spec fn entries_view(entries: Map<Seq<char>, (AtomSpec, Category)>) -> MergedView {
    Map::new(
        |name: Seq<char>| entries.contains_key(name),
        |name: Seq<char>| (entries[name].0@, entries[name].1),
    )
}

/// The merged catalogue: for each declared atom what is expected of it and
/// the category that decided.
pub struct MergedSpecs {
    entries: StringHashMap<(AtomSpec, Category)>,
}

impl View for MergedSpecs {
    type V = MergedView;

    closed spec fn view(&self) -> MergedView {
        entries_view(self.entries@)
    }
}

impl MergedSpecs {
    #[verifier::type_invariant]
    spec fn finitely_many(self) -> bool {
        self.entries@.dom().finite()
    }

    /// The number of atoms the merged catalogue declares.
    pub fn len(&self) -> (count: usize)
        ensures
            count == self@.len(),
            self@.dom().finite(),
    {
        proof {
            use_type_invariant(self);
            assert(self@.dom() =~= self.entries@.dom());
        }
        self.entries.len()
    }

    /// What is expected of the named atom, with its category, or nothing
    /// where the catalogue does not declare the name.
    pub fn get(&self, name: &str) -> (found: Option<(&AtomSpec, Category)>)
        ensures
            match found {
                Some((spec, category)) => self@.contains_key(name@) && self@[name@] == (
                    spec@,
                    category,
                ),
                None => !self@.contains_key(name@),
            },
    {
        match self.entries.get(name) {
            Some(entry) => Some((&entry.0, entry.1)),
            None => None,
        }
    }
}

fn normalize(spec: &AtomSpec, category: Category) -> (out: AtomSpec)
    ensures
        out@ == normalized(spec@, category),
{
    let curvature = match category {
        Category::Affine => if str_eq(spec.curvature.as_str(), "unknown") {
            CurvatureSpec::Simple(String::from_str("affine"))
        } else {
            spec.curvature.clone()
        },
        Category::Convex => CurvatureSpec::Simple(String::from_str("convex")),
        Category::Concave => CurvatureSpec::Simple(String::from_str("concave")),
    };
    AtomSpec {
        description: spec.description.clone(),
        curvature,
        sign: spec.sign.clone(),
        arity: spec.arity.clone(),
        dcp_requires: match &spec.dcp_requires {
            Some(s) => Some(s.clone()),
            None => None,
        },
    }
}

fn insert_group(
    entries: &mut StringHashMap<(AtomSpec, Category)>,
    group: &Group,
    category: Category,
)
    requires
        old(entries)@.dom().finite(),
    ensures
        final(entries)@.dom().finite(),
        entries_view(final(entries)@) == merge_group(
            entries_view(old(entries)@),
            group_view(group@),
            category,
        ),
{
    let ghost base = entries_view(entries@);
    let ghost whole = group_view(group@);
    let mut i: usize = 0;
    while i < group.len()
        invariant
            i <= group.len(),
            whole == group_view(group@),
            entries@.dom().finite(),
            entries_view(entries@) == merge_group(base, whole.take(i as int), category),
        decreases group.len() - i,
    {
        let name = group[i].0.clone();
        let spec = normalize(&group[i].1, category);
        proof {
            let next = whole.take(i + 1);
            assert(next.drop_last() == whole.take(i as int));
            assert(next.last() == (name@, group[i as int].1@));
            assert(entries_view(entries@.insert(name@, (spec, category))) == entries_view(
                entries@,
            ).insert(name@, (spec@, category)));
        }
        entries.insert(name, (spec, category));
        i += 1;
    }
    assert(whole.take(i as int) == whole);
}

/// Merges the three groups of the catalogue into one map, normalizing each
/// entry's curvature by its category.
pub fn merge_specs(catalogue: &Catalogue) -> (specs: MergedSpecs)
    ensures
        specs@ == merged(catalogue@),
{
    let mut entries: StringHashMap<(AtomSpec, Category)> = StringHashMap::new();
    assert(entries_view(entries@) == Map::<Seq<char>, (AtomSpecView, Category)>::empty());
    insert_group(&mut entries, &catalogue.affine_atoms, Category::Affine);
    insert_group(&mut entries, &catalogue.convex_atoms, Category::Convex);
    insert_group(&mut entries, &catalogue.concave_atoms, Category::Concave);
    MergedSpecs { entries }
}

/// What inserting a group does to one name: a name the group declares gets
/// the group's last entry of that name, normalized, and the group's
/// category; any other name keeps what the map held before.
pub proof fn lemma_merge_group_entry(
    base: MergedView,
    group: GroupView,
    category: Category,
    name: Seq<char>,
)
    ensures
        merge_group(base, group, category).contains_key(name) <==> declared_in(group, name)
            is Some || base.contains_key(name),
        declared_in(group, name) matches Some(spec) ==> merge_group(base, group, category)[name]
            == (normalized(spec, category), category),
        declared_in(group, name) is None && base.contains_key(name) ==> merge_group(
            base,
            group,
            category,
        )[name] == base[name],
    decreases group.len(),
{
    if group.len() > 0 {
        lemma_merge_group_entry(base, group.drop_last(), category, name);
    }
}

/// The entry of the merged map for a name, by the groups that declare it:
/// the concave group decides before the convex group, and the convex group
/// before the affine group; a name that no group declares has no entry.
pub proof fn lemma_merged_entry(catalogue: CatalogueView, name: Seq<char>)
    ensures
        merged(catalogue).contains_key(name) <==> declared_in(catalogue.affine_atoms, name)
            is Some || declared_in(catalogue.convex_atoms, name) is Some || declared_in(
            catalogue.concave_atoms,
            name,
        ) is Some,
        declared_in(catalogue.concave_atoms, name) matches Some(spec) ==> merged(catalogue)[name]
            == (normalized(spec, Category::Concave), Category::Concave),
        declared_in(catalogue.concave_atoms, name) is None ==> (declared_in(
            catalogue.convex_atoms,
            name,
        ) matches Some(spec) ==> merged(catalogue)[name] == (
            normalized(spec, Category::Convex),
            Category::Convex,
        )),
        declared_in(catalogue.concave_atoms, name) is None && declared_in(
            catalogue.convex_atoms,
            name,
        ) is None ==> (declared_in(catalogue.affine_atoms, name) matches Some(spec) ==> merged(
            catalogue,
        )[name] == (normalized(spec, Category::Affine), Category::Affine)),
{
    let first = merge_group(Map::empty(), catalogue.affine_atoms, Category::Affine);
    let second = merge_group(first, catalogue.convex_atoms, Category::Convex);
    lemma_merge_group_entry(Map::empty(), catalogue.affine_atoms, Category::Affine, name);
    lemma_merge_group_entry(first, catalogue.convex_atoms, Category::Convex, name);
    lemma_merge_group_entry(second, catalogue.concave_atoms, Category::Concave, name);
}

/// Precedence of the later group: a name that both the affine and the
/// convex group declare, and the concave group does not, resolves to the
/// convex category, with the convex curvature and the rest of the convex
/// group's entry.
pub proof fn lemma_convex_overrides_affine(catalogue: CatalogueView, name: Seq<char>)
    requires
        declared_in(catalogue.affine_atoms, name) is Some,
        declared_in(catalogue.convex_atoms, name) is Some,
        declared_in(catalogue.concave_atoms, name) is None,
    ensures
        merged(catalogue).contains_key(name),
        merged(catalogue)[name].1 == Category::Convex,
        merged(catalogue)[name].0.curvature == CurvatureSpecView::Simple("convex"@),
        merged(catalogue)[name].0 == normalized(
            declared_in(catalogue.convex_atoms, name)->0,
            Category::Convex,
        ),
{
    lemma_merged_entry(catalogue, name);
}

/// After the merge no entry keeps an unresolved curvature: every entry
/// declares a single symbol, and that symbol is not `unknown`. In the
/// convex and the concave category it is the category's own symbol.
pub proof fn lemma_merged_curvature(catalogue: CatalogueView, name: Seq<char>)
    requires
        merged(catalogue).contains_key(name),
    ensures
        merged(catalogue)[name].0.curvature is Simple,
        merged(catalogue)[name].0.curvature.symbol() != "unknown"@,
        merged(catalogue)[name].1 != Category::Affine ==> merged(catalogue)[name].0.curvature
            == CurvatureSpecView::Simple(merged(catalogue)[name].1.symbol()),
{
    lemma_merged_entry(catalogue, name);
    reveal_strlit("unknown");
    reveal_strlit("affine");
    reveal_strlit("convex");
    reveal_strlit("concave");
    assert("unknown"@.len() == 7);
    assert("affine"@.len() == 6);
    assert("convex"@.len() == 6);
    assert("concave"@.len() == 7);
    assert("unknown"@[0] != "concave"@[0]);
}

} // verus!
