//! The catalog: the selectable images of a directory snapshot, in listing
//! order, each with its display name.

use crate::names::{display_name, is_png_name, spec_display_name, spec_is_png_name};
use crate::order::{lemma_name_order_total, name_order, name_views, sorted_names};
use vstd::prelude::*;
use vstd::relations::*;
use vstd::seq_lib::*;

verus! {

/// The eligibility test as a predicate, for the sequence library.
pub open spec fn png_filter() -> spec_fn(Seq<char>) -> bool {
    |n: Seq<char>| spec_is_png_name(n)
}

/// The file names of the catalog built from the directory snapshot `names`:
/// the names that end with `.png`, in ascending listing order.
pub open spec fn spec_catalog(names: Seq<Seq<char>>) -> Seq<Seq<char>> {
    names.filter(png_filter()).sort_by(name_order())
}

/// Filtering keeps each name that passes the test as often as it occurred,
/// and drops the others.
pub proof fn lemma_filter_count(s: Seq<Seq<char>>, x: Seq<char>)
    ensures
        s.filter(png_filter()).to_multiset().count(x) == if spec_is_png_name(x) {
            s.to_multiset().count(x)
        } else {
            0
        },
    decreases s.len(),
{
    broadcast use group_to_multiset_ensures;
    broadcast use vstd::multiset::group_multiset_axioms;

    if s.len() == 0 {
        s.lemma_filter_len(png_filter());
        assert(s.filter(png_filter()) =~= Seq::<Seq<char>>::empty());
        assert(s =~= Seq::<Seq<char>>::empty());
    } else {
        let t = s.drop_last();
        let e = s.last();
        assert(s =~= t.push(e));
        t.lemma_filter_push(e, png_filter());
        lemma_filter_count(t, x);
    }
}

/// The catalog is in ascending listing order, holds exactly the snapshot's
/// names that end with `.png`, and holds each as often as the snapshot does.
pub proof fn lemma_catalog_contents(names: Seq<Seq<char>>)
    ensures
        sorted_by(spec_catalog(names), name_order()),
        spec_catalog(names).to_multiset() == names.filter(png_filter()).to_multiset(),
        forall|n: Seq<char>| #[trigger]
            spec_catalog(names).contains(n) <==> names.contains(n) && spec_is_png_name(n),
{
    broadcast use group_to_multiset_ensures;

    lemma_name_order_total();
    names.filter(png_filter()).lemma_sort_by_ensures(name_order());
    assert forall|n: Seq<char>| #[trigger]
        spec_catalog(names).contains(n) <==> names.contains(n) && spec_is_png_name(n) by {
        lemma_filter_count(names, n);
    }
}

/// Listing is deterministic and order-stable: two snapshots that hold the
/// same names, in whatever order the directory was walked, give the same
/// catalog.
pub proof fn lemma_catalog_order_stable(first: Seq<Seq<char>>, second: Seq<Seq<char>>)
    requires
        first.to_multiset() == second.to_multiset(),
    ensures
        spec_catalog(first) == spec_catalog(second),
{
    lemma_catalog_contents(first);
    lemma_catalog_contents(second);
    assert(first.filter(png_filter()).to_multiset() =~= second.filter(png_filter()).to_multiset())
        by {
        assert forall|x: Seq<char>|
            first.filter(png_filter()).to_multiset().count(x) == second.filter(
                png_filter(),
            ).to_multiset().count(x) by {
            lemma_filter_count(first, x);
            lemma_filter_count(second, x);
        }
    }
    lemma_name_order_total();
    lemma_sorted_unique(spec_catalog(first), spec_catalog(second), name_order());
}

/// One selectable image: a file name and the display name derived from it.
#[derive(Debug, PartialEq, Eq)]
pub struct ImageEntry {
    filename: String,
    display_name: String,
}

impl View for ImageEntry {
    type V = Seq<char>;

    /// An entry is identified by its file name.
    closed spec fn view(&self) -> Seq<char> {
        self.filename@
    }
}

impl ImageEntry {
    #[verifier::type_invariant]
    spec fn display_name_is_derived(&self) -> bool {
        self.display_name@ == spec_display_name(self.filename@)
    }

    /// The entry for `filename`.
    pub fn new(filename: String) -> (entry: ImageEntry)
        ensures
            entry@ == filename@,
    {
        let display_name = display_name(filename.as_str());
        ImageEntry { filename, display_name }
    }

    /// The literal name of the file.
    pub fn filename(&self) -> (name: &str)
        ensures
            name@ == self@,
    {
        self.filename.as_str()
    }

    /// The name shown to a person, derived from the file name.
    pub fn display_name(&self) -> (name: &str)
        ensures
            name@ == spec_display_name(self@),
    {
        proof {
            use_type_invariant(self);
        }
        self.display_name.as_str()
    }
}

/// The file names of a sequence of entries, in order.
pub open spec fn entry_names(entries: Seq<ImageEntry>) -> Seq<Seq<char>> {
    Seq::new(entries.len(), |i: int| entries[i]@)
}

/// An ordered sequence of image entries, built from one directory snapshot.
#[derive(Debug, PartialEq, Eq)]
pub struct Catalog {
    entries: Vec<ImageEntry>,
}

impl View for Catalog {
    type V = Seq<Seq<char>>;

    /// A catalog is seen as the file names of its entries, in order.
    closed spec fn view(&self) -> Seq<Seq<char>> {
        entry_names(self.entries@)
    }
}

impl Catalog {
    /// Builds the catalog of a directory snapshot: keeps the names that end
    /// with `.png` and lists them in ascending order.
    pub fn build(names: &Vec<String>) -> (catalog: Catalog)
        ensures
            catalog@ == spec_catalog(name_views(names@)),
    {
        let ghost all = name_views(names@);
        let mut kept: Vec<String> = Vec::new();
        let mut i: usize = 0;
        while i < names.len()
            invariant
                i <= names.len(),
                all == name_views(names@),
                name_views(kept@) == all.take(i as int).filter(png_filter()),
            decreases names.len() - i,
        {
            let ghost before = name_views(kept@);
            proof {
                all.take(i as int).lemma_filter_push(all[i as int], png_filter());
                assert(all.take(i + 1) =~= all.take(i as int).push(all[i as int]));
            }
            if is_png_name(names[i].as_str()) {
                kept.push(names[i].clone());
                assert(name_views(kept@) =~= before.push(all[i as int]));
            }
            i += 1;
        }
        assert(all.take(i as int) =~= all);
        let sorted = sorted_names(kept);
        proof {
            lemma_name_order_total();
            all.filter(png_filter()).lemma_sort_by_ensures(name_order());
            lemma_sorted_unique(name_views(sorted@), spec_catalog(all), name_order());
        }
        let ghost listed = name_views(sorted@);
        let mut entries: Vec<ImageEntry> = Vec::new();
        for name in it: sorted
            invariant
                listed.len() == it.seq().len(),
                forall|k: int| 0 <= k < listed.len() ==> listed[k] == (#[trigger] it.seq()[k])@,
                entry_names(entries@) == listed.take(it.index()),
        {
            let ghost before = entry_names(entries@);
            entries.push(ImageEntry::new(name));
            assert(entry_names(entries@) =~= before.push(listed[it.index()]));
            assert(listed.take(it.index() + 1) =~= listed.take(it.index()).push(
                listed[it.index()],
            ));
        }
        assert(listed.take(listed.len() as int) =~= listed);
        Catalog { entries }
    }

    /// The number of entries.
    pub fn len(&self) -> (n: usize)
        ensures
            n == self@.len(),
    {
        self.entries.len()
    }

    /// The entry at position `index`, if there is one.
    pub fn get(&self, index: usize) -> (entry: Option<&ImageEntry>)
        ensures
            index < self@.len() ==> entry.is_some() && entry.unwrap()@ == self@[index as int],
            index >= self@.len() ==> entry.is_none(),
    {
        if index < self.entries.len() {
            Some(&self.entries[index])
        } else {
            None
        }
    }

    /// Whether `name` is the file name of an entry.
    pub fn contains(&self, name: &str) -> (found: bool)
        ensures
            found == self@.contains(name@),
    {
        let wanted = name.to_owned();
        let mut i: usize = 0;
        while i < self.entries.len()
            invariant
                i <= self.entries.len(),
                wanted@ == name@,
                forall|k: int| 0 <= k < i ==> self@[k] != name@,
            decreases self.entries.len() - i,
        {
            if self.entries[i].filename == wanted {
                assert(self@[i as int] == name@);
                return true;
            }
            i += 1;
        }
        false
    }
}

} // verus!
