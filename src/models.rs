use vstd::pervasive::VecAdditionalExecFns;
use vstd::prelude::*;

verus! {

/// Payload of the diagnostic round trip.
#[derive(Clone, Debug, PartialEq, Eq)]
pub struct PingRequest {
    pub value: Option<String>,
}

/// Answer of the diagnostic round trip.
#[derive(Clone, Debug, Default, PartialEq, Eq)]
pub struct PingResponse {
    pub value: Option<String>,
}

/// Per-directory policy. An absent flag counts as `false`.
#[derive(Clone, Debug, PartialEq, Eq)]
pub struct StructureItemOptions {
    /// Create a declared subdirectory when it does not exist.
    pub repair: Option<bool>,
    /// Ask that the directory hold exactly what is declared. Carried by the
    /// model but not enforced: no check depends on it.
    pub strict: Option<bool>,
}

/// One directory of the expected layout: the files it must hold and its
/// declared subdirectories, each with its own nested item.
#[derive(Debug, PartialEq, Eq)]
pub struct StructureItem {
    pub options: Option<StructureItemOptions>,
    pub files: Option<Vec<String>>,
    /// Subdirectory name and nested item, walked in this order.
    pub dirs: Option<Vec<(String, StructureItem)>>,
}

impl StructureItemOptions {
    pub open spec fn repair_spec(&self) -> bool {
        self.repair == Some(true)
    }

    pub open spec fn strict_spec(&self) -> bool {
        self.strict == Some(true)
    }
}

impl StructureItem {
    /// Whether missing subdirectories of this item are created.
    pub open spec fn repair_spec(&self) -> bool {
        match self.options {
            Some(o) => o.repair_spec(),
            None => false,
        }
    }

    /// Whether this item is marked strict.
    pub open spec fn strict_spec(&self) -> bool {
        match self.options {
            Some(o) => o.strict_spec(),
            None => false,
        }
    }

    /// The declared file names, empty when none are declared.
    pub open spec fn file_names(&self) -> Seq<Seq<char>> {
        match self.files {
            Some(f) => f@.map_values(|s: String| s@),
            None => Seq::empty(),
        }
    }

    /// The declared subdirectories, empty when none are declared.
    pub open spec fn dir_entries(&self) -> Seq<(String, StructureItem)> {
        match self.dirs {
            Some(d) => d@,
            None => Seq::empty(),
        }
    }

    /// Neither files nor subdirectories are declared.
    pub open spec fn is_bare(&self) -> bool {
        self.file_names().len() == 0 && self.dir_entries().len() == 0
    }

    pub fn repair(&self) -> (r: bool)
        ensures
            r == self.repair_spec(),
    {
        match &self.options {
            Some(o) => match o.repair {
                Some(v) => v,
                None => false,
            },
            None => false,
        }
    }

    pub fn strict(&self) -> (r: bool)
        ensures
            r == self.strict_spec(),
    {
        match &self.options {
            Some(o) => match o.strict {
                Some(v) => v,
                None => false,
            },
            None => false,
        }
    }
}

/// A nested item is smaller than the item that declares it.
pub proof fn lemma_child_decreases(item: StructureItem, i: int)
    requires
        0 <= i < item.dir_entries().len(),
    ensures
        decreases_to!(item => item.dir_entries()[i].1),
{
    broadcast use vstd::std_specs::vec::group_vec_axioms;

    let d = item.dirs.unwrap();
    assert(decreases_to!(item => d));
    assert(decreases_to!(d => d@));
    assert(decreases_to!(d@ => d@[i]));
    assert(decreases_to!(d@[i] => d@[i].1));
}

/// Subdirectory names are distinct at every level of `item`.
pub open spec fn item_wf(item: StructureItem) -> bool
    decreases item,
    via item_wf_decreases
{
    &&& forall|i: int, j: int|
        0 <= i < j < item.dir_entries().len() ==> item.dir_entries()[i].0@
            != item.dir_entries()[j].0@
    &&& forall|i: int|
        0 <= i < item.dir_entries().len() ==> item_wf(#[trigger] item.dir_entries()[i].1)
}

#[via_fn]
proof fn item_wf_decreases(item: StructureItem) {
    assert forall|i: int| 0 <= i < item.dir_entries().len() implies decreases_to!(
        item => #[trigger] item.dir_entries()[i].1
    ) by {
        lemma_child_decreases(item, i);
    }
}

impl StructureItem {
    /// Declares `child` as the subdirectory `name`, in place of an earlier
    /// declaration of that name, or after the others. Returns the position
    /// of the entry.
    pub fn insert_dir(&mut self, name: String, child: StructureItem) -> (r: usize)
        ensures
            final(self).options == old(self).options,
            final(self).files == old(self).files,
            r <= old(self).dir_entries().len(),
            r < old(self).dir_entries().len() <==> exists|j: int|
                0 <= j < old(self).dir_entries().len() && #[trigger] old(
                    self,
                ).dir_entries()[j].0@ == name@,
            r < old(self).dir_entries().len() ==> old(self).dir_entries()[r as int].0@ == name@
                && final(self).dir_entries() == old(self).dir_entries().update(
                r as int,
                (name, child),
            ),
            r == old(self).dir_entries().len() ==> final(self).dir_entries() == old(
                self,
            ).dir_entries().push((name, child)),
            item_wf(*old(self)) && item_wf(child) ==> item_wf(*final(self)),
    {
        let ghost before = *self;
        let mut d = match self.dirs.take() {
            Some(d) => d,
            None => Vec::new(),
        };
        assert(d@ == before.dir_entries());
        let mut i: usize = 0;
        while i < d.len()
            invariant
                i <= d.len(),
                d@ == before.dir_entries(),
                forall|j: int| 0 <= j < i ==> d@[j].0@ != name@,
            ensures
                i <= d.len(),
                d@ == before.dir_entries(),
                forall|j: int| 0 <= j < i ==> d@[j].0@ != name@,
                i < d.len() ==> d@[i as int].0@ == name@,
            decreases d.len() - i,
        {
            if d[i].0 == name {
                break;
            }
            i = i + 1;
        }
        if i < d.len() {
            d.set(i, (name, child));
        } else {
            d.push((name, child));
        }
        self.dirs = Some(d);
        proof {
            if i < before.dir_entries().len() {
                assert(self.dir_entries() =~= before.dir_entries().update(i as int, (name, child)));
            } else {
                assert(self.dir_entries() =~= before.dir_entries().push((name, child)));
            }
        }
        i
    }
}

} // verus!
