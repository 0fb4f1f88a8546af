use crate::models::{lemma_child_decreases, StructureItem};
use vstd::prelude::*;

verus! {

/// A path below the root being verified, one name per component.
pub open spec fn path_view(p: Seq<String>) -> Seq<Seq<char>> {
    p.map_values(|s: String| s@)
}

/// One existence check of the walk, as a value.
pub enum Step {
    /// The entry at this path must exist.
    File(Seq<Seq<char>>),
    /// The directory at this path must exist; with the flag set it is
    /// created when it does not.
    Dir(Seq<Seq<char>>, bool),
}

impl Step {
    pub open spec fn path(self) -> Seq<Seq<char>> {
        match self {
            Step::File(p) => p,
            Step::Dir(p, _) => p,
        }
    }
}

/// One existence check of the walk.
#[derive(Clone, Debug, PartialEq, Eq)]
pub enum Check {
    File(Vec<String>),
    Dir(Vec<String>, bool),
}

impl View for Check {
    type V = Step;

    open spec fn view(&self) -> Step {
        match self {
            Check::File(p) => Step::File(path_view(p@)),
            Check::Dir(p, r) => Step::Dir(path_view(p@), *r),
        }
    }
}

pub open spec fn checks_view(v: Seq<Check>) -> Seq<Step> {
    v.map_values(|c: Check| c@)
}

/// The checks of `item` placed at `at`, in the order they are made: the
/// declared files first, then each subdirectory followed by the checks of
/// its nested item (depth first, pre-order).
pub open spec fn plan_of(item: StructureItem, at: Seq<Seq<char>>) -> Seq<Step>
    decreases item, 1int, 0int,
{
    file_steps(item.file_names(), at) + dirs_plan(item, at, 0)
}

pub open spec fn file_steps(names: Seq<Seq<char>>, at: Seq<Seq<char>>) -> Seq<Step> {
    names.map_values(|n: Seq<char>| Step::File(at.push(n)))
}

/// The checks of the subdirectories of `item` from the `i`-th on.
pub open spec fn dirs_plan(item: StructureItem, at: Seq<Seq<char>>, i: int) -> Seq<Step>
    decreases item, 0int, item.dir_entries().len() - i,
{
    if 0 <= i < item.dir_entries().len() {
        proof {
            lemma_child_decreases(item, i);
        }
        let p = at.push(item.dir_entries()[i].0@);
        seq![Step::Dir(p, item.repair_spec())] + plan_of(item.dir_entries()[i].1, p)
            + dirs_plan(item, at, i + 1)
    } else {
        Seq::empty()
    }
}

/// A copy of the path `p`.
pub fn copy_path(p: &Vec<String>) -> (r: Vec<String>)
    ensures
        path_view(r@) == path_view(p@),
{
    let mut r: Vec<String> = Vec::new();
    let mut i: usize = 0;
    while i < p.len()
        invariant
            i <= p.len(),
            path_view(r@) == path_view(p@.subrange(0, i as int)),
        decreases p.len() - i,
    {
        r.push(p[i].clone());
        i = i + 1;
        assert(path_view(p@.subrange(0, i as int)) =~= path_view(
            p@.subrange(0, i - 1 as int),
        ).push(p@[i - 1]@));
    }
    assert(p@.subrange(0, p.len() as int) =~= p@);
    r
}

/// `at` with `name` appended.
pub fn child_path(at: &Vec<String>, name: &String) -> (r: Vec<String>)
    ensures
        path_view(r@) == path_view(at@).push(name@),
{
    let mut r = copy_path(at);
    let ghost before = r@;
    r.push(name.clone());
    assert(path_view(r@) =~= path_view(before).push(name@));
    r
}

impl Check {
    /// The path this check is about.
    pub fn path(&self) -> (r: &Vec<String>)
        ensures
            path_view(r@) == self@.path(),
    {
        match self {
            Check::File(p) => p,
            Check::Dir(p, _) => p,
        }
    }
}

/// The checks of `item` for the directory it describes, in the order they
/// are made.
pub fn plan(item: &StructureItem) -> (r: Vec<Check>)
    ensures
        checks_view(r@) == plan_of(*item, Seq::empty()),
{
    let mut out: Vec<Check> = Vec::new();
    let root: Vec<String> = Vec::new();
    assert(path_view(root@) =~= Seq::empty());
    push_plan(item, &root, &mut out);
    assert(checks_view(Seq::<Check>::empty()) =~= Seq::empty());
    assert(Seq::<Step>::empty() + plan_of(*item, Seq::empty()) =~= plan_of(*item, Seq::empty()));
    out
}

/// Appends the checks of `item` placed at `at` to `out`.
pub fn push_plan(item: &StructureItem, at: &Vec<String>, out: &mut Vec<Check>)
    ensures
        checks_view(final(out)@) == checks_view(old(out)@) + plan_of(*item, path_view(at@)),
    decreases item,
{
    let ghost start = checks_view(out@);
    let ghost p = path_view(at@);
    if let Some(files) = &item.files {
        let mut i: usize = 0;
        while i < files.len()
            invariant
                i <= files.len(),
                p == path_view(at@),
                item.file_names() == files@.map_values(|s: String| s@),
                checks_view(out@) == start + file_steps(
                    item.file_names().subrange(0, i as int),
                    p,
                ),
            decreases files.len() - i,
        {
            let fp = child_path(at, &files[i]);
            let c = Check::File(fp);
            let ghost cv = c@;
            let ghost before = checks_view(out@);
            out.push(c);
            assert(checks_view(out@) =~= before.push(cv));
            i = i + 1;
            assert(file_steps(item.file_names().subrange(0, i as int), p) =~= file_steps(
                item.file_names().subrange(0, i - 1 as int),
                p,
            ).push(Step::File(p.push(files@[i - 1]@))));
            assert(checks_view(out@) =~= start + file_steps(
                item.file_names().subrange(0, i as int),
                p,
            ));
        }
        assert(item.file_names().subrange(0, files.len() as int) =~= item.file_names());
    } else {
        assert(file_steps(item.file_names(), p) =~= Seq::empty());
        assert(start + Seq::empty() =~= start);
    }
    if let Some(dirs) = &item.dirs {
        let repair = item.repair();
        let mut i: usize = 0;
        while i < dirs.len()
            invariant
                i <= dirs.len(),
                p == path_view(at@),
                item.dir_entries() == dirs@,
                repair == item.repair_spec(),
                checks_view(out@) + dirs_plan(*item, p, i as int) == start + plan_of(*item, p),
            decreases dirs.len() - i,
        {
            let child = child_path(at, &dirs[i].0);
            let ghost before = checks_view(out@);
            let ghost cp = path_view(child@);
            let d = Check::Dir(child.clone(), repair);
            assert(d@ == Step::Dir(cp, repair));
            out.push(d);
            assert(checks_view(out@) =~= before.push(Step::Dir(cp, repair)));
            proof {
                lemma_child_decreases(*item, i as int);
            }
            push_plan(&dirs[i].1, &child, out);
            assert(dirs_plan(*item, p, i as int) == seq![Step::Dir(cp, repair)] + plan_of(
                dirs@[i as int].1,
                cp,
            ) + dirs_plan(*item, p, i + 1));
            assert(checks_view(out@) =~= before + seq![Step::Dir(cp, repair)] + plan_of(
                dirs@[i as int].1,
                cp,
            ));
            i = i + 1;
        }
    } else {
        assert(dirs_plan(*item, p, 0) =~= Seq::empty());
    }
}

} // verus!
