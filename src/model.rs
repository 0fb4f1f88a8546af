use crate::models::{lemma_child_decreases, StructureItem};
use crate::plan::{dirs_plan, file_steps, plan_of, Step};
use crate::walk::{advance, ask_of, initial, Answer, Ask, Failure, PhaseView, WalkState};
use vstd::prelude::*;

verus! {

/// A relative path below the verified root.
pub type RelPath = Seq<Seq<char>>;

/// `p` and every non-empty leading part of it: what creating the directory
/// `p` with its parents leaves in place.
pub open spec fn prefixes(p: RelPath) -> Set<RelPath> {
    Set::new(|q: RelPath| 0 < q.len() <= p.len() && q == p.subrange(0, q.len() as int)).insert(p)
}

/// Every parent of an entry of `fs` is in `fs` too, as on a real filesystem.
pub open spec fn prefix_closed(fs: Set<RelPath>) -> bool {
    forall|q: RelPath, k: int|
        fs.contains(q) && 0 < k <= q.len() ==> #[trigger] fs.contains(q.subrange(0, k))
}

/// The answer of a filesystem holding `fs` to `a`; creation always succeeds.
pub open spec fn answer_in(fs: Set<RelPath>, a: Ask) -> Answer {
    match a {
        Ask::Exists(p) => Answer::Exists(fs.contains(p)),
        _ => Answer::Created(Ok(())),
    }
}

/// What the filesystem holds after it carried out `a`.
pub open spec fn apply(fs: Set<RelPath>, a: Ask) -> Set<RelPath> {
    match a {
        Ask::CreateDir(p) => fs.union(prefixes(p)),
        _ => fs,
    }
}

/// How much of the walk is left: two steps for a check still to be probed,
/// one for a pending creation.
pub open spec fn remaining(s: WalkState) -> int {
    if s.phase is Failed || !(0 <= s.next < s.checks.len()) {
        0
    } else {
        2 * (s.checks.len() - s.next) + if s.phase is Probing {
            1int
        } else {
            0int
        }
    }
}

/// How a walk ends: its outcome, what the filesystem then holds, and the
/// directories it asked to create, in order.
pub struct RunEnd {
    pub outcome: Result<(), Failure>,
    pub fs: Set<RelPath>,
    pub created: Seq<RelPath>,
}

/// The walk from state `s` carried through against a filesystem holding `fs`.
pub open spec fn run(s: WalkState, fs: Set<RelPath>) -> RunEnd
    decreases remaining(s),
{
    let a = ask_of(s);
    match a {
        Ask::Done(r) => RunEnd { outcome: r, fs: fs, created: Seq::empty() },
        _ => {
            let rest = run(advance(s, answer_in(fs, a)), apply(fs, a));
            match a {
                Ask::CreateDir(p) => RunEnd { created: seq![p] + rest.created, ..rest },
                _ => rest,
            }
        },
    }
}

/// The verification of a directory against `item`, carried through against
/// a filesystem holding `fs`.
pub open spec fn verify_in(item: StructureItem, fs: Set<RelPath>) -> RunEnd {
    run(initial(item), fs)
}

proof fn lemma_prefixes_closed(p: RelPath)
    ensures
        prefix_closed(prefixes(p)),
        prefixes(p).contains(p),
{
    assert forall|q: RelPath, k: int|
        prefixes(p).contains(q) && 0 < k <= q.len() implies #[trigger] prefixes(p).contains(
        q.subrange(0, k),
    ) by {
        let r = q.subrange(0, k);
        assert(r == p.subrange(0, r.len() as int));
    }
}

proof fn lemma_union_closed(a: Set<RelPath>, b: Set<RelPath>)
    requires
        prefix_closed(a),
        prefix_closed(b),
    ensures
        prefix_closed(a.union(b)),
{
}

/// A walk only adds to the filesystem, and keeps it closed under parents.
proof fn lemma_run_grows(s: WalkState, fs: Set<RelPath>)
    ensures
        fs.subset_of(run(s, fs).fs),
        prefix_closed(fs) ==> prefix_closed(run(s, fs).fs),
    decreases remaining(s),
{
    let a = ask_of(s);
    if !(a is Done) {
        lemma_run_grows(advance(s, answer_in(fs, a)), apply(fs, a));
        if let Ask::CreateDir(p) = a {
            lemma_prefixes_closed(p);
            if prefix_closed(fs) {
                lemma_union_closed(fs, prefixes(p));
            }
        }
    }
}

/// Starting over from a filesystem that holds at least what a walk began
/// with, and at most what it left, ends where that walk ended.
proof fn lemma_run_again(s: WalkState, fs: Set<RelPath>, fs2: Set<RelPath>)
    requires
        prefix_closed(fs2),
        fs.subset_of(fs2),
        fs2.subset_of(run(s, fs).fs),
    ensures
        run(s, fs2).outcome == run(s, fs).outcome,
        run(s, fs2).fs == run(s, fs).fs,
    decreases remaining(s),
{
    let a = ask_of(s);
    match a {
        Ask::Done(_) => {
            assert(fs2 =~= fs);
        },
        Ask::Exists(p) => {
            if fs.contains(p) || !fs2.contains(p) {
                lemma_run_again(advance(s, answer_in(fs, a)), fs, fs2);
            } else {
                let s1 = advance(s, Answer::Exists(false));
                if s1.phase is Failed {
                    assert(run(s, fs).fs == fs);
                    assert(false);
                } else {
                    let s3 = advance(s1, Answer::Created(Ok(())));
                    let fs3 = fs.union(prefixes(p));
                    assert(ask_of(s1) == Ask::CreateDir(p));
                    assert(run(s, fs).fs == run(s3, fs3).fs);
                    assert(s3 == advance(s, Answer::Exists(true)));
                    assert(fs3.subset_of(fs2)) by {
                        assert forall|q: RelPath| fs3.contains(q) implies fs2.contains(q) by {
                            if !fs.contains(q) && q != p {
                                assert(q == p.subrange(0, q.len() as int));
                            }
                        }
                    }
                    lemma_run_again(s3, fs3, fs2);
                }
            }
        },
        Ask::CreateDir(p) => {
            let s1 = advance(s, answer_in(fs, a));
            let f1 = apply(fs, a);
            let f2 = apply(fs2, a);
            lemma_run_grows(s1, f1);
            lemma_prefixes_closed(p);
            lemma_union_closed(fs2, prefixes(p));
            lemma_run_again(s1, f1, f2);
        },
    }
}

/// A walk that leaves the filesystem as it found it asked to create nothing,
/// when no creation was pending at its start for an entry already there.
proof fn lemma_unchanged_creates_nothing(s: WalkState, fs: Set<RelPath>)
    requires
        s.phase is Creating && 0 <= s.next < s.checks.len() ==> !fs.contains(
            s.checks[s.next].path(),
        ),
        run(s, fs).fs == fs,
    ensures
        run(s, fs).created.len() == 0,
    decreases remaining(s),
{
    let a = ask_of(s);
    match a {
        Ask::Done(_) => {},
        Ask::Exists(p) => {
            lemma_unchanged_creates_nothing(advance(s, answer_in(fs, a)), fs);
        },
        Ask::CreateDir(p) => {
            let f1 = apply(fs, a);
            lemma_prefixes_closed(p);
            lemma_run_grows(advance(s, answer_in(fs, a)), f1);
            assert(run(s, fs).fs.contains(p));
        },
    }
}

/// An item that declares no files and no subdirectories is met by any
/// directory: the walk asks nothing and succeeds.
pub proof fn lemma_bare_item_always_passes(item: StructureItem, fs: Set<RelPath>)
    requires
        item.is_bare(),
    ensures
        plan_of(item, Seq::empty()).len() == 0,
        verify_in(item, fs) == (RunEnd { outcome: Ok(()), fs: fs, created: Seq::empty() }),
{
    assert(file_steps(item.file_names(), Seq::empty()) =~= Seq::empty());
    assert(dirs_plan(item, Seq::empty(), 0) =~= Seq::empty());
    assert(plan_of(item, Seq::empty()) =~= Seq::empty());
}

/// Verifying the same directory twice in a row: the second run ends with
/// the same outcome, leaves the filesystem as the first left it, and creates
/// nothing.
pub proof fn lemma_verify_twice(item: StructureItem, fs: Set<RelPath>)
    requires
        prefix_closed(fs),
    ensures
        verify_in(item, verify_in(item, fs).fs).outcome == verify_in(item, fs).outcome,
        verify_in(item, verify_in(item, fs).fs).fs == verify_in(item, fs).fs,
        verify_in(item, verify_in(item, fs).fs).created.len() == 0,
{
    let s = initial(item);
    let f1 = run(s, fs).fs;
    lemma_run_grows(s, fs);
    lemma_run_again(s, fs, f1);
    lemma_unchanged_creates_nothing(s, f1);
}

/// No files are declared at any level of `item`, and every level asks for
/// its missing subdirectories to be created.
pub open spec fn repairs_all(item: StructureItem) -> bool
    decreases item,
    via repairs_all_decreases
{
    &&& item.file_names().len() == 0
    &&& item.repair_spec()
    &&& forall|i: int|
        0 <= i < item.dir_entries().len() ==> repairs_all(#[trigger] item.dir_entries()[i].1)
}

#[via_fn]
proof fn repairs_all_decreases(item: StructureItem) {
    assert forall|i: int| 0 <= i < item.dir_entries().len() implies decreases_to!(
        item => #[trigger] item.dir_entries()[i].1
    ) by {
        lemma_child_decreases(item, i);
    }
}

/// Every check from position `from` on is of a directory that is repaired.
pub open spec fn repaired_dirs_from(steps: Seq<Step>, from: int) -> bool {
    forall|j: int| from <= j < steps.len() ==> #[trigger] steps[j] matches Step::Dir(_, true)
}

proof fn lemma_concat_repaired(a: Seq<Step>, b: Seq<Step>)
    requires
        repaired_dirs_from(a, 0),
        repaired_dirs_from(b, 0),
    ensures
        repaired_dirs_from(a + b, 0),
{
    assert forall|j: int| 0 <= j < (a + b).len() implies #[trigger] (a + b)[j] matches Step::Dir(
        _,
        true,
    ) by {
        if j >= a.len() {
            assert((a + b)[j] == b[j - a.len()]);
        }
    }
}

proof fn lemma_plan_repaired(item: StructureItem, at: RelPath)
    requires
        repairs_all(item),
    ensures
        repaired_dirs_from(plan_of(item, at), 0),
    decreases item, 1int, 0int,
{
    assert(file_steps(item.file_names(), at) =~= Seq::empty());
    lemma_dirs_plan_repaired(item, at, 0);
    lemma_concat_repaired(file_steps(item.file_names(), at), dirs_plan(item, at, 0));
}

proof fn lemma_dirs_plan_repaired(item: StructureItem, at: RelPath, i: int)
    requires
        repairs_all(item),
        0 <= i,
    ensures
        repaired_dirs_from(dirs_plan(item, at, i), 0),
    decreases item, 0int, item.dir_entries().len() - i,
{
    if i < item.dir_entries().len() {
        let p = at.push(item.dir_entries()[i].0@);
        lemma_child_decreases(item, i);
        lemma_plan_repaired(item.dir_entries()[i].1, p);
        lemma_dirs_plan_repaired(item, at, i + 1);
        let head = seq![Step::Dir(p, item.repair_spec())];
        lemma_concat_repaired(head, plan_of(item.dir_entries()[i].1, p));
        lemma_concat_repaired(
            head + plan_of(item.dir_entries()[i].1, p),
            dirs_plan(item, at, i + 1),
        );
    }
}

proof fn lemma_repairing_run(s: WalkState, fs: Set<RelPath>)
    requires
        0 <= s.next <= s.checks.len(),
        !(s.phase is Failed),
        repaired_dirs_from(s.checks, s.next),
    ensures
        run(s, fs).outcome == Ok::<(), Failure>(()),
        forall|j: int|
            s.next <= j < s.checks.len() ==> run(s, fs).fs.contains(#[trigger] s.checks[j].path()),
    decreases remaining(s),
{
    if s.next < s.checks.len() {
        let a = ask_of(s);
        let s1 = advance(s, answer_in(fs, a));
        let f1 = apply(fs, a);
        assert(s.checks[s.next] matches Step::Dir(_, true));
        lemma_repairing_run(s1, f1);
        lemma_run_grows(s1, f1);
        if let Ask::CreateDir(p) = a {
            lemma_prefixes_closed(p);
        }
    }
}

/// An item that declares no files at any level and asks for repair at every
/// level is met in one run from any filesystem: the run succeeds and leaves
/// every declared directory in place.
pub proof fn lemma_full_repair_passes(item: StructureItem, fs: Set<RelPath>)
    requires
        repairs_all(item),
    ensures
        verify_in(item, fs).outcome == Ok::<(), Failure>(()),
        forall|j: int|
            0 <= j < plan_of(item, Seq::empty()).len() ==> verify_in(item, fs).fs.contains(
                #[trigger] plan_of(item, Seq::empty())[j].path(),
            ),
{
    lemma_plan_repaired(item, Seq::empty());
    lemma_repairing_run(initial(item), fs);
}

} // verus!
