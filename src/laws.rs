use vstd::prelude::*;

use crate::models::{record, InstallProgress, PackageView, Source};
use crate::operation::{
    config_decision, multilib_listed, step_ok, Action, CommandOutput, Coordinator, Operation,
    RunOutcome, Stage, Step,
};
use crate::parsers::{keep, package_info, repo_search, row, rows, RowKind};
use crate::queries::{optional_lines, output_lines};
use crate::text::{lines, split_state};

verus! {

/// Every parser reads empty text as no packages at all, and the detail parser
/// reads it as a record whose text fields are all empty; none fails.
pub proof fn lemma_empty_input_parses_to_nothing()
    ensures
        forall|src: Source| #[trigger] repo_search(lines(seq![]), src) == Seq::<PackageView>::empty(),
        forall|kind: RowKind| #[trigger] rows(lines(seq![]), kind) == Seq::<PackageView>::empty(),
        package_info(seq![]) == record(seq![], seq![], seq![], Source::Official, false),
{
    let e = Seq::<char>::empty();
    assert(split_state(e, '\n') == (Seq::<Seq<char>>::empty(), e));
    assert(lines(e) =~= Seq::<Seq<char>>::empty());
    assert forall|src: Source| #[trigger] repo_search(lines(seq![]), src) == Seq::<PackageView>::empty() by {
        assert(Seq::<char>::empty() == e);
    }
    assert forall|kind: RowKind| #[trigger] rows(lines(seq![]), kind) == Seq::<PackageView>::empty() by {
        assert(Seq::<char>::empty() == e);
    }
    assert(package_info(e) =~= record(seq![], seq![], seq![], Source::Official, false));
}

/// How many of the events are completed.
pub open spec fn completed_count(evs: Seq<InstallProgress>) -> nat
    decreases evs.len(),
{
    if evs.len() == 0 {
        0
    } else {
        completed_count(evs.drop_last()) + if evs.last().completed {
            1nat
        } else {
            0nat
        }
    }
}

/// The events of a run of steps, in order.
pub open spec fn run_events(steps: Seq<Step>) -> Seq<InstallProgress>
    decreases steps.len(),
{
    if steps.len() == 0 {
        seq![]
    } else {
        run_events(steps.drop_last()) + steps.last().events@
    }
}

proof fn lemma_count_concat(a: Seq<InstallProgress>, b: Seq<InstallProgress>)
    ensures
        completed_count(a + b) == completed_count(a) + completed_count(b),
    decreases b.len(),
{
    if b.len() > 0 {
        assert((a + b).drop_last() == a + b.drop_last());
        lemma_count_concat(a, b.drop_last());
    } else {
        assert(a + b == a);
    }
}

proof fn lemma_count_pending(evs: Seq<InstallProgress>)
    requires
        crate::operation::pending(evs),
    ensures
        completed_count(evs) == 0,
    decreases evs.len(),
{
    if evs.len() > 0 {
        assert(!evs[evs.len() - 1].completed);
        lemma_count_pending(evs.drop_last());
    }
}

proof fn lemma_step_count(s: Step)
    requires
        step_ok(s, true),
    ensures
        completed_count(s.events@) == if s.action is Finish {
            1nat
        } else {
            0nat
        },
{
    if s.action is Finish {
        lemma_count_pending(s.events@.drop_last());
    } else {
        lemma_count_pending(s.events@);
    }
}

/// A run of an operation that reports progress, that is the steps that its
/// start and its successive `advance` calls return, each of the shape that
/// their contracts give and only the last of them finishing, has emitted no
/// completed event until it finishes, and exactly one once it has: its last
/// event.
pub proof fn lemma_one_terminal_event(steps: Seq<Step>)
    requires
        forall|i: int| 0 <= i < steps.len() ==> step_ok(#[trigger] steps[i], true),
        forall|i: int| 0 <= i < steps.len() - 1 ==> !(#[trigger] steps[i].action is Finish),
    ensures
        completed_count(run_events(steps)) == if steps.len() > 0 && steps.last().action is Finish {
            1nat
        } else {
            0nat
        },
        steps.len() > 0 && steps.last().action is Finish ==> run_events(steps).len() > 0
            && run_events(steps).last().completed,
    decreases steps.len(),
{
    if steps.len() > 0 {
        let pre = steps.drop_last();
        assert forall|i: int| 0 <= i < pre.len() implies step_ok(#[trigger] pre[i], true) by {
            assert(pre[i] == steps[i]);
        }
        assert forall|i: int| 0 <= i < pre.len() - 1 implies !(#[trigger] pre[i].action is Finish) by {
            assert(pre[i] == steps[i]);
        }
        lemma_one_terminal_event(pre);
        if pre.len() > 0 {
            assert(!(steps[pre.len() - 1].action is Finish));
            assert(pre.last() == steps[pre.len() - 1]);
        }
        assert(step_ok(steps[steps.len() - 1], true));
        lemma_step_count(steps.last());
        lemma_count_concat(run_events(pre), steps.last().events@);
    }
}

/// Enabling the optional repository where the configuration already lists it
/// stops at the check: the result is success, no elevated command runs, and
/// the operation is over.
pub proof fn lemma_enabled_repository_left_alone(c: Coordinator, o: CommandOutput, r: Step, next: Stage)
    requires
        c.operation == Operation::EnableMultilib,
        c.stage == Stage::AwaitCheck,
        multilib_listed(o.stdout@),
        config_decision(c, RunOutcome::Exited(o), r, next),
    ensures
        r.action matches Action::Finish(Ok(m)) && m@ == "Multilib is already enabled"@,
        !(r.action is Run),
        next == Stage::Done,
{
}

/// The source of the records that a listing of kind `kind` gives.
pub open spec fn kind_source(kind: RowKind) -> Source {
    match kind {
        RowKind::Installed(s) => s,
        RowKind::Update(s) => s,
        _ => Source::Flatpak,
    }
}

proof fn lemma_keep_source(ls: Seq<Seq<char>>, f: spec_fn(Seq<char>) -> Option<PackageView>, s: Source)
    requires
        forall|l: Seq<char>| #[trigger] f(l) is Some ==> f(l)->Some_0.source == s,
    ensures
        forall|i: int| 0 <= i < keep(ls, f).len() ==> (#[trigger] keep(ls, f)[i]).source == s,
    decreases ls.len(),
{
    if ls.len() > 0 {
        lemma_keep_source(ls.drop_last(), f, s);
        let pre = keep(ls.drop_last(), f);
        let all = keep(ls, f);
        assert forall|i: int| 0 <= i < all.len() implies (#[trigger] all[i]).source == s by {
            if i < pre.len() {
                assert(all[i] == pre[i]);
            } else {
                assert(f(ls.last()) is Some);
            }
        }
    }
}

proof fn lemma_rows_source(ls: Seq<Seq<char>>, kind: RowKind)
    ensures
        forall|i: int| 0 <= i < rows(ls, kind).len() ==> (#[trigger] rows(ls, kind)[i]).source
            == kind_source(kind),
{
    let f = |l: Seq<char>| row(kind, l);
    assert forall|l: Seq<char>| #[trigger] f(l) is Some implies f(l)->Some_0.source == kind_source(
        kind,
    ) by {}
    if kind == RowKind::FlatpakSearch && ls.len() > 0 {
        lemma_keep_source(ls.drop_first(), f, kind_source(kind));
    } else {
        lemma_keep_source(ls, f, kind_source(kind));
    }
}

/// Without an AUR helper the installed listing just leaves the AUR part out:
/// what it holds comes from the official and Flatpak runs alone, and none of
/// it is an AUR record. (The AUR search, by its contract, fails instead.)
pub proof fn lemma_listing_without_helper(
    official: Result<CommandOutput, String>,
    flatpak: Result<CommandOutput, String>,
)
    ensures
        ({
            let all = rows(output_lines(official), RowKind::Installed(Source::Official)) + rows(
                optional_lines(None),
                RowKind::Installed(Source::Aur),
            ) + rows(output_lines(flatpak), RowKind::FlatpakInstalled);
            &&& all == rows(output_lines(official), RowKind::Installed(Source::Official)) + rows(
                output_lines(flatpak),
                RowKind::FlatpakInstalled,
            )
            &&& forall|i: int| 0 <= i < all.len() ==> (#[trigger] all[i]).source != Source::Aur
        }),
{
    let a = rows(output_lines(official), RowKind::Installed(Source::Official));
    let b = rows(optional_lines(None), RowKind::Installed(Source::Aur));
    let c = rows(output_lines(flatpak), RowKind::FlatpakInstalled);
    assert(b =~= Seq::<PackageView>::empty());
    assert(a + b =~= a);
    lemma_rows_source(output_lines(official), RowKind::Installed(Source::Official));
    lemma_rows_source(output_lines(flatpak), RowKind::FlatpakInstalled);
    let all = a + b + c;
    assert forall|i: int| 0 <= i < all.len() implies (#[trigger] all[i]).source != Source::Aur by {
        if i < a.len() {
            assert(all[i] == a[i]);
        } else {
            assert(all[i] == c[i - a.len()]);
        }
    }
}

} // verus!
