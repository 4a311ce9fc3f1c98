//! What holds of every provisioning run, proved from the machine's
//! transition function.

use vstd::prelude::*;
use crate::command::{succeeded, uninstall};
use crate::config::{is_bootstrap_package, keeps_pip, selector_valid, wants_latest, Request};
use crate::cleanup::target_is_empty;
use crate::error::{Cleaning, Error, Lookup};
use crate::hash::verifies;
use crate::output::local_version;
use crate::pattern::{download_info_of, is_version, latest_version_of};
use crate::provision::{
    begin, bootstrap_packages, is_terminal, next, phase_of, replay, run_of, uses_network,
    ActionView, EventView, Machine, Phase, ReplyView, Step,
};
use crate::release::{archive_file, release_page, BOOTSTRAP_URL, DOWNLOADS_PAGE};

verus! {

/// The phases with which a run begins: those of a run on an existing tree,
/// or those of a fresh run.
pub open spec fn head(request: Request) -> Seq<Phase> {
    if request.skip_download {
        seq![Phase::Start, Phase::Validate, Phase::ReadLocalVersion]
    } else {
        seq![
            Phase::Start,
            Phase::Validate,
            Phase::ResolveVersion,
            Phase::DownloadVerify,
            Phase::Extract,
        ]
    }
}

/// The phase in which the requested packages are installed, if any are
/// requested.
pub open spec fn user_phase(request: Request) -> Seq<Phase> {
    if request.packages.len() > 0 {
        seq![Phase::InstallUserPkgs]
    } else {
        Seq::empty()
    }
}

/// The phases of a run that succeeds, in order.
pub open spec fn pipeline(request: Request) -> Seq<Phase> {
    head(request) + seq![Phase::FixupPath, Phase::BootstrapPkgmgr, Phase::InstallCore]
        + user_phase(request) + seq![Phase::Compile, Phase::List, Phase::Cleanup, Phase::Done]
}

/// The phases that a run has entered when it is in `phase`.
pub open spec fn passed(request: Request, phase: Phase) -> Seq<Phase> {
    let core = head(request) + seq![Phase::FixupPath, Phase::BootstrapPkgmgr, Phase::InstallCore];
    match phase {
        Phase::Start => seq![Phase::Start],
        Phase::Validate => seq![Phase::Start, Phase::Validate],
        Phase::ResolveVersion => seq![Phase::Start, Phase::Validate, Phase::ResolveVersion],
        Phase::ReadLocalVersion => seq![Phase::Start, Phase::Validate, Phase::ReadLocalVersion],
        Phase::DownloadVerify => seq![
            Phase::Start,
            Phase::Validate,
            Phase::ResolveVersion,
            Phase::DownloadVerify,
        ],
        Phase::Extract => seq![
            Phase::Start,
            Phase::Validate,
            Phase::ResolveVersion,
            Phase::DownloadVerify,
            Phase::Extract,
        ],
        Phase::FixupPath => head(request) + seq![Phase::FixupPath],
        Phase::BootstrapPkgmgr => head(request) + seq![Phase::FixupPath, Phase::BootstrapPkgmgr],
        Phase::InstallCore => core,
        Phase::InstallUserPkgs => core + seq![Phase::InstallUserPkgs],
        Phase::Compile => core + user_phase(request) + seq![Phase::Compile],
        Phase::List => core + user_phase(request) + seq![Phase::Compile, Phase::List],
        Phase::Cleanup => core + user_phase(request) + seq![
            Phase::Compile,
            Phase::List,
            Phase::Cleanup,
        ],
        Phase::Done => pipeline(request),
        Phase::Failed => Seq::empty(),
    }
}

/// The step can occur in a run for the request.
pub open spec fn fits(request: Request, step: Step) -> bool {
    match step {
        Step::InspectingTarget => !request.skip_download,
        Step::FetchingLatest => !request.skip_download && wants_latest(request.pyver),
        Step::FetchingRelease => !request.skip_download,
        Step::ReadingCache => !request.skip_download,
        Step::Downloading => !request.skip_download,
        Step::SavingArchive => !request.skip_download,
        Step::Extracting => !request.skip_download,
        Step::ReadingLocalVersion => request.skip_download,
        Step::CheckingScript => request.skip_download,
        Step::InstallingPackages => request.packages.len() > 0,
        Step::Uninstalling => !keeps_pip(request.keep_pip, request.packages),
        Step::InspectingTree => !(request.keep_scripts && request.keep_dist_info),
        Step::Removing => !(request.keep_scripts && request.keep_dist_info),
        _ => true,
    }
}

/// The phases that the replies say were entered, one reply after the other.
pub open spec fn entered(replies: Seq<ReplyView>) -> Seq<Phase>
    decreases replies.len(),
{
    if replies.len() == 0 {
        Seq::empty()
    } else {
        replies[0].entered + entered(replies.drop_first())
    }
}

/// The steps of a fresh run before the tree is there.
pub open spec fn in_fresh_head(step: Step) -> bool {
    step == Step::InspectingTarget || step == Step::FetchingLatest || step == Step::FetchingRelease
        || step == Step::ReadingCache || step == Step::Downloading || step == Step::SavingArchive
        || step == Step::Extracting
}

/// The steps that prepare the tree for the package manager, with the step
/// that reads the version of an existing tree.
pub open spec fn in_fixup(step: Step) -> bool {
    phase_of(step) == Phase::FixupPath || step == Step::ReadingLocalVersion
}

/// The steps that run the package manager and the compile pass.
pub open spec fn in_install(step: Step) -> bool {
    step == Step::Bootstrapping || step == Step::UpgradingPip || step == Step::InstallingTools
        || step == Step::InstallingPackages || step == Step::Compiling
}

/// The steps from the package list to the end of cleanup.
pub open spec fn in_cleanup(step: Step) -> bool {
    step == Step::Listing || phase_of(step) == Phase::Cleanup
}

/// The event does not take the run out of order: the request stays; if the
/// run fails by the event, it enters `Failed` and asks for nothing more;
/// else the phases entered by the event are exactly those between the phase
/// before and the phase after, and the new step is one that the request
/// allows.
pub open spec fn keeps_order(m: Machine, event: EventView) -> bool {
    let (after, reply) = next(m, event);
    &&& after.request == m.request
    &&& after.step == Step::Failed ==> reply.entered == seq![Phase::Failed] && reply.action
        == ActionView::Stop
    &&& after.step != Step::Failed ==> fits(m.request, after.step) && passed(
        m.request,
        phase_of(m.step),
    ) + reply.entered == passed(m.request, phase_of(after.step))
}

/// `keeps_order`, from its parts with the sequences compared element by
/// element.
proof fn lemma_settle(m: Machine, event: EventView)
    requires
        next(m, event).0.request == m.request,
        next(m, event).0.step == Step::Failed ==> next(m, event).1.entered =~= seq![Phase::Failed]
            && next(m, event).1.action == ActionView::Stop,
        next(m, event).0.step != Step::Failed ==> fits(m.request, next(m, event).0.step)
            && passed(m.request, phase_of(m.step)) + next(m, event).1.entered =~= passed(
            m.request,
            phase_of(next(m, event).0.step),
        ),
    ensures
        keeps_order(m, event),
{
}

/// Order is kept by the steps of a fresh run before the tree is there.
#[verifier::rlimit(50)]
proof fn lemma_order_in_fresh_head(m: Machine, event: EventView)
    requires
        in_fresh_head(m.step),
        fits(m.request, m.step),
        !(event is Failed),
    ensures
        keeps_order(m, event),
{
    lemma_settle(m, event);
}

/// Order is kept by the steps that prepare the tree.
#[verifier::rlimit(50)]
proof fn lemma_order_in_fixup(m: Machine, event: EventView)
    requires
        in_fixup(m.step),
        fits(m.request, m.step),
        !(event is Failed),
    ensures
        keeps_order(m, event),
{
    lemma_settle(m, event);
}

/// Order is kept by the steps that run the package manager.
#[verifier::rlimit(50)]
proof fn lemma_order_in_install(m: Machine, event: EventView)
    requires
        in_install(m.step),
        fits(m.request, m.step),
        !(event is Failed),
    ensures
        keeps_order(m, event),
{
    lemma_settle(m, event);
}

/// Order is kept by the steps from the package list on.
#[verifier::rlimit(50)]
proof fn lemma_order_in_cleanup(m: Machine, event: EventView)
    requires
        in_cleanup(m.step),
        fits(m.request, m.step),
        !(event is Failed),
    ensures
        keeps_order(m, event),
{
    lemma_settle(m, event);
}

/// One event never takes a run out of order, whatever the event and
/// wherever the run stands.
pub proof fn lemma_step_keeps_order(m: Machine, event: EventView)
    requires
        !is_terminal(m.step),
        fits(m.request, m.step),
    ensures
        keeps_order(m, event),
{
    if event is Failed {
        assert(next(m, event).1.entered =~= seq![Phase::Failed]);
    } else if in_fresh_head(m.step) {
        lemma_order_in_fresh_head(m, event);
    } else if in_fixup(m.step) {
        lemma_order_in_fixup(m, event);
    } else if in_install(m.step) {
        lemma_order_in_install(m, event);
    } else {
        lemma_order_in_cleanup(m, event);
    }
}

/// A run begins in order: unless the request is refused, the phases entered
/// at the beginning are those up to the first step's phase.
pub proof fn lemma_begin_keeps_order(request: Request)
    ensures
        begin(request).0.request == request,
        begin(request).0.step != Step::Done,
        begin(request).0.step == Step::Failed <==> !selector_valid(request.pyver),
        begin(request).0.step != Step::Failed ==> fits(request, begin(request).0.step) && begin(
            request,
        ).1.entered == passed(request, phase_of(begin(request).0.step)),
{
    let (first, reply) = begin(request);
    if first.step != Step::Failed {
        assert(reply.entered =~= passed(request, phase_of(first.step)));
    }
}

/// However a run is answered, it stays in order.
pub proof fn lemma_replay_keeps_order(m: Machine, events: Seq<EventView>)
    requires
        m.step != Step::Failed,
        fits(m.request, m.step),
    ensures
        replay(m, events).0.request == m.request,
        replay(m, events).0.step != Step::Failed ==> fits(m.request, replay(m, events).0.step)
            && passed(m.request, phase_of(m.step)) + entered(replay(m, events).1) == passed(
            m.request,
            phase_of(replay(m, events).0.step),
        ),
    decreases events.len(),
{
    let before = passed(m.request, phase_of(m.step));
    if events.len() == 0 || is_terminal(m.step) {
        assert(before + entered(replay(m, events).1) =~= before);
    } else {
        let (after, reply) = next(m, events[0]);
        lemma_step_keeps_order(m, events[0]);
        let (last, replies) = replay(after, events.drop_first());
        let all = seq![reply] + replies;
        assert(all[0] == reply);
        assert(all.drop_first() =~= replies);
        if after.step != Step::Failed {
            lemma_replay_keeps_order(after, events.drop_first());
            if last.step != Step::Failed {
                assert(before + entered(all) =~= (before + reply.entered) + entered(replies));
            }
        } else {
            assert(replay(after, events.drop_first()).0 == after);
        }
    }
}

/// A run that ends with success has gone through every phase of the
/// pipeline, in the pipeline's order, each phase once.
pub proof fn lemma_successful_run_visits_every_phase_once(request: Request, events: Seq<EventView>)
    requires
        run_of(request, events).0.step == Step::Done,
    ensures
        entered(run_of(request, events).1) == pipeline(request),
        pipeline(request).no_duplicates(),
{
    let (first, reply) = begin(request);
    lemma_begin_keeps_order(request);
    let (last, replies) = replay(first, events);
    let all = seq![reply] + replies;
    assert(all[0] == reply);
    assert(all.drop_first() =~= replies);
    if first.step == Step::Failed {
        assert(last == first);
    } else {
        lemma_replay_keeps_order(first, events);
        assert(entered(all) =~= reply.entered + entered(replies));
    }
    lemma_pipeline_has_no_duplicates(request);
}

/// No phase stands twice in the pipeline.
pub proof fn lemma_pipeline_has_no_duplicates(request: Request)
    ensures
        pipeline(request).no_duplicates(),
{
    let p = pipeline(request);
    if request.skip_download {
        if request.packages.len() > 0 {
            assert(p =~= seq![
                Phase::Start,
                Phase::Validate,
                Phase::ReadLocalVersion,
                Phase::FixupPath,
                Phase::BootstrapPkgmgr,
                Phase::InstallCore,
                Phase::InstallUserPkgs,
                Phase::Compile,
                Phase::List,
                Phase::Cleanup,
                Phase::Done,
            ]);
        } else {
            assert(p =~= seq![
                Phase::Start,
                Phase::Validate,
                Phase::ReadLocalVersion,
                Phase::FixupPath,
                Phase::BootstrapPkgmgr,
                Phase::InstallCore,
                Phase::Compile,
                Phase::List,
                Phase::Cleanup,
                Phase::Done,
            ]);
        }
    } else {
        if request.packages.len() > 0 {
            assert(p =~= seq![
                Phase::Start,
                Phase::Validate,
                Phase::ResolveVersion,
                Phase::DownloadVerify,
                Phase::Extract,
                Phase::FixupPath,
                Phase::BootstrapPkgmgr,
                Phase::InstallCore,
                Phase::InstallUserPkgs,
                Phase::Compile,
                Phase::List,
                Phase::Cleanup,
                Phase::Done,
            ]);
        } else {
            assert(p =~= seq![
                Phase::Start,
                Phase::Validate,
                Phase::ResolveVersion,
                Phase::DownloadVerify,
                Phase::Extract,
                Phase::FixupPath,
                Phase::BootstrapPkgmgr,
                Phase::InstallCore,
                Phase::Compile,
                Phase::List,
                Phase::Cleanup,
                Phase::Done,
            ]);
        }
    }
}

/// The event is a good answer to what the machine waits for: it is of the
/// kind that the pending action is answered by, and it reports success.
pub open spec fn answers(m: Machine, event: EventView) -> bool {
    match (m.step, event) {
        (Step::InspectingTarget, EventView::Target { present, entries }) => target_is_empty(
            present,
            entries,
        ),
        (Step::FetchingLatest, EventView::Page(body)) => latest_version_of(body) is Some,
        (Step::FetchingRelease, EventView::Page(body)) => download_info_of(
            body,
            m.request.is32,
        ) is Some,
        (Step::ReadingCache, EventView::Archive(_)) => true,
        (Step::Downloading, EventView::Downloaded(data)) => verifies(data, m.hash),
        (Step::SavingArchive, EventView::Done) => true,
        (Step::Extracting, EventView::Done) => true,
        (Step::ReadingLocalVersion, EventView::Output { code, stdout }) => local_version(
            stdout,
        ) is Some,
        (Step::CheckingScript, EventView::Present(_)) => true,
        (Step::DownloadingScript, EventView::Downloaded(_)) => true,
        (Step::SavingScript, EventView::Done) => true,
        (Step::QueryingVersion, EventView::Output { code, stdout }) => local_version(
            stdout,
        ) is Some,
        (Step::ReadingPth, EventView::Content(content)) => content is Some,
        (Step::WritingPth, EventView::Done) => true,
        (Step::Bootstrapping, EventView::Exited(code)) => succeeded(code),
        (Step::UpgradingPip, EventView::Exited(code)) => succeeded(code),
        (Step::InstallingTools, EventView::Exited(code)) => succeeded(code),
        (Step::InstallingPackages, EventView::Exited(code)) => succeeded(code),
        (Step::Compiling, EventView::Exited(code)) => succeeded(code),
        (Step::Listing, EventView::Output { code, stdout }) => true,
        (Step::Uninstalling, EventView::Exited(code)) => succeeded(code),
        (Step::InspectingTree, EventView::Tree { scripts, packages }) => true,
        (Step::Removing, EventView::Done) => true,
        _ => false,
    }
}

/// An upper bound on the answers that a run still needs, removals aside.
pub open spec fn distance(step: Step) -> nat {
    match step {
        Step::InspectingTarget => 22,
        Step::FetchingLatest => 21,
        Step::FetchingRelease => 20,
        Step::ReadingCache => 19,
        Step::Downloading => 18,
        Step::SavingArchive => 17,
        Step::Extracting => 16,
        Step::ReadingLocalVersion => 16,
        Step::CheckingScript => 15,
        Step::DownloadingScript => 14,
        Step::SavingScript => 13,
        Step::QueryingVersion => 12,
        Step::ReadingPth => 11,
        Step::WritingPth => 10,
        Step::Bootstrapping => 9,
        Step::UpgradingPip => 8,
        Step::InstallingTools => 7,
        Step::InstallingPackages => 6,
        Step::Compiling => 5,
        Step::Listing => 4,
        Step::Uninstalling => 3,
        Step::InspectingTree => 2,
        Step::Removing => 1,
        Step::Done => 0,
        Step::Failed => 0,
    }
}

/// A run fails only for a cause: an event fails the run exactly if it is no
/// good answer. So a run whose every answer is good never fails.
#[verifier::rlimit(50)]
pub proof fn lemma_failure_needs_a_cause(m: Machine, event: EventView)
    requires
        !is_terminal(m.step),
    ensures
        next(m, event).0.step == Step::Failed <==> !answers(m, event),
        next(m, event).0.step == Step::Failed ==> next(m, event).0.error is Some && next(
            m,
            event,
        ).1.action == ActionView::Stop,
        next(m, event).0.step != Step::Failed ==> next(m, event).0.error == m.error,
{
}

/// Every good answer brings a run nearer to its end: the run moves to a
/// later step, or it has one directory less to remove. And until the run has
/// ended the machine asks for something: it never stops in the middle.
#[verifier::rlimit(50)]
pub proof fn lemma_good_answers_make_progress(m: Machine, event: EventView)
    requires
        !is_terminal(m.step),
        answers(m, event),
    ensures
        distance(next(m, event).0.step) < distance(m.step) || (m.step == Step::Removing && next(
            m,
            event,
        ).0.step == Step::Removing && next(m, event).0.pending.len() < m.pending.len()),
        next(m, event).1.action == ActionView::Stop <==> next(m, event).0.step == Step::Done,
{
}

/// Every event of `events` is a good answer to what the machine waits for
/// when the event comes.
pub open spec fn well_answered(m: Machine, events: Seq<EventView>) -> bool
    decreases events.len(),
{
    events.len() == 0 || is_terminal(m.step) || (answers(m, events[0]) && well_answered(
        next(m, events[0]).0,
        events.drop_first(),
    ))
}

/// Good answers never fail a run, from wherever it stands; and its last
/// reply asks for nothing exactly if the run has ended.
pub proof fn lemma_good_answers_never_fail(m: Machine, events: Seq<EventView>)
    requires
        !is_terminal(m.step),
        events.len() > 0,
        well_answered(m, events),
    ensures
        replay(m, events).0.step != Step::Failed,
        replay(m, events).1.len() > 0,
        replay(m, events).1.last().action == ActionView::Stop <==> replay(m, events).0.step
            == Step::Done,
    decreases events.len(),
{
    let (after, reply) = next(m, events[0]);
    lemma_failure_needs_a_cause(m, events[0]);
    lemma_good_answers_make_progress(m, events[0]);
    let rest = events.drop_first();
    let (last, replies) = replay(after, rest);
    let all = seq![reply] + replies;
    if rest.len() == 0 || is_terminal(after.step) {
        assert(replies =~= Seq::empty());
        assert(all.last() == reply);
    } else {
        lemma_good_answers_never_fail(after, rest);
        assert(all.last() == replies.last());
    }
}

/// A run whose request is valid and whose every answer is good does not
/// fail. When such a run is told to stop, it has ended with success, and it
/// has gone through every phase of the pipeline, in order, each phase once.
pub proof fn lemma_well_answered_run_succeeds(request: Request, events: Seq<EventView>)
    requires
        selector_valid(request.pyver),
        well_answered(begin(request).0, events),
    ensures
        run_of(request, events).0.step != Step::Failed,
        run_of(request, events).1.last().action == ActionView::Stop <==> run_of(
            request,
            events,
        ).0.step == Step::Done,
        run_of(request, events).0.step == Step::Done ==> entered(run_of(request, events).1)
            == pipeline(request),
{
    let (first, reply) = begin(request);
    lemma_begin_keeps_order(request);
    let (last, replies) = replay(first, events);
    let all = seq![reply] + replies;
    if events.len() == 0 {
        assert(replies =~= Seq::empty());
        assert(all.last() == reply);
    } else {
        lemma_good_answers_never_fail(first, events);
        assert(all.last() == replies.last());
    }
    if last.step == Step::Done {
        lemma_successful_run_visits_every_phase_once(request, events);
    }
}

/// A run that has ended stays as it is, whatever it is told: no further
/// phase is entered and nothing more is asked for.
pub proof fn lemma_ended_run_stays(m: Machine, event: EventView)
    requires
        is_terminal(m.step),
    ensures
        next(m, event).0 == m,
        next(m, event).1.entered.len() == 0,
        next(m, event).1.action == ActionView::Stop,
{
}

/// A version selector that has the shape of a version number (and is not
/// `latest`) is taken as it stands: once the target is found empty the run
/// holds exactly that version and goes straight to the release page. The
/// phase that resolves the version is passed without any action, so without
/// the network.
pub proof fn lemma_explicit_version_is_kept(request: Request, present: bool, entries: nat)
    requires
        is_version(request.pyver),
        !wants_latest(request.pyver),
        !request.skip_download,
        target_is_empty(present, entries),
    ensures
        begin(request).1.action == ActionView::InspectTarget,
        next(begin(request).0, EventView::Target { present, entries }).0.version == request.pyver,
        next(begin(request).0, EventView::Target { present, entries }).0.step
            == Step::FetchingRelease,
        next(begin(request).0, EventView::Target { present, entries }).1.entered == seq![
            Phase::ResolveVersion,
            Phase::DownloadVerify,
        ],
        next(begin(request).0, EventView::Target { present, entries }).1.action
            == ActionView::Fetch(release_page(request.pyver)),
{
    let reply = next(begin(request).0, EventView::Target { present, entries }).1;
    assert(reply.entered =~= seq![Phase::ResolveVersion, Phase::DownloadVerify]);
}

/// For the selector `latest`, or none, the version is resolved with one
/// fetch, of the downloads page. If the page holds a version, it has the
/// shape of a version number and the run holds it afterwards. If it does not, the run fails with `NotFound`
/// and asks for nothing more.
pub proof fn lemma_latest_is_resolved_by_one_fetch(
    request: Request,
    present: bool,
    entries: nat,
    body: Seq<char>,
)
    requires
        wants_latest(request.pyver),
        !request.skip_download,
        target_is_empty(present, entries),
    ensures
        ({
            let waiting = next(begin(request).0, EventView::Target { present, entries });
            let resolved = next(waiting.0, EventView::Page(body));
            &&& !uses_network(begin(request).1.action)
            &&& waiting.0.step == Step::FetchingLatest
            &&& waiting.1.action == ActionView::Fetch(DOWNLOADS_PAGE@)
            &&& match latest_version_of(body) {
                Some(version) => {
                    &&& is_version(version)
                    &&& resolved.0.step == Step::FetchingRelease
                    &&& resolved.0.version == version
                    &&& resolved.1.action == ActionView::Fetch(release_page(version))
                },
                None => {
                    &&& resolved.0.step == Step::Failed
                    &&& resolved.0.error == Some(Error::NotFound(Lookup::LatestVersion))
                    &&& resolved.1.action == ActionView::Stop
                },
            }
        }),
{
}

/// A fresh run whose target directory holds something fails with
/// `NonEmptyTarget`, whatever else it is told, and the only thing it has
/// asked for is a look at the target: nothing went to the network.
pub proof fn lemma_non_empty_target_fails_first(
    request: Request,
    entries: nat,
    later: Seq<EventView>,
)
    requires
        selector_valid(request.pyver),
        !request.skip_download,
        entries > 0,
    ensures
        ({
            let events = seq![EventView::Target { present: true, entries }] + later;
            let (last, replies) = run_of(request, events);
            &&& last.step == Step::Failed
            &&& last.error == Some(Error::NonEmptyTarget)
            &&& replies.len() == 2
            &&& replies[0].action == ActionView::InspectTarget
            &&& replies[1].action == ActionView::Stop
            &&& forall|i: int| 0 <= i < replies.len() ==> !uses_network(#[trigger] replies[i].action)
        }),
{
    let events = seq![EventView::Target { present: true, entries }] + later;
    let (first, reply) = begin(request);
    let (after, second) = next(first, events[0]);
    assert(after.step == Step::Failed);
    assert(replay(after, events.drop_first()).1 =~= Seq::empty());
    let (last, replies) = replay(first, events);
    assert(replies =~= seq![second]);
    assert(run_of(request, events).1 =~= seq![reply, second]);
}

/// The action belongs to the fetching or unpacking of the archive.
pub open spec fn touches_archive(action: ActionView) -> bool {
    action is InspectTarget || action is Fetch || action is ReadArchive || action is DownloadArchive
        || action is SaveArchive || action is Extract
}

/// In a run on an existing tree, no single event leads to an action on the
/// archive.
#[verifier::rlimit(50)]
pub proof fn lemma_existing_tree_step(m: Machine, event: EventView)
    requires
        m.request.skip_download,
        fits(m.request, m.step),
    ensures
        !touches_archive(next(m, event).1.action),
        next(m, event).1.action is DownloadScript ==> next(m, event).1.action
            == ActionView::DownloadScript(BOOTSTRAP_URL@) && m.step == Step::CheckingScript && event
            == EventView::Present(false),
{
}

/// However a run on an existing tree is answered, none of its replies asks
/// for an action on the archive.
pub proof fn lemma_existing_tree_replay(m: Machine, events: Seq<EventView>)
    requires
        m.request.skip_download,
        m.step != Step::Failed,
        fits(m.request, m.step),
    ensures
        forall|i: int|
            0 <= i < replay(m, events).1.len() ==> !touches_archive(
                #[trigger] replay(m, events).1[i].action,
            ),
    decreases events.len(),
{
    if events.len() == 0 || is_terminal(m.step) {
    } else {
        let (after, reply) = next(m, events[0]);
        lemma_existing_tree_step(m, events[0]);
        lemma_step_keeps_order(m, events[0]);
        let rest = replay(after, events.drop_first()).1;
        if after.step != Step::Failed {
            lemma_existing_tree_replay(after, events.drop_first());
        } else {
            assert(rest =~= Seq::empty());
        }
        let all = seq![reply] + rest;
        assert forall|i: int| 0 <= i < all.len() implies !touches_archive(
            #[trigger] all[i].action,
        ) by {
            if i > 0 {
                assert(all[i] == rest[i - 1]);
            }
        }
    }
}

/// A run on an existing tree never fetches, reads, saves or unpacks the
/// archive, and never looks at the downloads or release page, however it is
/// answered. It begins by asking the tree's interpreter for its version.
pub proof fn lemma_existing_tree_keeps_its_archive(request: Request, events: Seq<EventView>)
    requires
        request.skip_download,
    ensures
        forall|i: int|
            0 <= i < run_of(request, events).1.len() ==> !touches_archive(
                #[trigger] run_of(request, events).1[i].action,
            ),
        selector_valid(request.pyver) ==> begin(request).0.step == Step::ReadingLocalVersion,
{
    let (first, reply) = begin(request);
    lemma_begin_keeps_order(request);
    let rest = replay(first, events).1;
    if first.step != Step::Failed {
        lemma_existing_tree_replay(first, events);
    } else {
        assert(rest =~= Seq::empty());
    }
    let all = seq![reply] + rest;
    assert forall|i: int| 0 <= i < all.len() implies !touches_archive(#[trigger] all[i].action) by {
        if i > 0 {
            assert(all[i] == rest[i - 1]);
        }
    }
}

/// In a run on an existing tree the bootstrap script is fetched exactly if
/// it is not there: after the answer to the check, the run asks for the
/// script if it is missing, and goes on to the search-path file if not.
pub proof fn lemma_missing_script_is_fetched(m: Machine, present: bool)
    requires
        m.step == Step::CheckingScript,
    ensures
        !present ==> next(m, EventView::Present(present)).1.action == ActionView::DownloadScript(
            BOOTSTRAP_URL@,
        ),
        present ==> next(m, EventView::Present(present)).0.step == Step::QueryingVersion && !(next(
            m,
            EventView::Present(present),
        ).1.action is DownloadScript),
{
}

/// The request neither keeps the package manager nor names it, or one of
/// its build-support packages, among the packages to install.
pub open spec fn drops_package_manager(request: Request) -> bool {
    &&& !request.keep_pip
    &&& forall|i: int|
        0 <= i < request.packages.len() ==> !is_bootstrap_package(#[trigger] request.packages[i])
}

/// Where the package manager is neither kept nor asked for, cleanup begins
/// by uninstalling it with its two build-support packages, and the run goes
/// on only if that uninstall succeeds: else it fails with `Cleanup`.
pub proof fn lemma_cleanup_uninstalls_package_manager(
    m: Machine,
    code: Option<i32>,
    stdout: Seq<char>,
    exit: Option<i32>,
)
    requires
        m.step == Step::Listing,
        drops_package_manager(m.request),
    ensures
        ({
            let cleaning = next(m, EventView::Output { code, stdout });
            let after = next(cleaning.0, EventView::Exited(exit));
            &&& cleaning.0.step == Step::Uninstalling
            &&& cleaning.1.action == ActionView::Run(uninstall(bootstrap_packages()))
            &&& !succeeded(exit) ==> after.0.step == Step::Failed && after.0.error == Some(
                Error::Cleanup(Cleaning::Uninstall(exit)),
            )
            &&& succeeded(exit) ==> after.0.step != Step::Failed
        }),
{
    assert(!keeps_pip(m.request.keep_pip, m.request.packages));
}

/// Only verified bytes are saved: whenever the machine asks to save an
/// archive, the bytes are those just downloaded, they have the hash that the
/// release page gave, and the name is that of the version and build asked
/// for.
#[verifier::rlimit(50)]
pub proof fn lemma_only_verified_bytes_are_saved(m: Machine, event: EventView)
    ensures
        next(m, event).1.action matches ActionView::SaveArchive(name, data) ==> {
            &&& m.step == Step::Downloading
            &&& event == EventView::Downloaded(data)
            &&& verifies(data, m.hash)
            &&& name == archive_file(m.version, m.request.is32)
        },
{
}

/// The run has passed the point at which the version to fetch is known.
pub open spec fn knows_version(m: Machine) -> bool {
    !m.request.skip_download && m.step != Step::InspectingTarget && m.step != Step::FetchingLatest
        && m.step != Step::Failed
}

/// The version that the run holds, once it is known, has the shape of a
/// version number.
pub open spec fn version_is_resolved(m: Machine) -> bool {
    knows_version(m) ==> is_version(m.version)
}

/// One event keeps the version resolved: whether the version was given or
/// read from the downloads page, the machine never holds one of another
/// shape.
#[verifier::rlimit(50)]
pub proof fn lemma_step_keeps_version_resolved(m: Machine, event: EventView)
    requires
        !is_terminal(m.step),
        selector_valid(m.request.pyver),
        fits(m.request, m.step),
        version_is_resolved(m),
    ensures
        version_is_resolved(next(m, event).0),
{
}

/// However a run is answered, its version stays resolved.
pub proof fn lemma_replay_keeps_version_resolved(m: Machine, events: Seq<EventView>)
    requires
        m.step != Step::Failed,
        selector_valid(m.request.pyver),
        fits(m.request, m.step),
        version_is_resolved(m),
    ensures
        version_is_resolved(replay(m, events).0),
    decreases events.len(),
{
    if events.len() == 0 || is_terminal(m.step) {
    } else {
        let after = next(m, events[0]).0;
        lemma_step_keeps_version_resolved(m, events[0]);
        lemma_step_keeps_order(m, events[0]);
        assert(after.request == m.request);
        if after.step != Step::Failed {
            lemma_replay_keeps_version_resolved(after, events.drop_first());
        } else {
            assert(replay(after, events.drop_first()).0 == after);
        }
    }
}

/// In every run, however it is answered, the version that is fetched has
/// the shape of a version number: three numbers separated by dots. This holds
/// of a version given in the request and of one read from the downloads
/// page alike.
pub proof fn lemma_resolved_version_is_three_part(request: Request, events: Seq<EventView>)
    ensures
        version_is_resolved(run_of(request, events).0),
{
    let first = begin(request).0;
    lemma_begin_keeps_order(request);
    if first.step != Step::Failed {
        lemma_replay_keeps_version_resolved(first, events);
    }
}

/// The action asks to uninstall the package manager and its two
/// build-support packages.
pub open spec fn is_uninstall(action: ActionView) -> bool {
    action == ActionView::Run(uninstall(bootstrap_packages()))
}

/// How many of the replies ask to uninstall the package manager.
pub open spec fn uninstalls(replies: Seq<ReplyView>) -> nat
    decreases replies.len(),
{
    if replies.len() == 0 {
        0
    } else {
        (if is_uninstall(replies[0].action) {
            1nat
        } else {
            0nat
        }) + uninstalls(replies.drop_first())
    }
}

/// The run has left the package list behind.
pub open spec fn past_list(step: Step) -> bool {
    step == Step::Uninstalling || step == Step::InspectingTree || step == Step::Removing || step
        == Step::Done
}

/// The uninstall is asked for at one point only: in the reply to the package
/// list, as cleanup is entered, and only where the package manager is not
/// kept. And once the list is behind, it stays behind.
#[verifier::rlimit(50)]
pub proof fn lemma_uninstall_follows_the_list(m: Machine, event: EventView)
    requires
        !is_terminal(m.step),
        fits(m.request, m.step),
    ensures
        is_uninstall(next(m, event).1.action) <==> m.step == Step::Listing && event is Output
            && !keeps_pip(m.request.keep_pip, m.request.packages),
        is_uninstall(next(m, event).1.action) ==> next(m, event).1.entered == seq![Phase::Cleanup],
        next(m, event).0.step != Step::Failed ==> (past_list(next(m, event).0.step) <==> past_list(
            m.step,
        ) || m.step == Step::Listing),
{
    let reply = next(m, event).1;
    if is_uninstall(reply.action) {
        assert(reply.entered =~= seq![Phase::Cleanup]);
    }
}

/// The number of uninstalls that a run asks for from where it stands: one if
/// it gets past the package list from before it and the package manager is
/// not kept, none otherwise.
pub proof fn lemma_replay_uninstalls_once(m: Machine, events: Seq<EventView>)
    requires
        m.step != Step::Failed,
        fits(m.request, m.step),
    ensures
        uninstalls(replay(m, events).1) <= 1,
        replay(m, events).0.step != Step::Failed ==> uninstalls(replay(m, events).1) == (if
            !past_list(m.step) && past_list(replay(m, events).0.step) && !keeps_pip(
            m.request.keep_pip,
            m.request.packages,
        ) {
            1nat
        } else {
            0nat
        }),
        past_list(m.step) ==> uninstalls(replay(m, events).1) == 0,
        past_list(m.step) && replay(m, events).0.step != Step::Failed ==> past_list(
            replay(m, events).0.step,
        ),
    decreases events.len(),
{
    if events.len() == 0 || is_terminal(m.step) {
        assert(replay(m, events).1 =~= Seq::empty());
    } else {
        let (after, reply) = next(m, events[0]);
        lemma_uninstall_follows_the_list(m, events[0]);
        lemma_step_keeps_order(m, events[0]);
        assert(after.request == m.request);
        let (last, replies) = replay(after, events.drop_first());
        let all = seq![reply] + replies;
        assert(all[0] == reply);
        assert(all.drop_first() =~= replies);
        if after.step != Step::Failed {
            lemma_replay_uninstalls_once(after, events.drop_first());
        } else {
            assert(replies =~= Seq::empty());
            assert(last == after);
        }
    }
}

/// A run that ends with success has asked to uninstall the package manager
/// and its two build-support packages exactly once, after the package list,
/// where the request neither keeps nor names them; and never where it
/// does. No run asks for it more than once.
pub proof fn lemma_successful_run_uninstalls_once(request: Request, events: Seq<EventView>)
    ensures
        uninstalls(run_of(request, events).1) <= 1,
        run_of(request, events).0.step == Step::Done ==> uninstalls(run_of(request, events).1)
            == (if keeps_pip(request.keep_pip, request.packages) {
            0nat
        } else {
            1nat
        }),
        drops_package_manager(request) ==> !keeps_pip(request.keep_pip, request.packages),
{
    let (first, reply) = begin(request);
    lemma_begin_keeps_order(request);
    let (last, replies) = replay(first, events);
    let all = seq![reply] + replies;
    assert(all[0] == reply);
    assert(all.drop_first() =~= replies);
    assert(!is_uninstall(reply.action));
    if first.step != Step::Failed {
        lemma_replay_uninstalls_once(first, events);
    } else {
        assert(replies =~= Seq::empty());
    }
}

} // verus!
