//! What is done, and in what order, while a manager is brought up.

use std::path::PathBuf;

use vstd::prelude::*;

use crate::arguments::OptionsView;
use crate::config::{with_acl, with_limits, with_manager, with_network, ManagerView};
use crate::launch::{
    answers, approved, begin, controlled, detached, limited, loaded, logged, next, prepare,
    serviced, ActionView, DraftView, Given, LoadedView, LoggingView, Platform, ReplyView,
    RuntimeConfig, SeedsView, StageView, Turn,
};
use crate::outcomes::{reached, World};

verus! {

/// The actions that are handed out from `turn` on, over so many replies of `world`.
pub open spec fn trace(given: Given, turn: Turn, world: World, replies: nat) -> Seq<ActionView>
    decreases replies,
{
    let reply = world.reply(turn.action);
    if replies > 0 && answers(turn.stage, reply) {
        seq![turn.action] + trace(
            given,
            next(given, turn.stage, reply),
            world,
            (replies - 1) as nat,
        )
    } else {
        seq![turn.action]
    }
}

/// The actions that are handed out while a manager is brought up.
pub open spec fn course(given: Given, seeds: SeedsView, world: World) -> Seq<ActionView> {
    trace(given, begin(given, seeds), world, 8)
}

/// The place of an action in the order of things.
pub open spec fn place(action: ActionView) -> nat {
    match action {
        ActionView::FindDefaultConfig(_) => 0,
        ActionView::PrepareService(_) => 1,
        ActionView::InitLogging(_) => 2,
        ActionView::LoadConfig(_) => 3,
        ActionView::AdjustNofile => 4,
        ActionView::LoadAcl(_) => 5,
        ActionView::Daemonize(_) => 6,
        ActionView::SwitchUser(_) => 7,
        ActionView::Run(..) => 8,
        ActionView::Fail(_) => 8,
        ActionView::Panic(_) => 8,
    }
}

/// The place of the action that a stage waits for.
spec fn stage_place(stage: StageView) -> nat {
    match stage {
        StageView::FindConfig(_) => 0,
        StageView::Service(..) => 1,
        StageView::Logging(..) => 2,
        StageView::Load(..) => 3,
        StageView::Nofile(_) => 4,
        StageView::Acl(..) => 5,
        StageView::Background(_) => 6,
        StageView::User(_) => 7,
        StageView::Ended => 8,
    }
}

/// Whether the program is to go into the background.
spec fn detaches(options: OptionsView) -> bool {
    options.daemonize || options.daemonize_pid_path is Some
}

/// Whether the two ways to tell that there is a place for the process id agree.
pub open spec fn told_alike(options: OptionsView) -> bool {
    options.daemonize_pid <==> options.daemonize_pid_path is Some
}

/// Whether a turn is one that comes behind `least`, and says of the list, the background and the
/// user what the options say.
spec fn proper(given: Given, turn: Turn, least: nat) -> bool {
    let options = given.options;
    &&& place(turn.action) == stage_place(turn.stage)
    &&& least <= place(turn.action)
    &&& turn.action matches ActionView::LoadAcl(file) ==> options.acl == Some(file)
    &&& turn.action matches ActionView::Daemonize(path) ==> detaches(options) && path
        == options.daemonize_pid_path
    &&& turn.action matches ActionView::SwitchUser(user) ==> options.user == Some(user)
    &&& turn.action is Run && least <= 7 ==> options.user is None
    &&& turn.action is Run || turn.action is SwitchUser ==> (least <= 6 ==> !detaches(options))
    &&& turn.action is Run || turn.action is SwitchUser || turn.action is Daemonize ==> (least <= 5
        ==> options.acl is None)
}

proof fn lemma_proper_detached(given: Given, draft: DraftView)
    ensures
        proper(given, detached(given, draft), 7),
        !detaches(given.options) ==> proper(given, detached(given, draft), 6),
        !detaches(given.options) && given.options.acl is None ==> proper(
            given,
            detached(given, draft),
            5,
        ),
{
}

proof fn lemma_proper_approved(given: Given, draft: DraftView)
    requires
        told_alike(given.options),
    ensures
        proper(given, approved(given, draft), 6),
        given.options.acl is None ==> proper(given, approved(given, draft), 5),
{
    lemma_proper_detached(given, draft);
}

proof fn lemma_proper_controlled(given: Given, draft: DraftView)
    requires
        told_alike(given.options),
    ensures
        proper(given, controlled(given, draft), 6),
        given.options.acl is None ==> proper(given, controlled(given, draft), 5),
{
    lemma_proper_approved(
        given,
        DraftView { setup: with_limits(draft.setup, given.options), ..draft },
    );
}

proof fn lemma_proper_limited(given: Given, draft: DraftView)
    requires
        told_alike(given.options),
    ensures
        proper(given, limited(given, draft), 5),
{
    lemma_proper_controlled(
        given,
        DraftView { setup: with_manager(draft.setup, given.options), ..draft },
    );
}

spec fn drafted(
    given: Given,
    file: LoadedView,
    runtime: RuntimeConfig,
    fresh: Option<ManagerView>,
) -> DraftView {
    DraftView {
        setup: with_network(file.setup, given.options, fresh),
        platform: file.platform.overridden(given.options),
        runtime,
    }
}

proof fn lemma_proper_loaded(
    given: Given,
    file: LoadedView,
    runtime: RuntimeConfig,
    fresh: Option<ManagerView>,
)
    requires
        told_alike(given.options),
    ensures
        proper(given, loaded(given, file, runtime, fresh), 4),
{
    lemma_proper_limited(given, drafted(given, file, runtime, fresh));
}

proof fn lemma_proper_logged(
    given: Given,
    path: Option<PathBuf>,
    runtime: RuntimeConfig,
    seeds: SeedsView,
)
    requires
        told_alike(given.options),
    ensures
        proper(given, logged(given, path, runtime, seeds), 3),
{
    lemma_proper_loaded(
        given,
        LoadedView { setup: seeds.blank, platform: Platform::nothing() },
        runtime,
        seeds.fresh,
    );
}

proof fn lemma_proper_next(given: Given, stage: StageView, reply: ReplyView)
    requires
        told_alike(given.options),
        answers(stage, reply),
    ensures
        proper(given, next(given, stage, reply), stage_place(stage) + 1),
{
    match stage {
        StageView::Service(path, seeds) => {
            if let Ok(service) = reply->Service_0 {
                lemma_proper_logged(given, path, service.runtime, seeds);
            }
        },
        StageView::Logging(path, runtime, seeds) => {
            lemma_proper_logged(given, path, runtime, seeds);
        },
        StageView::Load(_, runtime, fresh) => {
            if let Ok(file) = reply->Config_0 {
                lemma_proper_loaded(given, file, runtime, fresh);
            }
        },
        StageView::Nofile(draft) => {
            lemma_proper_limited(given, draft);
        },
        StageView::Acl(draft, _) => {
            if let Ok(acl) = reply->Acl_0 {
                lemma_proper_controlled(
                    given,
                    DraftView { setup: with_acl(draft.setup, acl), ..draft },
                );
            }
        },
        StageView::Background(draft) => {
            lemma_proper_detached(given, draft);
        },
        _ => {},
    }
}

proof fn lemma_prepend(action: ActionView, rest: Seq<ActionView>)
    requires
        rest.len() > 0,
    ensures
        (seq![action] + rest).len() > 0,
        (seq![action] + rest)[0] == action,
        (seq![action] + rest).last() == rest.last(),
        forall|a: ActionView|
            #![trigger (seq![action] + rest).contains(a)]
            (seq![action] + rest).contains(a) <==> a == action || rest.contains(a),
{
    let all = seq![action] + rest;
    assert forall|a: ActionView|
        #![trigger all.contains(a)]
        all.contains(a) <==> a == action || rest.contains(a) by {
        if rest.contains(a) {
            let i = choose|i: int| 0 <= i < rest.len() && rest[i] == a;
            assert(all[i + 1] == a);
        }
        assert(all[0] == action);
        if all.contains(a) {
            let i = choose|i: int| 0 <= i < all.len() && all[i] == a;
            if i > 0 {
                assert(rest[i - 1] == a);
            }
        }
    }
}

proof fn lemma_one(action: ActionView)
    ensures
        forall|a: ActionView| #[trigger] seq![action].contains(a) <==> a == action,
{
    assert(seq![action][0] == action);
}

/// What is said of a trace that starts at the place `first`.
spec fn told(given: Given, t: Seq<ActionView>, first: nat) -> bool {
    let options = given.options;
    &&& t.len() > 0
    &&& place(t[0]) == first
    &&& forall|i: int, j: int|
        0 <= i < j < t.len() ==> place(#[trigger] t[i]) < place(#[trigger] t[j])
    &&& forall|f: Seq<char>| #[trigger]
        t.contains(ActionView::LoadAcl(f)) ==> options.acl == Some(f)
    &&& forall|p: Option<PathBuf>| #[trigger]
        t.contains(ActionView::Daemonize(p)) ==> detaches(options) && p
            == options.daemonize_pid_path
    &&& forall|u: Seq<char>| #[trigger]
        t.contains(ActionView::SwitchUser(u)) ==> options.user == Some(u)
}

proof fn lemma_places(t: Seq<ActionView>, a: ActionView)
    requires
        t.len() > 0,
        forall|i: int, j: int|
            0 <= i < j < t.len() ==> place(#[trigger] t[i]) < place(#[trigger] t[j]),
        t.contains(a),
    ensures
        place(t[0]) <= place(a),
{
    let i = choose|i: int| 0 <= i < t.len() && t[i] == a;
    if i > 0 {
        assert(place(t[0]) < place(t[i]));
    }
}

proof fn lemma_told(given: Given, turn: Turn, world: World, n: nat)
    requires
        told_alike(given.options),
        proper(given, turn, 0) || proper(given, turn, stage_place(turn.stage)),
    ensures
        told(given, trace(given, turn, world, n), place(turn.action)),
        trace(given, turn, world, n)[0] == turn.action,
        trace(given, turn, world, n).last() == reached(given, turn, world, n).action,
    decreases n,
{
    let reply = world.reply(turn.action);
    let t = trace(given, turn, world, n);
    if n > 0 && answers(turn.stage, reply) {
        let following = next(given, turn.stage, reply);
        lemma_proper_next(given, turn.stage, reply);
        lemma_told(given, following, world, (n - 1) as nat);
        let rest = trace(given, following, world, (n - 1) as nat);
        lemma_prepend(turn.action, rest);
        assert(t == seq![turn.action] + rest);
        assert forall|i: int, j: int| 0 <= i < j < t.len() implies place(#[trigger] t[i]) < place(
            #[trigger] t[j],
        ) by {
            assert(t[j] == rest[j - 1]);
            if i > 0 {
                assert(t[i] == rest[i - 1]);
            } else if j > 1 {
                assert(place(rest[0]) < place(rest[j - 1]));
            }
        }
    } else {
        lemma_one(turn.action);
    }
}

/// What is owed by a trace that starts at the place `first`.
spec fn owed(given: Given, t: Seq<ActionView>, first: nat) -> bool {
    let options = given.options;
    &&& first <= 7 && t.last() is Run ==> (options.user matches Some(user) ==> t.contains(
        ActionView::SwitchUser(user),
    ))
    &&& first <= 6 && detaches(options) && (t.last() is Run || exists|u: Seq<char>| #[trigger]
        t.contains(ActionView::SwitchUser(u))) ==> t.contains(
        ActionView::Daemonize(options.daemonize_pid_path),
    )
    &&& first <= 5 && t.last() is Run ==> (options.acl matches Some(file) ==> t.contains(
        ActionView::LoadAcl(file),
    ))
}

proof fn lemma_owed(given: Given, turn: Turn, world: World, n: nat, least: nat)
    requires
        told_alike(given.options),
        proper(given, turn, least),
    ensures
        owed(given, trace(given, turn, world, n), least),
    decreases n,
{
    let reply = world.reply(turn.action);
    let t = trace(given, turn, world, n);
    lemma_one(turn.action);
    if n > 0 && answers(turn.stage, reply) {
        let following = next(given, turn.stage, reply);
        let from = stage_place(turn.stage) + 1;
        lemma_proper_next(given, turn.stage, reply);
        lemma_owed(given, following, world, (n - 1) as nat, from);
        lemma_told(given, following, world, (n - 1) as nat);
        let rest = trace(given, following, world, (n - 1) as nat);
        lemma_prepend(turn.action, rest);
        assert(t == seq![turn.action] + rest);
    } else {
        assert(t == seq![turn.action]);
    }
}

proof fn lemma_begins(given: Given, seeds: SeedsView)
    ensures
        proper(given, begin(given, seeds), 0),
{
}

/// Actions come in their order, each at most once: the default file, what the program is told of
/// itself, the log, the configuration file, the limit on open files, the access control list,
/// the background, the user. The last is to run the manager, to fail or to stop, and none of
/// these comes before it.
pub proof fn law_actions_come_in_order(given: Given, seeds: SeedsView, world: World)
    requires
        told_alike(given.options),
    ensures
        ({
            let t = course(given, seeds, world);
            &&& t.len() > 0
            &&& t.last() == reached(given, begin(given, seeds), world, 8).action
            &&& forall|i: int, j: int|
                0 <= i < j < t.len() ==> place(#[trigger] t[i]) < place(#[trigger] t[j])
        }),
{
    lemma_begins(given, seeds);
    lemma_told(given, begin(given, seeds), world, 8);
}

/// The program goes into the background where that, or a place for the process id, was asked
/// for, with exactly that place, before it becomes another user or runs a manager; and nowhere
/// else.
pub proof fn law_background_is_where_it_was_asked_for(
    given: Given,
    seeds: SeedsView,
    world: World,
    user: Seq<char>,
    path: Option<PathBuf>,
)
    requires
        given.options.daemonize_pid <==> given.options.daemonize_pid_path is Some,
    ensures
        ({
            let t = course(given, seeds, world);
            let options = given.options;
            &&& (t.last() is Run || t.contains(ActionView::SwitchUser(user))) && (options.daemonize
                || options.daemonize_pid_path is Some) ==> t.contains(
                ActionView::Daemonize(options.daemonize_pid_path),
            )
            &&& t.contains(ActionView::Daemonize(path)) ==> (options.daemonize
                || options.daemonize_pid_path is Some) && path == options.daemonize_pid_path
            &&& forall|i: int, j: int|
                0 <= i < t.len() && 0 <= j < t.len() && (#[trigger] t[i]) is Daemonize && ((
                #[trigger] t[j]) is SwitchUser || t[j] is Run) ==> i < j
        }),
{
    lemma_begins(given, seeds);
    lemma_told(given, begin(given, seeds), world, 8);
    lemma_owed(given, begin(given, seeds), world, 8, 0);
    let t = course(given, seeds, world);
    assert forall|i: int, j: int|
        0 <= i < t.len() && 0 <= j < t.len() && (#[trigger] t[i]) is Daemonize && ((
        #[trigger] t[j]) is SwitchUser || t[j] is Run) implies i < j by {
        if j < i {
            assert(place(t[j]) < place(t[i]));
        }
    }
}

/// A manager is run as the user that was asked for, where one was; the program becomes no other.
pub proof fn law_user_is_the_one_asked_for(
    given: Given,
    seeds: SeedsView,
    world: World,
    user: Seq<char>,
)
    requires
        told_alike(given.options),
    ensures
        ({
            let t = course(given, seeds, world);
            &&& t.last() is Run && given.options.user == Some(user) ==> t.contains(
                ActionView::SwitchUser(user),
            )
            &&& t.contains(ActionView::SwitchUser(user)) ==> given.options.user == Some(user)
        }),
{
    lemma_begins(given, seeds);
    lemma_told(given, begin(given, seeds), world, 8);
    lemma_owed(given, begin(given, seeds), world, 8, 0);
}

/// The access control list that was asked for is loaded before a manager is run; no other is.
pub proof fn law_list_is_the_one_asked_for(
    given: Given,
    seeds: SeedsView,
    world: World,
    file: Seq<char>,
)
    requires
        told_alike(given.options),
    ensures
        ({
            let t = course(given, seeds, world);
            &&& t.last() is Run && given.options.acl == Some(file) ==> t.contains(
                ActionView::LoadAcl(file),
            )
            &&& t.contains(ActionView::LoadAcl(file)) ==> given.options.acl == Some(file)
        }),
{
    lemma_begins(given, seeds);
    lemma_told(given, begin(given, seeds), world, 8);
    lemma_owed(given, begin(given, seeds), world, 8, 0);
}

/// Whether a trace has nothing before a place.
spec fn late(t: Seq<ActionView>, least: nat) -> bool {
    forall|a: ActionView| #[trigger] t.contains(a) ==> least <= place(a)
}

proof fn lemma_late(given: Given, turn: Turn, world: World, n: nat, least: nat)
    requires
        told_alike(given.options),
        proper(given, turn, least),
    ensures
        late(trace(given, turn, world, n), least),
        trace(given, turn, world, n).len() > 0,
{
    lemma_told(given, turn, world, n);
    let t = trace(given, turn, world, n);
    assert forall|a: ActionView| #[trigger] t.contains(a) implies least <= place(a) by {
        lemma_places(t, a);
    }
}

/// Whether the limit on open files is raised, where options are put into `file`.
spec fn raises(given: Given, file: LoadedView) -> bool {
    given.target.unix && !given.target.android && given.options.nofile is None
        && file.platform.nofile is None
}

proof fn lemma_course_loaded(
    given: Given,
    file: LoadedView,
    runtime: RuntimeConfig,
    fresh: Option<ManagerView>,
    world: World,
    n: nat,
)
    requires
        told_alike(given.options),
        n >= 1,
    ensures
        ({
            let t = trace(given, loaded(given, file, runtime, fresh), world, n);
            &&& t.len() > 0
            &&& late(t, 4)
            &&& t.contains(ActionView::AdjustNofile) <==> raises(given, file)
        }),
{
    let draft = drafted(given, file, runtime, fresh);
    lemma_proper_loaded(given, file, runtime, fresh);
    lemma_proper_limited(given, draft);
    let turn = loaded(given, file, runtime, fresh);
    lemma_late(given, turn, world, n, 4);
    lemma_late(given, limited(given, draft), world, n, 5);
    lemma_told(given, turn, world, n);
    if raises(given, file) {
        assert(trace(given, turn, world, n)[0] == ActionView::AdjustNofile);
    }
}

proof fn lemma_course_logged(
    given: Given,
    path: Option<PathBuf>,
    runtime: RuntimeConfig,
    seeds: SeedsView,
    world: World,
    n: nat,
)
    requires
        told_alike(given.options),
        n >= 2,
    ensures
        ({
            let t = trace(given, logged(given, path, runtime, seeds), world, n);
            &&& t.len() > 0
            &&& late(t, 3)
            &&& forall|p: PathBuf| #[trigger] t.contains(ActionView::LoadConfig(p)) <==> path == Some(p)
            &&& t.contains(ActionView::AdjustNofile) <==> match (path, world.config) {
                (Some(_), Ok(file)) => raises(given, file),
                (Some(_), Err(_)) => false,
                (None, _) => raises(
                    given,
                    LoadedView { setup: seeds.blank, platform: Platform::nothing() },
                ),
            }
        }),
{
    let turn = logged(given, path, runtime, seeds);
    let t = trace(given, turn, world, n);
    lemma_proper_logged(given, path, runtime, seeds);
    lemma_late(given, turn, world, n, 3);
    if let Some(p) = path {
        let m = (n - 1) as nat;
        let following = next(given, turn.stage, world.reply(turn.action));
        let rest = trace(given, following, world, m);
        assert(t == seq![turn.action] + rest);
        if let Ok(file) = world.config {
            lemma_course_loaded(given, file, runtime, seeds.fresh, world, m);
        } else {
            assert(rest == seq![following.action]);
            lemma_one(following.action);
        }
        lemma_prepend(turn.action, rest);
    } else {
        let file = LoadedView { setup: seeds.blank, platform: Platform::nothing() };
        lemma_course_loaded(given, file, runtime, seeds.fresh, world, n);
    }
}

proof fn lemma_course_prepare(
    given: Given,
    path: Option<PathBuf>,
    seeds: SeedsView,
    world: World,
    n: nat,
)
    requires
        told_alike(given.options),
        path is None ==> world.service is Ok,
        n >= 4,
    ensures
        ({
            let t = trace(given, prepare(path, seeds), world, n);
            &&& t.len() > 0
            &&& late(t, 1)
            &&& forall|q: Option<PathBuf>| #[trigger]
                t.contains(ActionView::PrepareService(q)) <==> q == path
            &&& forall|l: LoggingView| #[trigger]
                t.contains(ActionView::InitLogging(l)) <==> given.target.logging && (
                world.service matches Ok(service) && match service.log_config_path {
                    Some(file) => l == LoggingView::File(file),
                    None => l == LoggingView::Named("sslocal"@),
                })
            &&& forall|p: PathBuf| #[trigger]
                t.contains(ActionView::LoadConfig(p)) <==> path == Some(p) && world.service is Ok
            &&& t.contains(ActionView::AdjustNofile) <==> world.service is Ok && match (
                path,
                world.config,
            ) {
                (Some(_), Ok(file)) => raises(given, file),
                (Some(_), Err(_)) => false,
                (None, _) => raises(
                    given,
                    LoadedView { setup: seeds.blank, platform: Platform::nothing() },
                ),
            }
        }),
{
    let turn = prepare(path, seeds);
    let t = trace(given, turn, world, n);
    let m = (n - 1) as nat;
    lemma_late(given, turn, world, n, 1);
    let following = next(given, turn.stage, world.reply(turn.action));
    let rest = trace(given, following, world, m);
    assert(t == seq![turn.action] + rest);
    if let Ok(service) = world.service {
        assert(following == serviced(given, path, service, seeds));
        lemma_course_logged(given, path, service.runtime, seeds, world, m);
        if given.target.logging {
            let k = (m - 1) as nat;
            lemma_course_logged(given, path, service.runtime, seeds, world, k);
            let after = logged(given, path, service.runtime, seeds);
            let last = trace(given, after, world, k);
            assert(rest == seq![following.action] + last);
            lemma_prepend(following.action, last);
        }
    } else {
        assert(rest == seq![following.action]);
        lemma_one(following.action);
    }
    lemma_prepend(turn.action, rest);
}

/// The file that was given is used; without one, and without the address of the manager, the
/// default one is looked for, by its name, and used if it is there. What the program is told of
/// itself comes from that file and no other, and so does the configuration.
pub proof fn law_file_is_the_right_one(
    given: Given,
    seeds: SeedsView,
    world: World,
    path: Option<PathBuf>,
    name: Seq<char>,
    other: Option<PathBuf>,
    loaded: PathBuf,
)
    requires
        told_alike(given.options),
        given.options.config is Some ==> path == given.options.config,
        given.options.config is None && given.options.server_config ==> path is None,
        given.options.config is None && !given.options.server_config ==> path
            == world.default_config,
        path is None ==> world.service is Ok,
    ensures
        ({
            let t = course(given, seeds, world);
            &&& t.contains(ActionView::FindDefaultConfig(name)) <==> given.options.config is None
                && !given.options.server_config && name == "manager.json"@
            &&& t.contains(ActionView::PrepareService(other)) <==> other == path
            &&& t.contains(ActionView::LoadConfig(loaded)) <==> path == Some(loaded)
                && world.service is Ok
        }),
{
    lemma_course(given, seeds, world, path);
}

/// The log is started where there is one, from its own file, or else under the name of the
/// program.
pub proof fn law_log_is_started(
    given: Given,
    seeds: SeedsView,
    world: World,
    logging: LoggingView,
)
    requires
        told_alike(given.options),
        world.service is Ok,
    ensures
        course(given, seeds, world).contains(ActionView::InitLogging(logging)) <==> {
            &&& given.target.logging
            &&& match world.service->Ok_0.log_config_path {
                Some(file) => logging == LoggingView::File(file),
                None => logging == LoggingView::Named("sslocal"@),
            }
        },
{
    let path = if given.options.config is Some {
        given.options.config
    } else if given.options.server_config {
        None
    } else {
        world.default_config
    };
    lemma_course(given, seeds, world, path);
}

/// The limit on open files is raised exactly where there is such a limit and neither the command
/// line nor the file sets it.
pub proof fn law_limit_is_raised_where_none_is_set(
    given: Given,
    seeds: SeedsView,
    world: World,
    path: Option<PathBuf>,
)
    requires
        told_alike(given.options),
        given.options.config is Some ==> path == given.options.config,
        given.options.config is None && given.options.server_config ==> path is None,
        given.options.config is None && !given.options.server_config ==> path
            == world.default_config,
        world.service is Ok,
        path is Some ==> world.config is Ok,
    ensures
        course(given, seeds, world).contains(ActionView::AdjustNofile) <==> {
            &&& given.target.unix && !given.target.android
            &&& given.options.nofile is None
            &&& path is Some ==> world.config->Ok_0.platform.nofile is None
        },
{
    lemma_course(given, seeds, world, path);
}

proof fn lemma_course(given: Given, seeds: SeedsView, world: World, path: Option<PathBuf>)
    requires
        told_alike(given.options),
        given.options.config is Some ==> path == given.options.config,
        given.options.config is None && given.options.server_config ==> path is None,
        given.options.config is None && !given.options.server_config ==> path
            == world.default_config,
        path is None ==> world.service is Ok,
    ensures
        ({
            let t = course(given, seeds, world);
            &&& forall|name: Seq<char>| #[trigger]
                t.contains(ActionView::FindDefaultConfig(name)) <==> given.options.config is None
                    && !given.options.server_config && name == "manager.json"@
            &&& forall|q: Option<PathBuf>| #[trigger]
                t.contains(ActionView::PrepareService(q)) <==> q == path
            &&& forall|l: LoggingView| #[trigger]
                t.contains(ActionView::InitLogging(l)) <==> given.target.logging && (
                world.service matches Ok(service) && match service.log_config_path {
                    Some(file) => l == LoggingView::File(file),
                    None => l == LoggingView::Named("sslocal"@),
                })
            &&& forall|p: PathBuf| #[trigger]
                t.contains(ActionView::LoadConfig(p)) <==> path == Some(p) && world.service is Ok
            &&& t.contains(ActionView::AdjustNofile) <==> world.service is Ok && match (
                path,
                world.config,
            ) {
                (Some(_), Ok(file)) => raises(given, file),
                (Some(_), Err(_)) => false,
                (None, _) => raises(
                    given,
                    LoadedView { setup: seeds.blank, platform: Platform::nothing() },
                ),
            }
        }),
{
    lemma_course_prepare(given, path, seeds, world, 8);
    lemma_course_prepare(given, path, seeds, world, 7);
    let turn = begin(given, seeds);
    if given.options.config is None && !given.options.server_config {
        let rest = trace(given, prepare(path, seeds), world, 7);
        assert(course(given, seeds, world) == seq![turn.action] + rest);
        lemma_prepend(turn.action, rest);
    }
}

} // verus!
