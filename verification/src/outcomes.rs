//! What bringing a manager up comes to.

use std::path::PathBuf;

use shadowsocks_service::acl::AccessControl;
use vstd::prelude::*;

use crate::arguments::OptionsView;
use crate::config::{
    dns_stop, integrity_fault, manager_stop, mode_named, prefer, server_count, with_acl,
    with_limits, with_manager, with_network, ManagerView, SetupView, StopView,
};
use crate::error::{
    acl_failure, address_missing, config_failure, integrity_failure, user_failure,
};
use crate::launch::{
    answers, begin, controlled, detached, end, limited, loaded, logged, next, prepare, serviced,
    sown, switched, ActionView, DraftView, Given, LoadedView, Platform, ReplyView, RuntimeConfig,
    SeedsView, ServiceConfig, StageView, Turn,
};
use crate::laws::configured;
use crate::vparser::cipher_named;

verus! {

/// What the outside world answers.
pub struct World {
    /// The default configuration file, if there is one.
    pub default_config: Option<PathBuf>,
    /// What the program is told of itself.
    pub service: Result<ServiceConfig, Seq<char>>,
    /// The configuration file.
    pub config: Result<LoadedView, Seq<char>>,
    /// The access control list.
    pub acl: Result<AccessControl, Seq<char>>,
    /// The change of the user.
    pub user: Result<(), Seq<char>>,
}

impl World {
    /// The answer to an action.
    pub open spec fn reply(self, action: ActionView) -> ReplyView {
        match action {
            ActionView::FindDefaultConfig(_) => ReplyView::DefaultConfig(self.default_config),
            ActionView::PrepareService(_) => ReplyView::Service(self.service),
            ActionView::LoadConfig(_) => ReplyView::Config(self.config),
            ActionView::LoadAcl(_) => ReplyView::Acl(self.acl),
            ActionView::SwitchUser(_) => ReplyView::User(self.user),
            _ => ReplyView::Done,
        }
    }
}

/// How many replies are waited for at most from a stage on, this one's included.
pub open spec fn left(stage: StageView) -> nat {
    match stage {
        StageView::FindConfig(_) => 8,
        StageView::Service(..) => 7,
        StageView::Logging(..) => 6,
        StageView::Load(..) => 5,
        StageView::Nofile(_) => 4,
        StageView::Acl(..) => 3,
        StageView::Background(_) => 2,
        StageView::User(_) => 1,
        StageView::Ended => 0,
    }
}

/// Whether a stage that touches the process is reached with a configuration that is sound.
pub open spec fn sound(stage: StageView) -> bool {
    match stage {
        StageView::Background(draft) => ready(draft.setup),
        StageView::User(draft) => ready(draft.setup),
        _ => true,
    }
}

/// Whether a configuration can be run.
pub open spec fn ready(setup: SetupView) -> bool {
    setup.manager is Some && integrity_fault(true, setup.rest) is None
}

/// Whether a turn goes into the background, becomes another user or runs a manager only with a
/// configuration that is sound.
pub open spec fn sound_turn(turn: Turn) -> bool {
    &&& sound(turn.stage)
    &&& turn.action is Daemonize ==> turn.stage is Background
    &&& turn.action is SwitchUser ==> turn.stage is User
    &&& turn.action matches ActionView::Run(_, setup, _) ==> ready(setup)
}

proof fn lemma_after_controlled(given: Given, draft: DraftView)
    ensures
        sound_turn(controlled(given, draft)),
        left(controlled(given, draft).stage) <= 2,
{
}

proof fn lemma_after_limited(given: Given, draft: DraftView)
    ensures
        sound_turn(limited(given, draft)),
        left(limited(given, draft).stage) <= 3,
{
    lemma_after_controlled(
        given,
        DraftView { setup: with_manager(draft.setup, given.options), ..draft },
    );
}

proof fn lemma_after_loaded(
    given: Given,
    file: LoadedView,
    runtime: RuntimeConfig,
    fresh: Option<ManagerView>,
)
    ensures
        sound_turn(loaded(given, file, runtime, fresh)),
        left(loaded(given, file, runtime, fresh).stage) <= 4,
{
    lemma_after_limited(
        given,
        DraftView {
            setup: with_network(file.setup, given.options, fresh),
            platform: file.platform.overridden(given.options),
            runtime,
        },
    );
}

proof fn lemma_after_logged(
    given: Given,
    path: Option<PathBuf>,
    runtime: RuntimeConfig,
    seeds: SeedsView,
)
    ensures
        sound_turn(logged(given, path, runtime, seeds)),
        left(logged(given, path, runtime, seeds).stage) <= 5,
{
    let file = LoadedView { setup: seeds.blank, platform: Platform::nothing() };
    lemma_after_loaded(given, file, runtime, seeds.fresh);
}

proof fn lemma_next(given: Given, stage: StageView, reply: ReplyView)
    requires
        answers(stage, reply),
    ensures
        left(next(given, stage, reply).stage) < left(stage),
        sound(stage) ==> sound_turn(next(given, stage, reply)),
{
    match stage {
        StageView::Service(path, seeds) => {
            if let Ok(service) = reply->Service_0 {
                lemma_after_logged(given, path, service.runtime, seeds);
            }
        },
        StageView::Logging(path, runtime, seeds) => {
            lemma_after_logged(given, path, runtime, seeds);
        },
        StageView::Load(_, runtime, fresh) => {
            if let Ok(file) = reply->Config_0 {
                lemma_after_loaded(given, file, runtime, fresh);
            }
        },
        StageView::Nofile(draft) => {
            lemma_after_limited(given, draft);
        },
        StageView::Acl(draft, _) => {
            if let Ok(acl) = reply->Acl_0 {
                lemma_after_controlled(
                    given,
                    DraftView { setup: with_acl(draft.setup, acl), ..draft },
                );
            }
        },
        _ => {},
    }
}

/// Bringing a manager up comes to an end: every reply that is waited for leaves fewer to wait
/// for.
pub proof fn law_every_reply_is_progress(given: Given, stage: StageView, reply: ReplyView)
    requires
        answers(stage, reply),
    ensures
        left(next(given, stage, reply).stage) < left(stage),
{
    lemma_next(given, stage, reply);
}

/// Where bringing a manager up has got from `turn` after so many replies of `world`.
pub open spec fn reached(given: Given, turn: Turn, world: World, replies: nat) -> Turn
    decreases replies,
{
    let reply = world.reply(turn.action);
    if replies > 0 && answers(turn.stage, reply) {
        reached(given, next(given, turn.stage, reply), world, (replies - 1) as nat)
    } else {
        turn
    }
}

/// The configuration file that is used, if one is.
pub open spec fn chosen(options: OptionsView, default_config: Option<PathBuf>) -> Option<PathBuf> {
    if options.config is Some {
        options.config
    } else if options.server_config {
        None
    } else {
        default_config
    }
}

/// What options are put into: what the file says, or else a blank configuration.
pub open spec fn base(given: Given, seeds: SeedsView, world: World) -> LoadedView {
    match (chosen(given.options, world.default_config), world.config) {
        (Some(_), Ok(file)) => file,
        _ => LoadedView { setup: seeds.blank, platform: Platform::nothing() },
    }
}

/// The access control list that is put in, if one is.
pub open spec fn acl(given: Given, world: World) -> Option<AccessControl> {
    match (given.options.acl, world.acl) {
        (Some(_), Ok(acl)) => Some(acl),
        _ => None,
    }
}

/// What is run where nothing is in the way.
pub open spec fn run(given: Given, seeds: SeedsView, world: World) -> ActionView {
    let file = base(given, seeds, world);
    ActionView::Run(
        world.service->Ok_0.runtime.planned(),
        configured(given.options, file.setup, seeds.fresh, acl(given, world)),
        file.platform.overridden(given.options),
    )
}

/// Whether there is a manager's part, from the file or from the command line.
pub open spec fn has_manager(given: Given, seeds: SeedsView, world: World) -> bool {
    base(given, seeds, world).setup.manager is Some || given.options.manager_addr is Some
}

/// What the manager comes to: the first thing that is in the way, or the run.
pub open spec fn outcome(given: Given, seeds: SeedsView, world: World) -> ActionView {
    let options = given.options;
    let path = chosen(options, world.default_config);
    let file = base(given, seeds, world).setup;
    if path is Some && world.service is Err {
        ActionView::Fail(config_failure(path->0, world.service->Err_0))
    } else if path is Some && world.config is Err {
        ActionView::Fail(config_failure(path->0, world.config->Err_0))
    } else if has_manager(given, seeds, world) && (options.encrypt_method matches Some(method)
        && cipher_named(method) is None) {
        ActionView::Panic(StopView::Method("ParseCipherKindError"@))
    } else if has_manager(given, seeds, world) && options.plugin is Some && (
    options.plugin_mode matches Some(mode) && mode_named(mode) is None) {
        ActionView::Panic(StopView::PluginMode)
    } else if options.acl is Some && world.acl is Err {
        ActionView::Fail(acl_failure(options.acl->0, world.acl->Err_0))
    } else if dns_stop(options) is Some {
        ActionView::Panic(dns_stop(options)->0)
    } else if !has_manager(given, seeds, world) {
        ActionView::Fail(address_missing())
    } else if integrity_fault(true, file.rest) is Some {
        ActionView::Fail(integrity_failure(integrity_fault(true, file.rest)->0))
    } else if options.user is Some && world.user is Err {
        ActionView::Fail(user_failure(world.user->Err_0))
    } else {
        run(given, seeds, world)
    }
}

/// Whether `world` can answer: what the program is told of itself cannot be wrong where it
/// comes from no file.
pub open spec fn possible(given: Given, world: World) -> bool {
    chosen(given.options, world.default_config) is None ==> world.service is Ok
}

/// What `detached` comes to.
spec fn after_detached(given: Given, draft: DraftView, world: World) -> ActionView {
    if given.options.user is Some && world.user is Err {
        ActionView::Fail(user_failure(world.user->Err_0))
    } else {
        switched(given, draft).action
    }
}

/// What `controlled` comes to.
spec fn after_controlled(given: Given, draft: DraftView, world: World) -> ActionView {
    if dns_stop(given.options) is Some {
        ActionView::Panic(dns_stop(given.options)->0)
    } else if draft.setup.manager is None {
        ActionView::Fail(address_missing())
    } else if integrity_fault(true, draft.setup.rest) is Some {
        ActionView::Fail(integrity_failure(integrity_fault(true, draft.setup.rest)->0))
    } else {
        after_detached(
            given,
            DraftView { setup: with_limits(draft.setup, given.options), ..draft },
            world,
        )
    }
}

/// What `limited` comes to.
spec fn after_limited(given: Given, draft: DraftView, world: World) -> ActionView {
    let setup = with_manager(draft.setup, given.options);
    if manager_stop(draft.setup, given.options) is Some {
        ActionView::Panic(manager_stop(draft.setup, given.options)->0)
    } else if given.options.acl is Some && world.acl is Err {
        ActionView::Fail(acl_failure(given.options.acl->0, world.acl->Err_0))
    } else if given.options.acl is Some {
        after_controlled(
            given,
            DraftView { setup: with_acl(setup, world.acl->Ok_0), ..draft },
            world,
        )
    } else {
        after_controlled(given, DraftView { setup, ..draft }, world)
    }
}

/// What `loaded` comes to.
spec fn after_loaded(
    given: Given,
    file: LoadedView,
    runtime: RuntimeConfig,
    fresh: Option<ManagerView>,
    world: World,
) -> ActionView {
    after_limited(
        given,
        DraftView {
            setup: with_network(file.setup, given.options, fresh),
            platform: file.platform.overridden(given.options),
            runtime,
        },
        world,
    )
}

/// What `prepare` comes to.
spec fn after_prepare(
    given: Given,
    path: Option<PathBuf>,
    seeds: SeedsView,
    world: World,
) -> ActionView {
    if path is Some && world.service is Err {
        ActionView::Fail(config_failure(path->0, world.service->Err_0))
    } else if path is Some && world.config is Err {
        ActionView::Fail(config_failure(path->0, world.config->Err_0))
    } else {
        after_loaded(
            given,
            if path is Some {
                world.config->Ok_0
            } else {
                LoadedView { setup: seeds.blank, platform: Platform::nothing() }
            },
            world.service->Ok_0.runtime,
            seeds.fresh,
            world,
        )
    }
}

proof fn lemma_detached(given: Given, draft: DraftView, world: World, n: nat)
    requires
        n >= 1,
    ensures
        reached(given, detached(given, draft), world, n) == end(
            after_detached(given, draft, world),
        ),
{
    reveal_with_fuel(reached, 3);
}

proof fn lemma_controlled(given: Given, draft: DraftView, world: World, n: nat)
    requires
        n >= 2,
    ensures
        reached(given, controlled(given, draft), world, n) == end(
            after_controlled(given, draft, world),
        ),
{
    let full = DraftView { setup: with_limits(draft.setup, given.options), ..draft };
    lemma_detached(given, full, world, n);
    lemma_detached(given, full, world, (n - 1) as nat);
}

proof fn lemma_limited(given: Given, draft: DraftView, world: World, n: nat)
    requires
        n >= 3,
    ensures
        reached(given, limited(given, draft), world, n) == end(after_limited(given, draft, world)),
{
    let full = DraftView { setup: with_manager(draft.setup, given.options), ..draft };
    lemma_controlled(given, full, world, n);
    if given.options.acl is Some && world.acl is Ok {
        lemma_controlled(
            given,
            DraftView { setup: with_acl(full.setup, world.acl->Ok_0), ..full },
            world,
            (n - 1) as nat,
        );
    }
    reveal_with_fuel(reached, 2);
}

proof fn lemma_loaded(
    given: Given,
    file: LoadedView,
    runtime: RuntimeConfig,
    fresh: Option<ManagerView>,
    world: World,
    n: nat,
)
    requires
        n >= 4,
    ensures
        reached(given, loaded(given, file, runtime, fresh), world, n) == end(
            after_loaded(given, file, runtime, fresh, world),
        ),
{
    let draft = DraftView {
        setup: with_network(file.setup, given.options, fresh),
        platform: file.platform.overridden(given.options),
        runtime,
    };
    lemma_limited(given, draft, world, n);
    lemma_limited(given, draft, world, (n - 1) as nat);
}

proof fn lemma_logged(
    given: Given,
    path: Option<PathBuf>,
    runtime: RuntimeConfig,
    seeds: SeedsView,
    world: World,
    n: nat,
)
    requires
        n >= 5,
        world.service is Ok,
        world.service->Ok_0.runtime == runtime,
    ensures
        reached(given, logged(given, path, runtime, seeds), world, n) == end(
            after_prepare(given, path, seeds, world),
        ),
{
    if path is None {
        let file = LoadedView { setup: seeds.blank, platform: Platform::nothing() };
        lemma_loaded(given, file, runtime, seeds.fresh, world, n);
    } else if world.config is Ok {
        lemma_loaded(given, world.config->Ok_0, runtime, seeds.fresh, world, (n - 1) as nat);
    } else {
        reveal_with_fuel(reached, 2);
    }
}

proof fn lemma_prepare(
    given: Given,
    path: Option<PathBuf>,
    seeds: SeedsView,
    world: World,
    n: nat,
)
    requires
        n >= 7,
        path is None ==> world.service is Ok,
    ensures
        reached(given, prepare(path, seeds), world, n) == end(
            after_prepare(given, path, seeds, world),
        ),
{
    if world.service is Ok {
        let service = world.service->Ok_0;
        lemma_logged(given, path, service.runtime, seeds, world, (n - 1) as nat);
        lemma_logged(given, path, service.runtime, seeds, world, (n - 2) as nat);
        let turn = serviced(given, path, service, seeds);
        assert(reached(given, turn, world, (n - 1) as nat) == end(
            after_prepare(given, path, seeds, world),
        ));
    } else {
        reveal_with_fuel(reached, 2);
    }
}

proof fn lemma_configured(
    options: OptionsView,
    base: SetupView,
    fresh: Option<ManagerView>,
    acl: AccessControl,
)
    ensures
        ({
            let setup = with_manager(with_network(base, options, fresh), options);
            &&& with_limits(setup, options) == configured(options, base, fresh, None)
            &&& with_limits(with_acl(setup, acl), options) == configured(
                options,
                base,
                fresh,
                Some(acl),
            )
        }),
{
}

proof fn lemma_outcome(given: Given, seeds: SeedsView, world: World)
    requires
        sown(seeds, given.options),
    ensures
        after_prepare(given, chosen(given.options, world.default_config), seeds, world) == outcome(
            given,
            seeds,
            world,
        ),
{
    let options = given.options;
    let file = base(given, seeds, world);
    let path = chosen(options, world.default_config);
    lemma_configured(options, file.setup, seeds.fresh, world.acl->Ok_0);
    let setup = with_network(file.setup, options, seeds.fresh);
    assert(setup.manager is Some <==> has_manager(given, seeds, world));
    let draft = DraftView {
        setup,
        platform: file.platform.overridden(options),
        runtime: world.service->Ok_0.runtime,
    };
    if !(path is Some && (world.service is Err || world.config is Err)) {
        assert(after_prepare(given, path, seeds, world) == after_limited(given, draft, world));
        assert(after_limited(given, draft, world) == outcome(given, seeds, world));
    }
}

proof fn lemma_reached(given: Given, seeds: SeedsView, world: World)
    requires
        possible(given, world),
    ensures
        reached(given, begin(given, seeds), world, 8) == end(
            after_prepare(given, chosen(given.options, world.default_config), seeds, world),
        ),
{
    let path = chosen(given.options, world.default_config);
    lemma_prepare(given, path, seeds, world, 8);
    lemma_prepare(given, path, seeds, world, 7);
}

/// Bringing a manager up takes eight replies at most, and comes to what `outcome` says.
pub proof fn law_launch_comes_to_its_outcome(given: Given, seeds: SeedsView, world: World)
    requires
        sown(seeds, given.options),
        possible(given, world),
    ensures
        reached(given, begin(given, seeds), world, 8) == end(outcome(given, seeds, world)),
{
    lemma_outcome(given, seeds, world);
    lemma_reached(given, seeds, world);
}

/// A manager that is run has a manager's part and nothing wrong with it, and has become the user
/// that was asked for. What is not listed in its configuration, its servers among it, is as the
/// file has it, up to what `Platform` puts in: the limit on open files, the firewall mark, the
/// user cookie and the working directory of servers.
pub proof fn law_what_is_run_is_sound(given: Given, seeds: SeedsView, world: World)
    requires
        sown(seeds, given.options),
        outcome(given, seeds, world) is Run,
    ensures
        ({
            let setup = outcome(given, seeds, world)->Run_1;
            &&& setup.manager is Some
            &&& integrity_fault(true, setup.rest) is None
            &&& setup.rest == base(given, seeds, world).setup.rest
            &&& given.options.user is Some ==> world.user is Ok
            &&& given.options.acl is Some ==> setup.settings.acl == Some(world.acl->Ok_0)
            &&& given.options.manager_addr matches Some(addr) ==> setup.manager->0.addr == addr
        }),
{
}

/// What a manager that is run has under names that only some targets have is what the command
/// line gives, and otherwise what the file gives.
pub proof fn law_options_win_on_every_target(given: Given, seeds: SeedsView, world: World)
    requires
        outcome(given, seeds, world) is Run,
    ensures
        ({
            let platform = outcome(given, seeds, world)->Run_2;
            let file = base(given, seeds, world).platform;
            let options = given.options;
            &&& platform.nofile == prefer(options.nofile, file.nofile)
            &&& platform.outbound_fwmark == prefer(options.outbound_fwmark, file.outbound_fwmark)
            &&& platform.outbound_user_cookie == prefer(
                options.outbound_user_cookie,
                file.outbound_user_cookie,
            )
            &&& platform.server_working_directory == prefer(
                options.manager_server_working_directory,
                file.server_working_directory,
            )
        }),
{
}

/// The complaint that the address of the manager is missing comes only where neither the file
/// nor the command line gives one. Where neither does, nothing is run, and that is the
/// complaint, unless something else was in the way before.
pub proof fn law_address_is_needed(given: Given, seeds: SeedsView, world: World)
    ensures
        outcome(given, seeds, world) == ActionView::Fail(address_missing()) ==> !has_manager(
            given,
            seeds,
            world,
        ),
        !has_manager(given, seeds, world) ==> outcome(given, seeds, world) !is Run,
        !has_manager(given, seeds, world) && (chosen(given.options, world.default_config) is Some
            ==> world.service is Ok && world.config is Ok) && (given.options.acl is Some
            ==> world.acl is Ok) && dns_stop(given.options) is None ==> outcome(
            given,
            seeds,
            world,
        ) == ActionView::Fail(address_missing()),
{
    reveal_strlit("failed to change as user, error: ");
    reveal_strlit(
        "missing `manager_address`, consider specifying it by --manager-address command line option, or \"manager_address\" and \"manager_port\" keys in configuration file",
    );
    if world.user is Err {
        let user = user_failure(world.user->Err_0);
        assert(user.text()[0] == 'f');
        assert(address_missing().text()[0] == 'm');
    }
}

/// The address of the manager is all that is needed: where it is given, nothing else is looked
/// for, and where nothing else is asked for that could fail, the manager is run, with defaults
/// for what was not given.
pub proof fn law_address_is_enough(given: Given, seeds: SeedsView, world: World)
    requires
        sown(seeds, given.options),
        world.service is Ok,
        given.options.manager_addr is Some,
        given.options.server_config,
        given.options.config is None,
        given.options.encrypt_method is None,
        given.options.plugin is None,
        given.options.acl is None,
        given.options.dns is None,
        given.options.user is None,
    ensures
        begin(given, seeds) == prepare(None, seeds),
        outcome(given, seeds, world) == run(given, seeds, world),
        run(given, seeds, world)->Run_1 == configured(
            given.options,
            seeds.blank,
            seeds.fresh,
            None,
        ),
        server_count(run(given, seeds, world)->Run_1.rest) == 0,
{
}

/// The program goes into the background, becomes another user and runs a manager only once the
/// configuration is known to be sound.
pub proof fn law_soundness_comes_first(given: Given, stage: StageView, reply: ReplyView)
    requires
        sound(stage),
        answers(stage, reply),
    ensures
        sound_turn(next(given, stage, reply)),
{
    lemma_next(given, stage, reply);
}

} // verus!
