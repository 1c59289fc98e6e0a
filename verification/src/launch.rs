//! Bringing a manager up: what to do next, given what was on the command line and what the
//! outside world has answered so far.

use std::path::PathBuf;

use clap::ArgMatches;
use shadowsocks_service::acl::AccessControl;
use shadowsocks_service::config::Config;
use vstd::pervasive::unreached;
use vstd::prelude::*;

use crate::arguments::{
    all_readable, manager_values, match_command_line, matched, names_alike, options_in,
    read_options, texts, ManagerOptions, OptionsView,
};
use crate::config::{
    blank, check_integrity, dns_stop, either, is_fresh, integrity_fault, manager_stop,
    opt_manager, prefer, service_view, with_acl, with_limits, with_manager, with_network,
    ManagerSetup, ManagerView, Setup, SetupView, Stop,
    StopView,
};
use crate::error::{
    acl_failure, address_missing, config_failure, fail_acl, fail_address, fail_config,
    fail_integrity, fail_user, integrity_failure, user_failure, ErrorView, ShadowsocksError,
};
use crate::options::{manager_groups, manager_options};
use crate::target::Target;

verus! {

/// The file name under which a configuration is looked for where none was given.
pub const DEFAULT_CONFIG: &'static str = "manager.json";

/// The name under which the program logs.
pub const LOG_NAME: &'static str = "sslocal";

/// Whether tasks run on one thread or on several.
#[derive(Clone, Copy, Debug, PartialEq, Eq, Structural)]
pub enum RuntimeMode {
    SingleThread,
    MultiThread,
}

/// How tasks are run, as configured.
#[derive(Clone, Copy, Debug, PartialEq, Eq, Structural)]
pub struct RuntimeConfig {
    pub mode: RuntimeMode,
    pub worker_count: Option<usize>,
}

/// The runtime to build.
#[derive(Clone, Copy, Debug, PartialEq, Eq, Structural)]
pub enum RuntimePlan {
    /// One thread, the current one.
    CurrentThread,
    /// Several threads: so many, or as many as is usual.
    MultiThread(Option<usize>),
}

impl RuntimeConfig {
    /// The runtime to build. The number of threads counts only where there are several.
    pub open spec fn planned(self) -> RuntimePlan {
        match self.mode {
            RuntimeMode::SingleThread => RuntimePlan::CurrentThread,
            RuntimeMode::MultiThread => RuntimePlan::MultiThread(self.worker_count),
        }
    }

    /// The runtime to build. The number of threads counts only where there are several.
    pub fn plan(self) -> (r: RuntimePlan)
        ensures
            r == self.planned(),
    {
        match self.mode {
            RuntimeMode::SingleThread => RuntimePlan::CurrentThread,
            RuntimeMode::MultiThread => RuntimePlan::MultiThread(self.worker_count),
        }
    }
}

/// What the program is told of itself: how tasks are run, and where the configuration of its
/// log is, if it has a file of its own.
#[derive(Debug)]
pub struct ServiceConfig {
    pub runtime: RuntimeConfig,
    pub log_config_path: Option<PathBuf>,
}

/// What a configuration holds under names that only some targets have. On a target without a
/// name, its value is missing.
pub struct Platform {
    /// The limit on open files.
    pub nofile: Option<u64>,
    /// `SO_MARK` of outbound sockets.
    pub outbound_fwmark: Option<u32>,
    /// `SO_USER_COOKIE` of outbound sockets.
    pub outbound_user_cookie: Option<u32>,
    /// Where servers keep their files. This belongs to the manager's part; where it is missing,
    /// a manager's part keeps its own.
    pub server_working_directory: Option<PathBuf>,
}

impl Platform {
    /// Nothing under any of the names.
    pub open spec fn nothing() -> Platform {
        Platform {
            nofile: None,
            outbound_fwmark: None,
            outbound_user_cookie: None,
            server_working_directory: None,
        }
    }

    /// What was given on the command line, and otherwise what was there.
    pub open spec fn overridden(self, options: OptionsView) -> Platform {
        Platform {
            nofile: prefer(options.nofile, self.nofile),
            outbound_fwmark: prefer(options.outbound_fwmark, self.outbound_fwmark),
            outbound_user_cookie: prefer(options.outbound_user_cookie, self.outbound_user_cookie),
            server_working_directory: prefer(
                options.manager_server_working_directory,
                self.server_working_directory,
            ),
        }
    }

    fn none() -> (r: Platform)
        ensures
            r == Platform::nothing(),
    {
        Platform {
            nofile: None,
            outbound_fwmark: None,
            outbound_user_cookie: None,
            server_working_directory: None,
        }
    }

    /// Takes in the options under names that only some targets have.
    pub fn apply(self, options: &ManagerOptions) -> (r: Platform)
        ensures
            r == self.overridden(options@),
    {
        Platform {
            nofile: either(options.nofile, self.nofile),
            outbound_fwmark: either(options.outbound_fwmark, self.outbound_fwmark),
            outbound_user_cookie: either(options.outbound_user_cookie, self.outbound_user_cookie),
            server_working_directory: either(
                clone_path(&options.manager_server_working_directory),
                self.server_working_directory,
            ),
        }
    }
}

/// A configuration file that was loaded.
pub struct Loaded {
    pub config: Config,
    /// What `config` holds under names that only some targets have.
    pub platform: Platform,
}

/// What a configuration file that was loaded says.
pub struct LoadedView {
    pub setup: SetupView,
    pub platform: Platform,
}

/// Where the configuration of the log comes from.
pub enum Logging {
    /// A file.
    File(PathBuf),
    /// What the program is told of itself, under this name.
    Named(&'static str),
}

/// `Logging`, with the name as a sequence of characters.
pub enum LoggingView {
    File(PathBuf),
    Named(Seq<char>),
}

/// What to do next.
pub enum Action {
    /// Look for a configuration file of this name.
    FindDefaultConfig(&'static str),
    /// Read what the program is told of itself: from a file, or from nowhere, and from the
    /// command line.
    PrepareService(Option<PathBuf>),
    /// Start the log.
    InitLogging(Logging),
    /// Load a configuration file.
    LoadConfig(PathBuf),
    /// Raise the limit on open files as far as it goes.
    AdjustNofile,
    /// Load an access control list.
    LoadAcl(String),
    /// Go into the background, and store the process id in a file, if there is one.
    Daemonize(Option<PathBuf>),
    /// Run as another user.
    SwitchUser(String),
    /// Run the manager, once the values of the platform are in the configuration. This is the
    /// end of bringing it up.
    Run(RuntimePlan, Config, Platform),
    /// Give up with an error. This is the end.
    Fail(ShadowsocksError),
    /// Stop the program. This is the end.
    Panic(Stop),
}

/// What to do next, with texts as sequences of characters.
pub enum ActionView {
    FindDefaultConfig(Seq<char>),
    PrepareService(Option<PathBuf>),
    InitLogging(LoggingView),
    LoadConfig(PathBuf),
    AdjustNofile,
    LoadAcl(Seq<char>),
    Daemonize(Option<PathBuf>),
    SwitchUser(Seq<char>),
    Run(RuntimePlan, SetupView, Platform),
    Fail(ErrorView),
    Panic(StopView),
}

/// What came of an action.
pub enum Reply {
    /// Of `FindDefaultConfig`: the file, if there is one.
    DefaultConfig(Option<PathBuf>),
    /// Of `PrepareService`. Without a file it does not fail.
    Service(Result<ServiceConfig, String>),
    /// Of `LoadConfig`.
    Config(Result<Loaded, String>),
    /// Of `LoadAcl`.
    Acl(Result<AccessControl, String>),
    /// Of `SwitchUser`.
    User(Result<(), String>),
    /// Of what does not fail: `InitLogging`, `AdjustNofile` and `Daemonize`.
    Done,
}

/// What came of an action, with texts as sequences of characters.
pub enum ReplyView {
    DefaultConfig(Option<PathBuf>),
    Service(Result<ServiceConfig, Seq<char>>),
    Config(Result<LoadedView, Seq<char>>),
    Acl(Result<AccessControl, Seq<char>>),
    User(Result<(), Seq<char>>),
    Done,
}

impl View for Loaded {
    type V = LoadedView;

    open spec fn view(&self) -> LoadedView {
        LoadedView { setup: service_view(self.config), platform: self.platform }
    }
}

impl View for Logging {
    type V = LoggingView;

    open spec fn view(&self) -> LoggingView {
        match self {
            Logging::File(path) => LoggingView::File(*path),
            Logging::Named(name) => LoggingView::Named(name@),
        }
    }
}

impl View for Action {
    type V = ActionView;

    open spec fn view(&self) -> ActionView {
        match self {
            Action::FindDefaultConfig(name) => ActionView::FindDefaultConfig(name@),
            Action::PrepareService(path) => ActionView::PrepareService(*path),
            Action::InitLogging(logging) => ActionView::InitLogging(logging@),
            Action::LoadConfig(path) => ActionView::LoadConfig(*path),
            Action::AdjustNofile => ActionView::AdjustNofile,
            Action::LoadAcl(file) => ActionView::LoadAcl(file@),
            Action::Daemonize(path) => ActionView::Daemonize(*path),
            Action::SwitchUser(user) => ActionView::SwitchUser(user@),
            Action::Run(plan, config, platform) => ActionView::Run(
                *plan,
                service_view(*config),
                *platform,
            ),
            Action::Fail(err) => ActionView::Fail(err@),
            Action::Panic(stop) => ActionView::Panic(stop@),
        }
    }
}

/// What came of something, with the text of an error as a sequence of characters.
pub open spec fn outcome_view<T>(outcome: Result<T, String>) -> Result<T, Seq<char>> {
    match outcome {
        Ok(value) => Ok(value),
        Err(err) => Err(err@),
    }
}

impl View for Reply {
    type V = ReplyView;

    open spec fn view(&self) -> ReplyView {
        match self {
            Reply::DefaultConfig(path) => ReplyView::DefaultConfig(*path),
            Reply::Service(outcome) => ReplyView::Service(outcome_view(*outcome)),
            Reply::Config(Ok(loaded)) => ReplyView::Config(Ok(loaded@)),
            Reply::Config(Err(err)) => ReplyView::Config(Err(err@)),
            Reply::Acl(outcome) => ReplyView::Acl(outcome_view(*outcome)),
            Reply::User(outcome) => ReplyView::User(outcome_view(*outcome)),
            Reply::Done => ReplyView::Done,
        }
    }
}

/// What to start from where there is no file: a blank configuration, and a manager's part at
/// the address that was given, if one was.
struct Seeds {
    blank: Setup,
    fresh: Option<ManagerSetup>,
}

/// What to start from where there is no file.
pub struct SeedsView {
    pub blank: SetupView,
    pub fresh: Option<ManagerView>,
}

impl Seeds {
    closed spec fn view(self) -> SeedsView {
        SeedsView { blank: self.blank@, fresh: opt_manager(self.fresh) }
    }
}

/// A configuration that options are being put into.
struct Draft {
    setup: Setup,
    platform: Platform,
    runtime: RuntimeConfig,
}

/// A configuration that all options have been put into.
struct Ready {
    config: Config,
    platform: Platform,
    runtime: RuntimeConfig,
}

/// A configuration, what goes into it on some targets only, and how tasks are run.
pub struct DraftView {
    pub setup: SetupView,
    pub platform: Platform,
    pub runtime: RuntimeConfig,
}

impl Draft {
    closed spec fn view(self) -> DraftView {
        DraftView { setup: self.setup@, platform: self.platform, runtime: self.runtime }
    }
}

impl Ready {
    closed spec fn view(self) -> DraftView {
        DraftView {
            setup: service_view(self.config),
            platform: self.platform,
            runtime: self.runtime,
        }
    }
}

/// What is being waited for.
enum Stage {
    FindConfig(Seeds),
    Service(Option<PathBuf>, Seeds),
    Logging(Option<PathBuf>, RuntimeConfig, Seeds),
    Load(PathBuf, RuntimeConfig, Option<ManagerSetup>),
    Nofile(Draft),
    Acl(Draft, String),
    Background(Ready),
    User(Ready),
    Ended,
}

/// What is being waited for.
pub enum StageView {
    /// The default configuration file.
    FindConfig(SeedsView),
    /// What the program is told of itself.
    Service(Option<PathBuf>, SeedsView),
    /// The log.
    Logging(Option<PathBuf>, RuntimeConfig, SeedsView),
    /// The configuration file.
    Load(PathBuf, RuntimeConfig, Option<ManagerView>),
    /// The limit on open files.
    Nofile(DraftView),
    /// The access control list.
    Acl(DraftView, Seq<char>),
    /// The background process.
    Background(DraftView),
    /// The change of the user.
    User(DraftView),
    /// Nothing any more.
    Ended,
}

impl Stage {
    closed spec fn view(self) -> StageView {
        match self {
            Stage::FindConfig(seeds) => StageView::FindConfig(seeds.view()),
            Stage::Service(path, seeds) => StageView::Service(path, seeds.view()),
            Stage::Logging(path, runtime, seeds) => StageView::Logging(path, runtime, seeds.view()),
            Stage::Load(path, runtime, fresh) => StageView::Load(path, runtime, opt_manager(fresh)),
            Stage::Nofile(draft) => StageView::Nofile(draft.view()),
            Stage::Acl(draft, file) => StageView::Acl(draft.view(), file@),
            Stage::Background(ready) => StageView::Background(ready.view()),
            Stage::User(ready) => StageView::User(ready.view()),
            Stage::Ended => StageView::Ended,
        }
    }
}

/// What does not change while a manager is brought up: what it is built for, and what was
/// given on the command line.
pub struct Given {
    pub target: Target,
    pub options: OptionsView,
}

/// What is being waited for, and what was done to wait for it.
pub struct Turn {
    pub stage: StageView,
    pub action: ActionView,
}

/// The end, with its action.
pub open spec fn end(action: ActionView) -> Turn {
    Turn { stage: StageView::Ended, action }
}

/// First, a configuration file is chosen: the one that was given; none, where the manager is
/// configured by the command line alone; and otherwise the default one.
pub open spec fn begin(given: Given, seeds: SeedsView) -> Turn {
    if given.options.config is Some {
        prepare(given.options.config, seeds)
    } else if given.options.server_config {
        prepare(None, seeds)
    } else {
        Turn {
            stage: StageView::FindConfig(seeds),
            action: ActionView::FindDefaultConfig(DEFAULT_CONFIG@),
        }
    }
}

/// Once the file is chosen, the program reads what it is told of itself.
pub open spec fn prepare(path: Option<PathBuf>, seeds: SeedsView) -> Turn {
    Turn {
        stage: StageView::Service(path, seeds),
        action: ActionView::PrepareService(path),
    }
}

/// Then the log is started, where there is one.
pub open spec fn serviced(
    given: Given,
    path: Option<PathBuf>,
    service: ServiceConfig,
    seeds: SeedsView,
) -> Turn {
    if given.target.logging {
        Turn {
            stage: StageView::Logging(path, service.runtime, seeds),
            action: ActionView::InitLogging(
                match service.log_config_path {
                    Some(file) => LoggingView::File(file),
                    None => LoggingView::Named(LOG_NAME@),
                },
            ),
        }
    } else {
        logged(given, path, service.runtime, seeds)
    }
}

/// Then the configuration file is loaded, where there is one.
pub open spec fn logged(
    given: Given,
    path: Option<PathBuf>,
    runtime: RuntimeConfig,
    seeds: SeedsView,
) -> Turn {
    match path {
        Some(path) => Turn {
            stage: StageView::Load(path, runtime, seeds.fresh),
            action: ActionView::LoadConfig(path),
        },
        None => loaded(
            given,
            LoadedView { setup: seeds.blank, platform: Platform::nothing() },
            runtime,
            seeds.fresh,
        ),
    }
}

/// Then the first options are put in. Where neither they nor the file set a limit on open
/// files, it is raised.
pub open spec fn loaded(
    given: Given,
    file: LoadedView,
    runtime: RuntimeConfig,
    fresh: Option<ManagerView>,
) -> Turn {
    let draft = DraftView {
        setup: with_network(file.setup, given.options, fresh),
        platform: file.platform.overridden(given.options),
        runtime,
    };
    if given.target.limits_files() && draft.platform.nofile is None {
        Turn { stage: StageView::Nofile(draft), action: ActionView::AdjustNofile }
    } else {
        limited(given, draft)
    }
}

/// Then the options on servers are put in, and the access control list is loaded, where one was
/// given.
pub open spec fn limited(given: Given, draft: DraftView) -> Turn {
    match manager_stop(draft.setup, given.options) {
        Some(stop) => end(ActionView::Panic(stop)),
        None => {
            let draft = DraftView { setup: with_manager(draft.setup, given.options), ..draft };
            match given.options.acl {
                Some(file) => Turn {
                    stage: StageView::Acl(draft, file),
                    action: ActionView::LoadAcl(file),
                },
                None => controlled(given, draft),
            }
        },
    }
}

/// Then the last options are put in, and the configuration is looked through.
pub open spec fn controlled(given: Given, draft: DraftView) -> Turn {
    match dns_stop(given.options) {
        Some(stop) => end(ActionView::Panic(stop)),
        None => {
            let draft = DraftView { setup: with_limits(draft.setup, given.options), ..draft };
            if draft.setup.manager is None {
                end(ActionView::Fail(address_missing()))
            } else {
                match integrity_fault(true, draft.setup.rest) {
                    Some(err) => end(ActionView::Fail(integrity_failure(err))),
                    None => approved(given, draft),
                }
            }
        },
    }
}

/// Then the program goes into the background, where that was asked for.
pub open spec fn approved(given: Given, draft: DraftView) -> Turn {
    if given.options.daemonize || given.options.daemonize_pid {
        Turn {
            stage: StageView::Background(draft),
            action: ActionView::Daemonize(given.options.daemonize_pid_path),
        }
    } else {
        detached(given, draft)
    }
}

/// Then the program becomes another user, where that was asked for.
pub open spec fn detached(given: Given, draft: DraftView) -> Turn {
    match given.options.user {
        Some(user) => Turn {
            stage: StageView::User(draft),
            action: ActionView::SwitchUser(user),
        },
        None => switched(given, draft),
    }
}

/// Last, the manager is run.
pub open spec fn switched(given: Given, draft: DraftView) -> Turn {
    end(ActionView::Run(draft.runtime.planned(), draft.setup, draft.platform))
}

/// Whether a reply is one that is being waited for.
pub open spec fn answers(stage: StageView, reply: ReplyView) -> bool {
    match stage {
        StageView::FindConfig(_) => reply is DefaultConfig,
        StageView::Service(path, _) => reply matches ReplyView::Service(outcome) && (path is None
            ==> outcome is Ok),
        StageView::Logging(..) => reply is Done,
        StageView::Load(..) => reply is Config,
        StageView::Nofile(_) => reply is Done,
        StageView::Acl(..) => reply is Acl,
        StageView::Background(_) => reply is Done,
        StageView::User(_) => reply is User,
        StageView::Ended => false,
    }
}

/// What follows a reply that was waited for.
pub open spec fn next(given: Given, stage: StageView, reply: ReplyView) -> Turn {
    match stage {
        StageView::FindConfig(seeds) => prepare(reply->DefaultConfig_0, seeds),
        StageView::Service(path, seeds) => match reply->Service_0 {
            Ok(service) => serviced(given, path, service, seeds),
            Err(err) => end(ActionView::Fail(config_failure(path->0, err))),
        },
        StageView::Logging(path, runtime, seeds) => logged(given, path, runtime, seeds),
        StageView::Load(path, runtime, fresh) => match reply->Config_0 {
            Ok(file) => loaded(given, file, runtime, fresh),
            Err(err) => end(ActionView::Fail(config_failure(path, err))),
        },
        StageView::Nofile(draft) => limited(given, draft),
        StageView::Acl(draft, file) => match reply->Acl_0 {
            Ok(acl) => controlled(
                given,
                DraftView { setup: with_acl(draft.setup, acl), ..draft },
            ),
            Err(err) => end(ActionView::Fail(acl_failure(file, err))),
        },
        StageView::Background(draft) => detached(given, draft),
        StageView::User(draft) => match reply->User_0 {
            Ok(_) => switched(given, draft),
            Err(err) => end(ActionView::Fail(user_failure(err))),
        },
        StageView::Ended => arbitrary(),
    }
}

/// A manager that is being brought up.
pub struct Launch {
    target: Target,
    options: ManagerOptions,
    stage: Stage,
}

impl Launch {
    /// What does not change.
    pub closed spec fn given(self) -> Given {
        Given { target: self.target, options: self.options@ }
    }

    /// What is being waited for.
    pub closed spec fn stage(self) -> StageView {
        self.stage.view()
    }

    /// Whether `self` and `action` are what `turn` says.
    pub open spec fn took(self, given: Given, turn: Turn, action: Action) -> bool {
        &&& self.given() == given
        &&& self.stage() == turn.stage
        &&& action@ == turn.action
    }

    fn wait(self, stage: Stage) -> (r: Launch)
        ensures
            r.given() == self.given(),
            r.stage() == stage.view(),
    {
        Launch { target: self.target, options: self.options, stage }
    }

    fn end(self, action: Action) -> (r: (Launch, Action))
        ensures
            r.0.took(self.given(), end(action@), r.1),
    {
        (self.wait(Stage::Ended), action)
    }

    fn prepare(self, path: Option<PathBuf>, seeds: Seeds) -> (r: (Launch, Action))
        ensures
            r.0.took(self.given(), prepare(path, seeds.view()), r.1),
    {
        let action = Action::PrepareService(clone_path(&path));
        (self.wait(Stage::Service(path, seeds)), action)
    }

    fn serviced(self, path: Option<PathBuf>, service: ServiceConfig, seeds: Seeds) -> (r: (
        Launch,
        Action,
    ))
        ensures
            r.0.took(self.given(), serviced(self.given(), path, service, seeds.view()), r.1),
    {
        if self.target.logging {
            let logging = match service.log_config_path {
                Some(file) => Logging::File(file),
                None => Logging::Named(LOG_NAME),
            };
            (self.wait(Stage::Logging(path, service.runtime, seeds)), Action::InitLogging(logging))
        } else {
            self.logged(path, service.runtime, seeds)
        }
    }

    fn logged(self, path: Option<PathBuf>, runtime: RuntimeConfig, seeds: Seeds) -> (r: (
        Launch,
        Action,
    ))
        ensures
            r.0.took(self.given(), logged(self.given(), path, runtime, seeds.view()), r.1),
    {
        match path {
            Some(path) => {
                let action = Action::LoadConfig(path.clone());
                (self.wait(Stage::Load(path, runtime, seeds.fresh)), action)
            },
            None => self.loaded(seeds.blank, Platform::none(), runtime, seeds.fresh),
        }
    }

    fn loaded(
        self,
        setup: Setup,
        platform: Platform,
        runtime: RuntimeConfig,
        fresh: Option<ManagerSetup>,
    ) -> (r: (Launch, Action))
        ensures
            r.0.took(
                self.given(),
                loaded(
                    self.given(),
                    LoadedView { setup: setup@, platform },
                    runtime,
                    opt_manager(fresh),
                ),
                r.1,
            ),
    {
        let mut setup = setup;
        setup.apply_network(&self.options, fresh);
        let platform = platform.apply(&self.options);
        let adjust = self.target.unix && !self.target.android && platform.nofile.is_none();
        let draft = Draft { setup, platform, runtime };
        if adjust {
            (self.wait(Stage::Nofile(draft)), Action::AdjustNofile)
        } else {
            self.limited(draft)
        }
    }

    fn limited(self, draft: Draft) -> (r: (Launch, Action))
        ensures
            r.0.took(self.given(), limited(self.given(), draft.view()), r.1),
    {
        let mut setup = draft.setup;
        if let Some(stop) = setup.apply_manager(&self.options) {
            return self.end(Action::Panic(stop));
        }
        let draft = Draft { setup, platform: draft.platform, runtime: draft.runtime };
        let file = self.options.acl.clone();
        match file {
            Some(file) => {
                let action = Action::LoadAcl(file.clone());
                (self.wait(Stage::Acl(draft, file)), action)
            },
            None => self.controlled(draft),
        }
    }

    fn controlled(self, draft: Draft) -> (r: (Launch, Action))
        ensures
            r.0.took(self.given(), controlled(self.given(), draft.view()), r.1),
    {
        let mut setup = draft.setup;
        if let Some(stop) = setup.apply_limits(&self.options) {
            return self.end(Action::Panic(stop));
        }
        if setup.manager.is_none() {
            return self.end(Action::Fail(fail_address()));
        }
        let config = setup.close();
        match check_integrity(&config) {
            Some(err) => self.end(Action::Fail(fail_integrity(err.as_str()))),
            None => self.approved(
                Ready { config, platform: draft.platform, runtime: draft.runtime },
            ),
        }
    }

    fn approved(self, ready: Ready) -> (r: (Launch, Action))
        ensures
            r.0.took(self.given(), approved(self.given(), ready.view()), r.1),
    {
        if self.options.daemonize || self.options.daemonize_pid {
            let action = Action::Daemonize(clone_path(&self.options.daemonize_pid_path));
            (self.wait(Stage::Background(ready)), action)
        } else {
            self.detached(ready)
        }
    }

    fn detached(self, ready: Ready) -> (r: (Launch, Action))
        ensures
            r.0.took(self.given(), detached(self.given(), ready.view()), r.1),
    {
        let user = self.options.user.clone();
        match user {
            Some(user) => (self.wait(Stage::User(ready)), Action::SwitchUser(user)),
            None => self.switched(ready),
        }
    }

    fn switched(self, ready: Ready) -> (r: (Launch, Action))
        ensures
            r.0.took(self.given(), switched(self.given(), ready.view()), r.1),
    {
        self.end(Action::Run(ready.runtime.plan(), ready.config, ready.platform))
    }

    /// Goes on from the reply that is being waited for.
    pub fn advance(self, reply: Reply) -> (r: (Launch, Action))
        requires
            answers(self.stage(), reply@),
        ensures
            r.0.took(self.given(), next(self.given(), self.stage(), reply@), r.1),
    {
        let launch = Launch { target: self.target, options: self.options, stage: Stage::Ended };
        match (self.stage, reply) {
            (Stage::FindConfig(seeds), Reply::DefaultConfig(path)) => launch.prepare(path, seeds),
            (Stage::Service(path, seeds), Reply::Service(Ok(service))) => launch.serviced(
                path,
                service,
                seeds,
            ),
            (Stage::Service(Some(path), _), Reply::Service(Err(err))) => launch.end(
                Action::Fail(fail_config(&path, err.as_str())),
            ),
            (Stage::Logging(path, runtime, seeds), Reply::Done) => launch.logged(
                path,
                runtime,
                seeds,
            ),
            (Stage::Load(_, runtime, fresh), Reply::Config(Ok(file))) => launch.loaded(
                Setup::open(file.config),
                file.platform,
                runtime,
                fresh,
            ),
            (Stage::Load(path, _, _), Reply::Config(Err(err))) => launch.end(
                Action::Fail(fail_config(&path, err.as_str())),
            ),
            (Stage::Nofile(draft), Reply::Done) => launch.limited(draft),
            (Stage::Acl(draft, _), Reply::Acl(Ok(acl))) => {
                let mut setup = draft.setup;
                setup.settings.acl = Some(acl);
                launch.controlled(Draft { setup, platform: draft.platform, runtime: draft.runtime })
            },
            (Stage::Acl(_, file), Reply::Acl(Err(err))) => launch.end(
                Action::Fail(fail_acl(file.as_str(), err.as_str())),
            ),
            (Stage::Background(ready), Reply::Done) => launch.detached(ready),
            (Stage::User(ready), Reply::User(Ok(()))) => launch.switched(ready),
            (Stage::User(_), Reply::User(Err(err))) => launch.end(
                Action::Fail(fail_user(err.as_str())),
            ),
            _ => unreached(),
        }
    }
}

fn clone_path(path: &Option<PathBuf>) -> (r: Option<PathBuf>)
    ensures
        r == *path,
{
    match path {
        Some(path) => Some(path.clone()),
        None => None,
    }
}

/// Whether `seeds` are what a manager starts from where there is no file, when `options` were
/// given: nothing is set, and the manager's part has the address that was given and defaults.
pub open spec fn sown(seeds: SeedsView, options: OptionsView) -> bool {
    &&& blank(seeds.blank)
    &&& match options.manager_addr {
        Some(addr) => seeds.fresh matches Some(manager) && is_fresh(manager, addr),
        None => seeds.fresh is None,
    }
}

/// Whether `launch` and `action` are the start of bringing up a manager. The seeds hold the
/// current directory, where the address of the manager was given.
pub open spec fn started(
    launch: Launch,
    action: Action,
    options: OptionsView,
    target: Target,
) -> bool {
    let given = Given { target, options };
    exists|seeds: SeedsView| #[trigger]
        sown(seeds, options) && launch.took(given, begin(given, seeds), action)
}

/// Starts to bring up a manager that is built for `target`, with what was given on the command
/// line.
pub fn create_with(options: ManagerOptions, target: Target) -> (r: (Launch, Action))
    ensures
        started(r.0, r.1, options@, target),
{
    let fresh = match &options.manager_addr {
        Some(addr) => Some(ManagerSetup::new(addr.clone())),
        None => None,
    };
    let seeds = Seeds { blank: Setup::new(), fresh };
    assert(sown(seeds.view(), options@));
    let path = clone_path(&options.config);
    let alone = options.server_config;
    let launch = Launch { target, options, stage: Stage::Ended };
    if path.is_some() {
        launch.prepare(path, seeds)
    } else if alone {
        launch.prepare(None, seeds)
    } else {
        (launch.wait(Stage::FindConfig(seeds)), Action::FindDefaultConfig(DEFAULT_CONFIG))
    }
}

/// Starts to bring up a manager that is built for `target`, with what `matches` hold, which
/// have the options of such a manager.
pub fn create(matches: &ArgMatches, target: Target) -> (r: (Launch, Action))
    requires
        all_readable(*matches, manager_options(target), manager_groups()),
    ensures
        started(r.0, r.1, options_in(matched(*matches), target), target),
{
    create_with(read_options(matches, target), target)
}

/// Starts to bring up a manager that is built for `target`, with a command line, program name
/// first. Nothing is started where the command line is refused.
pub fn create_from(argv: Vec<String>, target: Target) -> (r: Option<(Launch, Action)>)
    ensures
        match manager_values(texts(argv@), target) {
            Some(values) => {
                &&& r matches Some(start)
                &&& started(start.0, start.1, options_in(values, target), target)
            },
            None => r is None,
        },
        names_alike(manager_options(target), manager_groups(), texts(argv@)),
{
    match match_command_line(argv, target) {
        Some(matches) => Some(create(&matches, target)),
        None => None,
    }
}

} // verus!
