//! The build as a state machine. The caller performs each action it is handed
//! (run a script, index, render every document, reconcile) and reports back the
//! event that came of it; the coordinator decides what happens next.

use vstd::prelude::*;
use crate::config::WingConfig;
use crate::text::copy_texts;

verus! {

/// Where a build stands.
#[derive(Clone, Copy, Debug, PartialEq, Eq, Structural)]
pub enum BuildPhase {
    Idle,
    PreScripts,
    Indexing,
    Rendering,
    Reconciling,
    PostScripts,
    Done,
    Failed,
}

/// Why a build stopped.
#[derive(Clone, Copy, Debug, PartialEq, Eq, Structural)]
pub enum BuildFailure {
    /// An output tree exists and overwriting it was not requested.
    PreexistingOutput,
    /// The content root is missing or not a directory.
    ContentRoot,
    /// The template set could not be loaded.
    Templates,
    /// A pre- or post-build script failed.
    Script,
}

/// What the caller reports after performing an action.
#[derive(Clone, Copy, Debug, PartialEq, Eq, Structural)]
pub enum BuildEvent {
    /// The build is asked to start; whether an output tree already exists.
    Begin { output_exists: bool },
    /// The script last handed out has finished; whether it exited with success.
    ScriptExited { success: bool },
    /// The content root was indexed, or could not be.
    Indexed { success: bool },
    /// Every document's render has returned (the join); whether the templates
    /// loaded, and how many documents failed.
    Rendered { templates_loaded: bool, failures: usize },
    /// Stale output has been removed.
    Reconciled,
}

/// What the caller is to do next.
#[derive(Debug)]
pub enum BuildAction {
    /// Run this configured command and wait for it.
    RunScript(String),
    /// Index the content root, once.
    IndexContent,
    /// Render every indexed document, and wait for all of them.
    RenderAll,
    /// Delete the output files that no indexed document produced.
    Reconcile,
    /// The build is complete; so many documents failed.
    Report { failures: usize },
    /// The build has stopped.
    Abort(BuildFailure),
    /// The event does not apply in this phase; nothing changed.
    Ignore,
}

/// An action, with the command of `RunScript` as its characters.
pub enum ActionView {
    RunScript(Seq<char>),
    IndexContent,
    RenderAll,
    Reconcile,
    Report { failures: nat },
    Abort(BuildFailure),
    Ignore,
}

impl View for BuildAction {
    type V = ActionView;

    open spec fn view(&self) -> ActionView {
        match self {
            BuildAction::RunScript(s) => ActionView::RunScript(s@),
            BuildAction::IndexContent => ActionView::IndexContent,
            BuildAction::RenderAll => ActionView::RenderAll,
            BuildAction::Reconcile => ActionView::Reconcile,
            BuildAction::Report { failures } => ActionView::Report { failures: *failures as nat },
            BuildAction::Abort(f) => ActionView::Abort(*f),
            BuildAction::Ignore => ActionView::Ignore,
        }
    }
}

/// The state of a build.
pub struct CoordinatorView {
    pub phase: BuildPhase,
    pub force: bool,
    pub previous_output: bool,
    pub pre_scripts: Seq<Seq<char>>,
    pub post_scripts: Seq<Seq<char>>,
    /// In a script phase, how many of its scripts have been handed out.
    pub next_script: nat,
    pub failures: nat,
}

/// The coordinator of one build.
#[derive(Debug)]
pub struct BuildCoordinator {
    phase: BuildPhase,
    force: bool,
    previous_output: bool,
    pre_scripts: Vec<String>,
    post_scripts: Vec<String>,
    next_script: usize,
    failures: usize,
}

impl View for BuildCoordinator {
    type V = CoordinatorView;

    closed spec fn view(&self) -> CoordinatorView {
        CoordinatorView {
            phase: self.phase,
            force: self.force,
            previous_output: self.previous_output,
            pre_scripts: self.pre_scripts.deep_view(),
            post_scripts: self.post_scripts.deep_view(),
            next_script: self.next_script as nat,
            failures: self.failures as nat,
        }
    }
}

/// The state and action after handing out the first of `scripts` in `phase`, or,
/// where there is none, after moving on to `then` with the action `act`.
pub open spec fn enter_scripts(
    v: CoordinatorView,
    scripts: Seq<Seq<char>>,
    phase: BuildPhase,
    then: BuildPhase,
    act: ActionView,
) -> (CoordinatorView, ActionView) {
    if scripts.len() > 0 {
        (CoordinatorView { phase, next_script: 1, ..v }, ActionView::RunScript(scripts[0]))
    } else {
        (CoordinatorView { phase: then, next_script: 0, ..v }, act)
    }
}

/// The state and action after a script of `scripts` exited, in `phase`.
pub open spec fn after_script(
    v: CoordinatorView,
    success: bool,
    scripts: Seq<Seq<char>>,
    then: BuildPhase,
    act: ActionView,
) -> (CoordinatorView, ActionView) {
    if !success {
        (CoordinatorView { phase: BuildPhase::Failed, ..v }, ActionView::Abort(BuildFailure::Script))
    } else if v.next_script < scripts.len() {
        (
            CoordinatorView { next_script: v.next_script + 1, ..v },
            ActionView::RunScript(scripts[v.next_script as int]),
        )
    } else {
        (CoordinatorView { phase: then, next_script: 0, ..v }, act)
    }
}

/// The post-build scripts, then the report.
pub open spec fn enter_post_scripts(v: CoordinatorView) -> (CoordinatorView, ActionView) {
    enter_scripts(
        v,
        v.post_scripts,
        BuildPhase::PostScripts,
        BuildPhase::Done,
        ActionView::Report { failures: v.failures },
    )
}

/// The state and action that follow the event `e` in the state `v`.
pub open spec fn next(v: CoordinatorView, e: BuildEvent) -> (CoordinatorView, ActionView) {
    match (v.phase, e) {
        (BuildPhase::Idle, BuildEvent::Begin { output_exists }) => if output_exists && !v.force {
            (
                CoordinatorView { phase: BuildPhase::Failed, ..v },
                ActionView::Abort(BuildFailure::PreexistingOutput),
            )
        } else {
            enter_scripts(
                CoordinatorView { previous_output: output_exists, ..v },
                v.pre_scripts,
                BuildPhase::PreScripts,
                BuildPhase::Indexing,
                ActionView::IndexContent,
            )
        },
        (BuildPhase::PreScripts, BuildEvent::ScriptExited { success }) => after_script(
            v,
            success,
            v.pre_scripts,
            BuildPhase::Indexing,
            ActionView::IndexContent,
        ),
        (BuildPhase::Indexing, BuildEvent::Indexed { success }) => if success {
            (CoordinatorView { phase: BuildPhase::Rendering, ..v }, ActionView::RenderAll)
        } else {
            (
                CoordinatorView { phase: BuildPhase::Failed, ..v },
                ActionView::Abort(BuildFailure::ContentRoot),
            )
        },
        (BuildPhase::Rendering, BuildEvent::Rendered { templates_loaded, failures }) => if !templates_loaded {
            (
                CoordinatorView { phase: BuildPhase::Failed, ..v },
                ActionView::Abort(BuildFailure::Templates),
            )
        } else if v.previous_output {
            (
                CoordinatorView { phase: BuildPhase::Reconciling, failures: failures as nat, ..v },
                ActionView::Reconcile,
            )
        } else {
            enter_post_scripts(CoordinatorView { failures: failures as nat, ..v })
        },
        (BuildPhase::Reconciling, BuildEvent::Reconciled) => enter_post_scripts(v),
        (BuildPhase::PostScripts, BuildEvent::ScriptExited { success }) => {
            let done = ActionView::Report { failures: v.failures };
            after_script(v, success, v.post_scripts, BuildPhase::Done, done)
        },
        _ => (v, ActionView::Ignore),
    }
}

impl BuildCoordinator {
    /// A build that has not started, with the scripts of `config`; `force` asks
    /// to overwrite an existing output tree.
    pub fn new(config: &WingConfig, force: bool) -> (r: BuildCoordinator)
        ensures
            r@.phase == BuildPhase::Idle,
            r@.force == force,
            !r@.previous_output,
            r@.pre_scripts == config.pre_scripts.deep_view(),
            r@.post_scripts == config.post_scripts.deep_view(),
            r@.next_script == 0,
            r@.failures == 0,
    {
        BuildCoordinator {
            phase: BuildPhase::Idle,
            force,
            previous_output: false,
            pre_scripts: copy_texts(&config.pre_scripts),
            post_scripts: copy_texts(&config.post_scripts),
            next_script: 0,
            failures: 0,
        }
    }

    /// Where the build stands.
    pub fn phase(&self) -> (r: BuildPhase)
        ensures
            r == self@.phase,
    {
        self.phase
    }

    /// Whether the build found an output tree from a previous build.
    pub fn previous_output(&self) -> (r: bool)
        ensures
            r == self@.previous_output,
    {
        self.previous_output
    }

    /// How many documents failed to render.
    pub fn failures(&self) -> (r: usize)
        ensures
            r == self@.failures,
    {
        self.failures
    }

    /// Hands out the first of `pre` (or `post`) scripts, or moves on.
    fn enter_scripts(&mut self, post: bool, then: BuildPhase, act: BuildAction) -> (r: BuildAction)
        ensures
            (final(self)@, r@) == enter_scripts(
                old(self)@,
                if post { old(self)@.post_scripts } else { old(self)@.pre_scripts },
                if post { BuildPhase::PostScripts } else { BuildPhase::PreScripts },
                then,
                act@,
            ),
    {
        let scripts = if post { &self.post_scripts } else { &self.pre_scripts };
        if scripts.len() > 0 {
            let first = scripts[0].clone();
            self.phase = if post { BuildPhase::PostScripts } else { BuildPhase::PreScripts };
            self.next_script = 1;
            BuildAction::RunScript(first)
        } else {
            self.phase = then;
            self.next_script = 0;
            act
        }
    }

    /// Hands out the next of `pre` (or `post`) scripts after one exited, or moves on.
    fn after_script(&mut self, success: bool, post: bool, then: BuildPhase, act: BuildAction) -> (r: BuildAction)
        ensures
            (final(self)@, r@) == after_script(
                old(self)@,
                success,
                if post { old(self)@.post_scripts } else { old(self)@.pre_scripts },
                then,
                act@,
            ),
    {
        if !success {
            self.phase = BuildPhase::Failed;
            return BuildAction::Abort(BuildFailure::Script);
        }
        let scripts = if post { &self.post_scripts } else { &self.pre_scripts };
        if self.next_script < scripts.len() {
            let s = scripts[self.next_script].clone();
            self.next_script = self.next_script + 1;
            BuildAction::RunScript(s)
        } else {
            self.phase = then;
            self.next_script = 0;
            act
        }
    }

    /// Takes the event `e` and returns the next action.
    pub fn step(&mut self, e: BuildEvent) -> (r: BuildAction)
        ensures
            (final(self)@, r@) == next(old(self)@, e),
    {
        match (self.phase, e) {
            (BuildPhase::Idle, BuildEvent::Begin { output_exists }) => {
                if output_exists && !self.force {
                    self.phase = BuildPhase::Failed;
                    BuildAction::Abort(BuildFailure::PreexistingOutput)
                } else {
                    self.previous_output = output_exists;
                    self.enter_scripts(false, BuildPhase::Indexing, BuildAction::IndexContent)
                }
            },
            (BuildPhase::PreScripts, BuildEvent::ScriptExited { success }) => {
                self.after_script(success, false, BuildPhase::Indexing, BuildAction::IndexContent)
            },
            (BuildPhase::Indexing, BuildEvent::Indexed { success }) => {
                if success {
                    self.phase = BuildPhase::Rendering;
                    BuildAction::RenderAll
                } else {
                    self.phase = BuildPhase::Failed;
                    BuildAction::Abort(BuildFailure::ContentRoot)
                }
            },
            (BuildPhase::Rendering, BuildEvent::Rendered { templates_loaded, failures }) => {
                if !templates_loaded {
                    self.phase = BuildPhase::Failed;
                    BuildAction::Abort(BuildFailure::Templates)
                } else {
                    self.failures = failures;
                    if self.previous_output {
                        self.phase = BuildPhase::Reconciling;
                        BuildAction::Reconcile
                    } else {
                        let done = BuildAction::Report { failures };
                        self.enter_scripts(true, BuildPhase::Done, done)
                    }
                }
            },
            (BuildPhase::Reconciling, BuildEvent::Reconciled) => {
                let done = BuildAction::Report { failures: self.failures };
                self.enter_scripts(true, BuildPhase::Done, done)
            },
            (BuildPhase::PostScripts, BuildEvent::ScriptExited { success }) => {
                let done = BuildAction::Report { failures: self.failures };
                self.after_script(success, true, BuildPhase::Done, done)
            },
            _ => BuildAction::Ignore,
        }
    }
}

/// A build that finds an output tree and was not asked to overwrite it stops at
/// once with a "previous build exists" failure, handing out no script, render or
/// deletion; and a stopped build ignores every later event.
pub proof fn lemma_refuses_existing_output(v: CoordinatorView, e: BuildEvent)
    requires
        v.phase == BuildPhase::Idle,
        !v.force,
    ensures
        next(v, BuildEvent::Begin { output_exists: true }).0 == (CoordinatorView { phase: BuildPhase::Failed, ..v }),
        next(v, BuildEvent::Begin { output_exists: true }).1 == ActionView::Abort(BuildFailure::PreexistingOutput),
        next(next(v, BuildEvent::Begin { output_exists: true }).0, e)
            == (next(v, BuildEvent::Begin { output_exists: true }).0, ActionView::Ignore),
{
}

/// A forced build over an existing output tree goes ahead, and remembers that
/// the tree is to be reconciled.
pub proof fn lemma_forced_build_proceeds(v: CoordinatorView)
    requires
        v.phase == BuildPhase::Idle,
        v.force,
    ensures
        next(v, BuildEvent::Begin { output_exists: true }).0.phase != BuildPhase::Failed,
        next(v, BuildEvent::Begin { output_exists: true }).0.previous_output,
{
}

/// Reconciliation is handed out only when every render has returned, and only
/// over the output tree of a previous build.
pub proof fn lemma_reconcile_after_join(v: CoordinatorView, e: BuildEvent)
    requires
        next(v, e).1 == ActionView::Reconcile,
    ensures
        v.phase == BuildPhase::Rendering,
        e matches BuildEvent::Rendered { templates_loaded, .. } && templates_loaded,
        v.previous_output,
{
}

/// Scripts run in their declared order: the script handed out in a script phase
/// is the one after those already handed out.
pub proof fn lemma_scripts_in_order(v: CoordinatorView, success: bool)
    requires
        v.phase == BuildPhase::PreScripts || v.phase == BuildPhase::PostScripts,
        success,
        next(v, BuildEvent::ScriptExited { success }).1 is RunScript,
    ensures
        v.phase == BuildPhase::PreScripts ==> next(v, BuildEvent::ScriptExited { success }).1
            == ActionView::RunScript(v.pre_scripts[v.next_script as int]),
        v.phase == BuildPhase::PostScripts ==> next(v, BuildEvent::ScriptExited { success }).1
            == ActionView::RunScript(v.post_scripts[v.next_script as int]),
        next(v, BuildEvent::ScriptExited { success }).0.next_script == v.next_script + 1,
{
}

} // verus!
