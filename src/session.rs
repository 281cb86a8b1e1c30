use vstd::prelude::*;
use crate::firmware::{
    first_existing_spec, ovmf_dir_spec, system_ovmf_paths, target_ovmf_dir, writable_vars_path,
    writable_vars_spec, Candidate, ResolveError,
};
use crate::invocation::{
    build_invocation, invocation_spec, uefi_exit_code, uefi_exit_spec, FirmwareMode,
    FirmwareModeView, Invocation, InvocationView,
};
use crate::paths::{join_path, joined};

verus! {

/// What the UEFI launcher starts from: the probed firmware candidates of
/// each role, the configured build output directory, and the OS image.
pub struct UefiConfig {
    pub code: Vec<Candidate>,
    pub vars: Vec<Candidate>,
    pub target_dir: Option<String>,
    pub image: String,
}

/// The step a UEFI launch waits on.
#[derive(PartialEq, Eq, Structural, Clone, Copy, Debug)]
pub enum Stage {
    CreateDir,
    CopyVars,
    CheckImage,
    Run,
    Done,
}

/// The outcome of the action last asked for.
#[derive(PartialEq, Eq, Clone, Copy, Debug)]
pub enum Event {
    /// The directory was created, the copy was made, or the image exists.
    Succeeded,
    /// The action failed, or the image is missing, or the emulator could
    /// not be started.
    Failed,
    /// The emulator ran and exited, with the code it reported if any.
    Exited(Option<i32>),
}

/// A fatal setup failure after the firmware was resolved.
#[derive(PartialEq, Eq, Structural, Clone, Copy, Debug)]
pub enum SetupError {
    /// The scratch directory could not be created.
    DirNotCreated,
    /// The vars template could not be copied.
    CopyFailed,
}

/// What the caller is asked to do next.
pub enum Action {
    /// Create the directory and its parents.
    CreateDir(String),
    /// Copy the file, overwriting the destination.
    CopyFile { from: String, to: String },
    /// Report whether the file exists.
    CheckExists(String),
    /// Run the program and wait for it.
    Run(Invocation),
    /// Abort the launch.
    Abort(SetupError),
    /// End the launch with this status.
    Exit(u8),
}

/// An action with its paths and arguments as plain character sequences.
pub enum ActionView {
    CreateDir(Seq<char>),
    CopyFile { from: Seq<char>, to: Seq<char> },
    CheckExists(Seq<char>),
    Run(InvocationView),
    Abort(SetupError),
    Exit(u8),
}

impl View for Action {
    type V = ActionView;

    open spec fn view(&self) -> ActionView {
        match self {
            Action::CreateDir(p) => ActionView::CreateDir(p@),
            Action::CopyFile { from, to } => ActionView::CopyFile { from: from@, to: to@ },
            Action::CheckExists(p) => ActionView::CheckExists(p@),
            Action::Run(i) => ActionView::Run(i@),
            Action::Abort(e) => ActionView::Abort(*e),
            Action::Exit(c) => ActionView::Exit(*c),
        }
    }
}

/// A UEFI launch in progress: the resolved firmware, the scratch paths and
/// the stage reached.
pub struct UefiLaunch {
    pub code: String,
    pub vars_template: String,
    pub dir: String,
    pub vars_rw: String,
    pub image: String,
    pub stage: Stage,
}

/// A launch in progress with its paths as plain character sequences.
pub struct UefiLaunchView {
    pub code: Seq<char>,
    pub vars_template: Seq<char>,
    pub dir: Seq<char>,
    pub vars_rw: Seq<char>,
    pub image: Seq<char>,
    pub stage: Stage,
}

impl View for UefiLaunch {
    type V = UefiLaunchView;

    open spec fn view(&self) -> UefiLaunchView {
        UefiLaunchView {
            code: self.code@,
            vars_template: self.vars_template@,
            dir: self.dir@,
            vars_rw: self.vars_rw@,
            image: self.image@,
            stage: self.stage,
        }
    }
}

/// The view of an optional string.
pub open spec fn opt_view(o: Option<String>) -> Option<Seq<char>> {
    match o {
        Some(s) => Some(s@),
        None => None,
    }
}

/// How a launch begins: firmware resolution, code image first; on success
/// the scratch directory is the first thing asked for.
pub open spec fn start_spec(
    code: Seq<Candidate>,
    vars: Seq<Candidate>,
    target_dir: Option<Seq<char>>,
    image: Seq<char>,
) -> Result<(UefiLaunchView, ActionView), ResolveError> {
    match (first_existing_spec(code), first_existing_spec(vars)) {
        (None, _) => Err(ResolveError::CodeNotFound),
        (Some(_), None) => Err(ResolveError::VarsNotFound),
        (Some(c), Some(v)) => {
            let dir = ovmf_dir_spec(target_dir);
            Ok(
                (
                    UefiLaunchView {
                        code: c,
                        vars_template: v,
                        dir,
                        vars_rw: writable_vars_spec(dir, v),
                        image,
                        stage: Stage::CreateDir,
                    },
                    ActionView::CreateDir(dir),
                ),
            )
        },
    }
}

/// The file that receives the firmware's debug console.
pub open spec fn debug_log_spec(dir: Seq<char>) -> Seq<char> {
    joined(dir, "ovmf.log"@)
}

/// The mode the emulator is run in: the code image read-only, the staged
/// vars copy writable.
pub open spec fn run_mode(l: UefiLaunchView) -> FirmwareModeView {
    FirmwareModeView::Uefi {
        code: l.code,
        vars: l.vars_rw,
        image: l.image,
        debug_log: debug_log_spec(l.dir),
    }
}

/// The next stage and action, given the outcome of the last action.
pub open spec fn step_spec(l: UefiLaunchView, e: Event) -> (Stage, ActionView) {
    match l.stage {
        Stage::CreateDir => if e == Event::Succeeded {
            (Stage::CopyVars, ActionView::CopyFile { from: l.vars_template, to: l.vars_rw })
        } else {
            (Stage::Done, ActionView::Abort(SetupError::DirNotCreated))
        },
        Stage::CopyVars => if e == Event::Succeeded {
            (Stage::CheckImage, ActionView::CheckExists(l.image))
        } else {
            (Stage::Done, ActionView::Abort(SetupError::CopyFailed))
        },
        Stage::CheckImage => if e == Event::Succeeded {
            (Stage::Run, ActionView::Run(invocation_spec(run_mode(l))))
        } else {
            (Stage::Done, ActionView::Exit(2))
        },
        Stage::Run => match e {
            Event::Exited(c) => (Stage::Done, ActionView::Exit(uefi_exit_spec(c))),
            _ => (Stage::Done, ActionView::Exit(1)),
        },
        Stage::Done => (Stage::Done, ActionView::Exit(1)),
    }
}

impl UefiLaunch {
    /// Resolves the firmware and, where both roles resolve, begins a launch
    /// by asking for the scratch directory.
    pub fn start(config: &UefiConfig) -> (r: Result<(UefiLaunch, Action), ResolveError>)
        ensures
            match r {
                Ok((l, a)) => start_spec(
                    config.code@,
                    config.vars@,
                    opt_view(config.target_dir),
                    config.image@,
                ) == Ok::<(UefiLaunchView, ActionView), ResolveError>((l@, a@)),
                Err(e) => start_spec(
                    config.code@,
                    config.vars@,
                    opt_view(config.target_dir),
                    config.image@,
                ) == Err::<(UefiLaunchView, ActionView), ResolveError>(e),
            },
    {
        let pair = match system_ovmf_paths(&config.code, &config.vars) {
            Ok(p) => p,
            Err(e) => return Err(e),
        };
        let dir = match &config.target_dir {
            Some(t) => target_ovmf_dir(Some(t.as_str())),
            None => target_ovmf_dir(None),
        };
        let vars_rw = writable_vars_path(dir.as_str(), pair.vars.as_str());
        let action = Action::CreateDir(dir.clone());
        let l = UefiLaunch {
            code: pair.code,
            vars_template: pair.vars,
            dir,
            vars_rw,
            image: config.image.clone(),
            stage: Stage::CreateDir,
        };
        Ok((l, action))
    }

    /// Whether the launch has ended.
    pub fn is_finished(&self) -> (r: bool)
        ensures
            r == (self.stage == Stage::Done),
    {
        self.stage == Stage::Done
    }

    /// Advances the launch on the outcome of the last action and returns
    /// the next one.
    pub fn step(&mut self, event: Event) -> (r: Action)
        requires
            old(self).stage != Stage::Done,
        ensures
            final(self)@ == (UefiLaunchView { stage: step_spec(old(self)@, event).0, ..old(self)@ }),
            r@ == step_spec(old(self)@, event).1,
    {
        match self.stage {
            Stage::CreateDir => {
                if matches!(event, Event::Succeeded) {
                    self.stage = Stage::CopyVars;
                    Action::CopyFile { from: self.vars_template.clone(), to: self.vars_rw.clone() }
                } else {
                    self.stage = Stage::Done;
                    Action::Abort(SetupError::DirNotCreated)
                }
            },
            Stage::CopyVars => {
                if matches!(event, Event::Succeeded) {
                    self.stage = Stage::CheckImage;
                    Action::CheckExists(self.image.clone())
                } else {
                    self.stage = Stage::Done;
                    Action::Abort(SetupError::CopyFailed)
                }
            },
            Stage::CheckImage => {
                if matches!(event, Event::Succeeded) {
                    self.stage = Stage::Run;
                    let mode = FirmwareMode::Uefi {
                        code: self.code.clone(),
                        vars: self.vars_rw.clone(),
                        image: self.image.clone(),
                        debug_log: join_path(self.dir.as_str(), "ovmf.log"),
                    };
                    Action::Run(build_invocation(&mode))
                } else {
                    self.stage = Stage::Done;
                    Action::Exit(2)
                }
            },
            _ => {
                self.stage = Stage::Done;
                match event {
                    Event::Exited(c) => Action::Exit(uefi_exit_code(c)),
                    _ => Action::Exit(1),
                }
            },
        }
    }
}

} // verus!
