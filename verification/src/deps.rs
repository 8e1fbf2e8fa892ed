//! Dependency decisions at start-up: what kind of project the bundle is, whether
//! its dependencies are in place, and whether to install them.
use vstd::prelude::*;

verus! {

/// What was found in the project root, as plain facts; a manifest is given by its
/// path when it exists.
#[derive(Clone, Debug, PartialEq, Eq)]
pub struct DependencyProbe {
    /// Path of `package.json`, if it exists.
    pub package_json: Option<String>,
    pub node_modules_exists: bool,
    pub node_modules_is_symlink: bool,
    /// Path of `requirements.txt`, if it exists.
    pub requirements: Option<String>,
    pub venv_exists: bool,
    pub venv_is_symlink: bool,
    pub dot_venv_exists: bool,
    pub dot_venv_is_symlink: bool,
}

/// A detected project kind, whether its dependencies are in place, and its manifest.
#[derive(Clone, Debug, PartialEq, Eq)]
pub enum DepInfo {
    NodeJs { exists: bool, package_json: String },
    Python { exists: bool, requirements: String },
}

/// The kind of a project's dependencies.
#[derive(Clone, Copy, Debug, PartialEq, Eq, Structural)]
pub enum DepKind {
    NodeJs,
    Python,
}

/// Node.js dependencies are in place: a real `node_modules` directory, not a link.
pub open spec fn node_deps_present(p: DependencyProbe) -> bool {
    p.node_modules_exists && !p.node_modules_is_symlink
}

/// Python dependencies are in place: a real `venv` or `.venv`, not a link.
pub open spec fn python_deps_present(p: DependencyProbe) -> bool {
    (p.venv_exists && !p.venv_is_symlink) || (p.dot_venv_exists && !p.dot_venv_is_symlink)
}

/// Node.js dependencies count as installed exactly when `node_modules` exists and
/// is not a link; Python ones exactly when `venv` or `.venv` exists and is not a link.
pub proof fn lemma_deps_present(p: DependencyProbe)
    ensures
        node_deps_present(p) == (p.node_modules_exists && !p.node_modules_is_symlink),
        python_deps_present(p) == ((p.venv_exists && !p.venv_is_symlink) || (p.dot_venv_exists
            && !p.dot_venv_is_symlink)),
{
}

/// Detects the project kind: Node.js when `package.json` exists (it takes
/// precedence), else Python when `requirements.txt` exists, else nothing.
pub fn detect_dependencies(probe: &DependencyProbe) -> (res: Option<DepInfo>)
    ensures
        match probe.package_json {
            Some(pj) => res matches Some(DepInfo::NodeJs { exists, package_json })
                && exists == node_deps_present(*probe) && package_json@ == pj@,
            None => match probe.requirements {
                Some(rq) => res matches Some(DepInfo::Python { exists, requirements })
                    && exists == python_deps_present(*probe) && requirements@ == rq@,
                None => res is None,
            },
        },
{
    match &probe.package_json {
        Some(pj) => {
            let exists = probe.node_modules_exists && !probe.node_modules_is_symlink;
            return Some(DepInfo::NodeJs { exists, package_json: pj.clone() });
        },
        None => {},
    }
    match &probe.requirements {
        Some(rq) => {
            let exists = (probe.venv_exists && !probe.venv_is_symlink) || (probe.dot_venv_exists
                && !probe.dot_venv_is_symlink);
            Some(DepInfo::Python { exists, requirements: rq.clone() })
        },
        None => None,
    }
}

/// What was found about an explicitly named dependency directory.
#[derive(Clone, Copy, Debug, PartialEq, Eq, Structural)]
pub struct HintProbe {
    /// The named directory exists and is a directory.
    pub is_dir: bool,
    /// `node_modules` in the project root exists (following links).
    pub dest_exists: bool,
    /// `node_modules` in the project root is a symbolic link.
    pub dest_is_symlink: bool,
}

/// What to do about an explicitly named dependency directory.
#[derive(Clone, Copy, Debug, PartialEq, Eq, Structural)]
pub enum HintPlan {
    /// Link `node_modules` to the named directory.
    Link,
    /// `node_modules` is already there: use it.
    UseExisting,
    /// The named directory is missing: warn and detect automatically.
    NotFound,
    /// No directory was named: detect automatically.
    AutoDetect,
}

/// The plan for a dependency hint: a named directory is linked as `node_modules`
/// unless something is already there; a missing one falls back to detection.
pub open spec fn hint_plan_spec(hint: Option<HintProbe>) -> HintPlan {
    match hint {
        None => HintPlan::AutoDetect,
        Some(h) => if !h.is_dir {
            HintPlan::NotFound
        } else if !h.dest_exists && !h.dest_is_symlink {
            HintPlan::Link
        } else {
            HintPlan::UseExisting
        },
    }
}

/// The plan for a dependency hint, exactly `hint_plan_spec`.
pub fn plan_dependency_hint(hint: Option<HintProbe>) -> (res: HintPlan)
    ensures
        res == hint_plan_spec(hint),
{
    match hint {
        None => HintPlan::AutoDetect,
        Some(h) => if !h.is_dir {
            HintPlan::NotFound
        } else if !h.dest_exists && !h.dest_is_symlink {
            HintPlan::Link
        } else {
            HintPlan::UseExisting
        },
    }
}

/// Whether a plan goes on to detect the project's dependencies automatically.
pub open spec fn detects_spec(plan: HintPlan) -> bool {
    plan is NotFound || plan is AutoDetect
}

/// Whether a plan goes on to automatic detection (a missing named directory only
/// adds a warning before it).
pub fn plan_detects(plan: HintPlan) -> (res: bool)
    ensures
        res == detects_spec(plan),
{
    match plan {
        HintPlan::NotFound | HintPlan::AutoDetect => true,
        HintPlan::Link | HintPlan::UseExisting => false,
    }
}

/// A named dependency directory that is not a directory behaves like no name at
/// all: both go on to automatic detection, and only these two do.
pub proof fn lemma_missing_hint_is_no_hint(h: HintProbe)
    requires
        !h.is_dir,
    ensures
        detects_spec(hint_plan_spec(Some(h))),
        detects_spec(hint_plan_spec(None)),
        forall|g: HintProbe| #[trigger] detects_spec(hint_plan_spec(Some(g))) <==> !g.is_dir,
{
}

/// What to do after detection.
#[derive(Clone, Debug, PartialEq, Eq)]
pub enum DependencyAction {
    /// Dependencies of this kind are in place.
    Ready(DepKind),
    /// A project was detected but its dependencies are missing.
    Install(DepInfo),
    /// No known project layout.
    Nothing,
}

/// Detected dependencies in place need nothing; missing ones are installed; with
/// no detected project there is nothing to do.
pub fn dependency_action(info: Option<DepInfo>) -> (res: DependencyAction)
    ensures
        match info {
            None => res is Nothing,
            Some(DepInfo::NodeJs { exists, package_json }) => if exists {
                res == DependencyAction::Ready(DepKind::NodeJs)
            } else {
                res matches DependencyAction::Install(DepInfo::NodeJs { exists: e, package_json: p })
                    && !e && p == package_json
            },
            Some(DepInfo::Python { exists, requirements }) => if exists {
                res == DependencyAction::Ready(DepKind::Python)
            } else {
                res matches DependencyAction::Install(DepInfo::Python { exists: e, requirements: r })
                    && !e && r == requirements
            },
        },
{
    match info {
        None => DependencyAction::Nothing,
        Some(DepInfo::NodeJs { exists, package_json }) => if exists {
            DependencyAction::Ready(DepKind::NodeJs)
        } else {
            DependencyAction::Install(DepInfo::NodeJs { exists, package_json })
        },
        Some(DepInfo::Python { exists, requirements }) => if exists {
            DependencyAction::Ready(DepKind::Python)
        } else {
            DependencyAction::Install(DepInfo::Python { exists, requirements })
        },
    }
}

/// The kind of detected dependencies.
pub fn dep_kind(info: &DepInfo) -> (res: DepKind)
    ensures
        res == DepKind::NodeJs <==> info is NodeJs,
{
    match info {
        DepInfo::NodeJs { .. } => DepKind::NodeJs,
        DepInfo::Python { .. } => DepKind::Python,
    }
}

/// An environment switch is on exactly when its value is `1`; an unset variable is off.
pub fn env_flag(value: Option<&str>) -> (res: bool)
    ensures
        res == match value {
            Some(v) => v@ == seq!['1'],
            None => false,
        },
{
    match value {
        None => false,
        Some(v) => {
            if v.unicode_len() != 1 {
                assert(v@ != seq!['1']);
                false
            } else {
                let c = v.get_char(0);
                proof {
                    if c == '1' {
                        assert(v@ =~= seq!['1']);
                    }
                }
                c == '1'
            }
        },
    }
}

/// How missing dependencies get installed.
#[derive(Clone, Copy, Debug, PartialEq, Eq, Structural)]
pub enum InstallMode {
    /// Install without asking.
    Automatic,
    /// Ask on the terminal first.
    Ask,
}

/// Installation is automatic unless standard input is a terminal and neither the
/// non-interactive nor the daemon switch is on.
pub fn install_mode(stdin_is_terminal: bool, non_interactive: bool, daemon: bool) -> (res:
    InstallMode)
    ensures
        res == InstallMode::Automatic <==> (!stdin_is_terminal || non_interactive || daemon),
{
    if !stdin_is_terminal || non_interactive || daemon {
        InstallMode::Automatic
    } else {
        InstallMode::Ask
    }
}

/// Unicode White_Space, the characters that `str::trim` removes.
pub open spec fn is_white_space_spec(c: char) -> bool {
    let u = c as u32;
    (0x9 <= u <= 0xd) || u == 0x20 || u == 0x85 || u == 0xa0 || u == 0x1680 || (0x2000 <= u
        <= 0x200a) || u == 0x2028 || u == 0x2029 || u == 0x202f || u == 0x205f || u == 0x3000
}

/// Whether a character is Unicode White_Space.
pub fn is_white_space(c: char) -> (res: bool)
    ensures
        res == is_white_space_spec(c),
{
    let u = c as u32;
    (0x9 <= u && u <= 0xd) || u == 0x20 || u == 0x85 || u == 0xa0 || u == 0x1680 || (0x2000 <= u
        && u <= 0x200a) || u == 0x2028 || u == 0x2029 || u == 0x202f || u == 0x205f || u == 0x3000
}

/// An answer agrees to the installation when, trimmed of white space, it is empty
/// or begins with `y` in either case.
pub open spec fn accepts_install_spec(answer: Seq<char>) -> bool {
    (forall|i: int| 0 <= i < answer.len() ==> is_white_space_spec(#[trigger] answer[i])) || exists|
        i: int,
    |
        0 <= i < answer.len() && (forall|j: int| 0 <= j < i ==> is_white_space_spec(#[trigger] answer[j]))
            && (answer[i] == 'y' || answer[i] == 'Y')
}

/// Whether the answer to the installation question agrees (see `accepts_install_spec`).
pub fn accepts_install(answer: &str) -> (res: bool)
    ensures
        res == accepts_install_spec(answer@),
{
    let n = answer.unicode_len();
    let mut i: usize = 0;
    while i < n
        invariant
            n == answer@.len(),
            i <= n,
            forall|j: int| 0 <= j < i ==> is_white_space_spec(#[trigger] answer@[j]),
        decreases n - i,
    {
        let c = answer.get_char(i);
        if !is_white_space(c) {
            let yes = c == 'y' || c == 'Y';
            proof {
                if !yes {
                    assert forall|k: int|
                        0 <= k < answer@.len() && (forall|j: int|
                            0 <= j < k ==> is_white_space_spec(#[trigger] answer@[j])) implies !(
                    answer@[k] == 'y' || answer@[k] == 'Y') by {
                        if k > i as int {
                            assert(is_white_space_spec(answer@[i as int]));
                        } else if k < i as int {
                            assert(is_white_space_spec(answer@[k]));
                        }
                    }
                    assert(!is_white_space_spec(answer@[i as int]));
                }
            }
            return yes;
        }
        i = i + 1;
    }
    true
}

/// A command line: the program and its arguments.
#[derive(Clone, Debug, PartialEq, Eq)]
pub struct InstallCommand {
    pub program: String,
    pub args: Vec<String>,
}

/// The command that installs dependencies of a kind: `npm install --no-fund
/// --no-audit` for Node.js, `pip install -r requirements.txt` for Python.
pub fn install_command(kind: DepKind) -> (res: InstallCommand)
    ensures
        kind == DepKind::NodeJs ==> res.program@ == "npm"@ && res.args@.len() == 3
            && res.args@[0]@ == "install"@ && res.args@[1]@ == "--no-fund"@ && res.args@[2]@
            == "--no-audit"@,
        kind == DepKind::Python ==> res.program@ == "pip"@ && res.args@.len() == 3
            && res.args@[0]@ == "install"@ && res.args@[1]@ == "-r"@ && res.args@[2]@
            == "requirements.txt"@,
{
    let mut args: Vec<String> = Vec::new();
    match kind {
        DepKind::NodeJs => {
            args.push(String::from_str("install"));
            args.push(String::from_str("--no-fund"));
            args.push(String::from_str("--no-audit"));
            InstallCommand { program: String::from_str("npm"), args }
        },
        DepKind::Python => {
            args.push(String::from_str("install"));
            args.push(String::from_str("-r"));
            args.push(String::from_str("requirements.txt"));
            InstallCommand { program: String::from_str("pip"), args }
        },
    }
}

/// Why installing dependencies failed.
#[derive(Clone, Copy, Debug, PartialEq, Eq, Structural)]
pub enum InstallError {
    /// The installer program could not be started.
    ToolMissing(DepKind),
    /// The installer ran and reported failure.
    InstallFailed(DepKind),
}

/// The outcome of an installation: the installer must be found, then succeed.
pub fn install_outcome(kind: DepKind, tool_found: bool, succeeded: bool) -> (res: Result<
    (),
    InstallError,
>)
    ensures
        !tool_found ==> res == Err::<(), InstallError>(InstallError::ToolMissing(kind)),
        tool_found && !succeeded ==> res == Err::<(), InstallError>(
            InstallError::InstallFailed(kind),
        ),
        tool_found && succeeded ==> res == Ok::<(), InstallError>(()),
{
    if !tool_found {
        Err(InstallError::ToolMissing(kind))
    } else if !succeeded {
        Err(InstallError::InstallFailed(kind))
    } else {
        Ok(())
    }
}

} // verus!
