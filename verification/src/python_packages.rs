//! Python packages: how the packages a bundle misses are looked up, what is made
//! of the answer, and how the basic packages are installed, one pip run after
//! another. Running python is left to the caller; this module decides what is run
//! and what the outcomes mean.

use vstd::prelude::*;
use crate::bot_config_bundle::{BotConfigBundle, ScriptConfigBundle};
use crate::commands::{first_containing, get_package_name, packages};
use crate::settings::PackageResult;
use crate::text::{opt_view, str_eq, views};

verus! {

/// How the python packages a bundle misses are found.
#[derive(Debug)]
pub enum PackageCheck {
    /// Nothing is looked up: no package can be missing.
    NoneMissing,
    /// Only tkinter can be missing: python is asked whether it imports it.
    Tkinter,
    /// Python runs the package helper of `rlbot_smh` with these arguments and
    /// prints the missing packages as a JSON list.
    Helper(Vec<String>),
}

/// The arguments python gets to list the packages a requirements file names that
/// are not installed.
pub open spec fn helper_args(requires_tkinter: bool, requirements_file: Seq<char>) -> Seq<Seq<char>> {
    let head = seq!["-c"@, "from rlbot_smh.get_missing_packages import run; run()"@];
    let head = if requires_tkinter { head.push("requires_tkinter"@) } else { head };
    head.push("requirements_file="@ + requirements_file)
}

/// How the missing packages of a bundle are found: none are looked for when it
/// runs in its own virtual environment; without a requirements file only tkinter
/// is, and only when the bundle needs it; otherwise the helper reads the file.
pub fn missing_packages_check(use_virtual_environment: bool, requirements_file: &Option<String>, requires_tkinter: bool) -> (r: PackageCheck)
    ensures
        use_virtual_environment ==> r is NoneMissing,
        (!use_virtual_environment && requirements_file is None) ==> (if requires_tkinter {
            r is Tkinter
        } else {
            r is NoneMissing
        }),
        !use_virtual_environment ==> (requirements_file matches Some(f) ==> (r matches PackageCheck::Helper(args)
            && views(args@) == helper_args(requires_tkinter, f@))),
{
    if use_virtual_environment {
        return PackageCheck::NoneMissing;
    }
    match requirements_file {
        None => {
            if requires_tkinter {
                PackageCheck::Tkinter
            } else {
                PackageCheck::NoneMissing
            }
        },
        Some(file) => {
            let mut args: Vec<String> = Vec::new();
            args.push("-c".to_owned());
            args.push("from rlbot_smh.get_missing_packages import run; run()".to_owned());
            if requires_tkinter {
                args.push("requires_tkinter".to_owned());
            }
            let mut last = "requirements_file=".to_owned();
            last.append(file.as_str());
            args.push(last);
            proof {
                assert(views(args@) =~= helper_args(requires_tkinter, file@));
            }
            PackageCheck::Helper(args)
        },
    }
}

impl BotConfigBundle {
    /// How the python packages this bot misses are found.
    pub fn package_check(&self) -> (r: PackageCheck)
        ensures
            (self.supports_standalone && self.use_virtual_environment) ==> r is NoneMissing,
            (!(self.supports_standalone && self.use_virtual_environment) && self.requirements_file is None) ==> (
            if self.requires_tkinter {
                r is Tkinter
            } else {
                r is NoneMissing
            }),
            !(self.supports_standalone && self.use_virtual_environment) ==> (self.requirements_file matches Some(f)
                ==> (r matches PackageCheck::Helper(args) && views(args@) == helper_args(self.requires_tkinter, f@))),
    {
        missing_packages_check(self.use_virtual_environment(), &self.requirements_file, self.requires_tkinter)
    }
}

impl ScriptConfigBundle {
    /// How the python packages this script misses are found.
    pub fn package_check(&self) -> (r: PackageCheck)
        ensures
            self.use_virtual_environment ==> r is NoneMissing,
            (!self.use_virtual_environment && self.requirements_file is None) ==> (if self.requires_tkinter {
                r is Tkinter
            } else {
                r is NoneMissing
            }),
            !self.use_virtual_environment ==> (self.requirements_file matches Some(f) ==> (r matches PackageCheck::Helper(
                args,
            ) && views(args@) == helper_args(self.requires_tkinter, f@))),
    {
        missing_packages_check(self.use_virtual_environment(), &self.requirements_file, self.requires_tkinter)
    }
}

/// What is missing after asking python whether it imports tkinter.
pub fn missing_without_tkinter(tkinter_imports: bool) -> (r: Vec<String>)
    ensures
        tkinter_imports ==> r@.len() == 0,
        !tkinter_imports ==> views(r@) == seq!["tkinter"@],
{
    let mut r: Vec<String> = Vec::new();
    if !tkinter_imports {
        r.push("tkinter".to_owned());
        proof {
            assert(views(r@) =~= seq!["tkinter"@]);
        }
    }
    r
}

/// The strings that `serde_json::from_str::<Vec<String>>` reads from a text, if it
/// reads a list of strings.
pub uninterp spec fn json_string_list(j: Seq<char>) -> Option<Seq<Seq<char>>>;

/// `serde_json::from_str::<Vec<String>>`: the list of strings a JSON text holds.
#[verifier::external_body]
fn string_list_of_json(j: &str) -> (r: Option<Vec<String>>)
    ensures
        match r {
            Some(v) => json_string_list(j@) == Some(views(v@)),
            None => json_string_list(j@) is None,
        },
{
    serde_json::from_str::<Vec<String>>(j).ok()
}

/// The missing packages the helper printed: the JSON list it wrote, or none when
/// its output is not such a list.
pub fn missing_from_helper_output(output: &str) -> (r: Vec<String>)
    ensures
        match json_string_list(output@) {
            Some(l) => views(r@) == l,
            None => r@.len() == 0,
        },
{
    match string_list_of_json(output) {
        Some(v) => v,
        None => Vec::new(),
    }
}

/// `b` is `a` with its missing packages set to `missing`, and its warning set
/// when any is missing.
pub open spec fn with_packages(a: BotConfigBundle, b: BotConfigBundle, missing: Seq<Seq<char>>) -> bool {
    &&& b.missing_python_packages matches Some(m) && views(m@) == missing
    &&& if missing.len() > 0 {
        opt_view(b.warn) == Some("pythonpkg"@)
    } else {
        b.warn == a.warn
    }
    &&& b.name == a.name && b.looks_path == a.looks_path && b.path == a.path
    &&& b.config_file_name == a.config_file_name && b.config_directory == a.config_directory
    &&& b.info == a.info && b.logo_path == a.logo_path && b.logo == a.logo
    &&& b.runnable_type == a.runnable_type && b.image == a.image
    &&& b.supports_standalone == a.supports_standalone && b.use_virtual_environment == a.use_virtual_environment
    &&& b.requirements_file == a.requirements_file && b.requires_tkinter == a.requires_tkinter
    &&& b.python_path == a.python_path
}

impl BotConfigBundle {
    /// The bundle with the packages it misses, warning of them when there are any.
    pub fn with_missing_packages(self, missing: Vec<String>) -> (r: Self)
        ensures
            with_packages(self, r, views(missing@)),
    {
        let mut b = self;
        if missing.len() > 0 {
            b.warn = Some("pythonpkg".to_owned());
        }
        b.missing_python_packages = Some(missing);
        b
    }
}

/// The paths, in order, of the pairs whose name is `name`.
pub open spec fn named_paths(pairs: Seq<(Seq<char>, Seq<char>)>, name: Seq<char>) -> Seq<Seq<char>>
    decreases pairs.len(),
{
    if pairs.len() == 0 {
        Seq::empty()
    } else {
        let rest = named_paths(pairs.drop_last(), name);
        if pairs.last().0 == name {
            rest.push(pairs.last().1)
        } else {
            rest
        }
    }
}

/// The views of (name, path) pairs.
pub open spec fn pair_views(pairs: Seq<(String, String)>) -> Seq<(Seq<char>, Seq<char>)> {
    pairs.map_values(|p: (String, String)| (p.0@, p.1@))
}

/// The `.cfg` paths, in order, of the bots named `name` among (name, path) pairs:
/// the files to try, one after another, for the bot a recommendation names.
pub fn paths_named(pairs: &Vec<(String, String)>, name: &str) -> (r: Vec<String>)
    ensures
        views(r@) == named_paths(pair_views(pairs@), name@),
{
    let mut r: Vec<String> = Vec::new();
    let mut i: usize = 0;
    while i < pairs.len()
        invariant
            i <= pairs@.len(),
            views(r@) == named_paths(pair_views(pairs@).subrange(0, i as int), name@),
        decreases pairs.len() - i,
    {
        let ghost before = pair_views(pairs@).subrange(0, i as int);
        let ghost after = pair_views(pairs@).subrange(0, i + 1);
        assert(after.drop_last() =~= before);
        assert(after.last() == (pairs@[i as int].0@, pairs@[i as int].1@));
        if str_eq(pairs[i].0.as_str(), name) {
            r.push(pairs[i].1.clone());
            assert(views(r@) =~= views(r@.drop_last()).push(pairs@[i as int].1@));
        }
        i = i + 1;
    }
    assert(pair_views(pairs@).subrange(0, pairs@.len() as int) =~= pair_views(pairs@));
    r
}

/// The arguments that make python install or upgrade one package with pip.
pub open spec fn pip_install_args(package: Seq<char>) -> Seq<Seq<char>> {
    seq!["-m"@, "pip"@, "install"@, "-U"@, "--no-warn-script-location"@, package]
}

fn pip_install(package: &str) -> (r: Vec<String>)
    ensures
        views(r@) == pip_install_args(package@),
{
    let mut r: Vec<String> = Vec::new();
    r.push("-m".to_owned());
    r.push("pip".to_owned());
    r.push("install".to_owned());
    r.push("-U".to_owned());
    r.push("--no-warn-script-location".to_owned());
    r.push(package.to_owned());
    proof {
        assert(views(r@) =~= pip_install_args(package@));
    }
    r
}

/// The arguments that make python install pip if it lacks it.
pub fn ensurepip_args() -> (r: Vec<String>)
    ensures
        views(r@) == seq!["-m"@, "ensurepip"@],
{
    let mut r: Vec<String> = Vec::new();
    r.push("-m".to_owned());
    r.push("ensurepip".to_owned());
    proof {
        assert(views(r@) =~= seq!["-m"@, "ensurepip"@]);
    }
    r
}

/// The packages the GUI installs, with their version constraints.
fn package_list() -> (r: Vec<String>)
    ensures
        views(r@) == packages(),
{
    let mut r: Vec<String> = Vec::new();
    r.push("pip".to_owned());
    r.push("setuptools".to_owned());
    r.push("wheel".to_owned());
    r.push("numpy<1.23".to_owned());
    r.push("scipy".to_owned());
    r.push("numba<0.56".to_owned());
    r.push("selenium".to_owned());
    r.push("rlbot==1.*".to_owned());
    r.push("rlbot_smh>=1.0.13".to_owned());
    proof {
        assert(views(r@) =~= packages());
    }
    r
}

/// Installing the basic packages in the order the GUI lists them: after
/// `ensurepip`, whatever it gave, pip installs each package in turn, and the
/// first run that fails ends the install. `installed` counts the pip runs made,
/// `exit_code` is the exit code of the last.
#[derive(Debug)]
pub struct BasicInstall {
    pub installed: usize,
    pub exit_code: i32,
}

impl BasicInstall {
    /// Every package was installed, or a pip run failed.
    pub open spec fn is_done(&self) -> bool {
        self.exit_code != 0 || self.installed >= packages().len()
    }

    /// The install before any pip run.
    pub fn new() -> (r: Self)
        ensures
            r.installed == 0,
            r.exit_code == 0,
    {
        BasicInstall { installed: 0, exit_code: 0 }
    }

    /// The pip run to make next, none once the install is done.
    pub fn next_command(&self) -> (r: Option<Vec<String>>)
        ensures
            self.is_done() ==> r is None,
            !self.is_done() ==> (r matches Some(args) && views(args@) == pip_install_args(packages()[self.installed as int])),
    {
        if self.exit_code != 0 || self.installed >= 9 {
            return None;
        }
        let list = package_list();
        proof {
            assert(views(list@).len() == list@.len());
            assert(views(list@)[self.installed as int] == list@[self.installed as int]@);
        }
        Some(pip_install(list[self.installed].as_str()))
    }

    /// Records the exit code of the pip run `next_command` asked for.
    pub fn record(&mut self, exit_code: i32)
        requires
            !old(self).is_done(),
        ensures
            final(self).installed == old(self).installed + 1,
            final(self).exit_code == exit_code,
    {
        self.installed = self.installed + 1;
        self.exit_code = exit_code;
    }

    /// The outcome of the install: the exit code of the last pip run, and every
    /// package the GUI installs.
    pub fn result(&self) -> (r: PackageResult)
        ensures
            r.exit_code == self.exit_code,
            views(r.packages@) == packages(),
    {
        PackageResult::new(self.exit_code, package_list())
    }

    /// The outcome when the internet cannot be reached: nothing is run.
    pub fn unreachable_result() -> (r: PackageResult)
        ensures
            r.exit_code == 3,
            views(r.packages@) == packages(),
    {
        PackageResult::new(3, package_list())
    }
}

/// The packages upgraded by `install_upgrade_basic_packages`.
pub open spec fn upgraded_packages() -> Seq<Seq<char>> {
    seq!["pip"@, "setuptools"@, "wheel"@, "numpy"@, "scipy"@, "numba"@, "websockets"@, "selenium"@, "rlbot"@]
}

/// The python runs that upgrade the basic packages, in order: `ensurepip`, pip,
/// setuptools and wheel, then the rest.
pub open spec fn upgrade_runs() -> Seq<Seq<Seq<char>>> {
    let pip = seq!["-m"@, "pip"@, "install"@, "-U"@, "--no-warn-script-location"@];
    seq![
        seq!["-m"@, "ensurepip"@],
        pip.push("pip"@),
        pip + seq!["setuptools"@, "wheel"@],
        pip + seq!["numpy"@, "scipy"@, "numba"@, "websockets"@, "selenium"@, "rlbot"@],
    ]
}

fn pip_upgrade(packages: &Vec<String>) -> (r: Vec<String>)
    ensures
        views(r@) == seq!["-m"@, "pip"@, "install"@, "-U"@, "--no-warn-script-location"@] + views(packages@),
{
    let mut r: Vec<String> = Vec::new();
    r.push("-m".to_owned());
    r.push("pip".to_owned());
    r.push("install".to_owned());
    r.push("-U".to_owned());
    r.push("--no-warn-script-location".to_owned());
    let ghost head = views(r@);
    let mut i: usize = 0;
    while i < packages.len()
        invariant
            i <= packages@.len(),
            head == seq!["-m"@, "pip"@, "install"@, "-U"@, "--no-warn-script-location"@],
            views(r@) == head + views(packages@).subrange(0, i as int),
        decreases packages.len() - i,
    {
        let ghost before = r@;
        r.push(packages[i].clone());
        assert(r@ == before.push(packages@[i as int]));
        assert(views(r@) =~= views(before).push(packages@[i as int]@));
        assert(views(packages@).subrange(0, i + 1) =~= views(packages@).subrange(0, i as int).push(packages@[i as int]@));
        assert(views(r@) =~= head + views(packages@).subrange(0, i + 1));
        i = i + 1;
    }
    assert(views(packages@).subrange(0, packages@.len() as int) =~= views(packages@));
    r
}

/// The python runs that upgrade the basic packages, in order.
pub fn basic_upgrade_runs() -> (r: Vec<Vec<String>>)
    ensures
        r@.len() == 4,
        forall|i: int| 0 <= i < 4 ==> views(#[trigger] r@[i]@) == upgrade_runs()[i],
{
    let mut r: Vec<Vec<String>> = Vec::new();
    r.push(ensurepip_args());
    r.push(pip_upgrade(&vec!["pip".to_owned()]));
    r.push(pip_upgrade(&vec!["setuptools".to_owned(), "wheel".to_owned()]));
    r.push(pip_upgrade(&vec![
        "numpy".to_owned(),
        "scipy".to_owned(),
        "numba".to_owned(),
        "websockets".to_owned(),
        "selenium".to_owned(),
        "rlbot".to_owned(),
    ]));
    proof {
        let pip = seq!["-m"@, "pip"@, "install"@, "-U"@, "--no-warn-script-location"@];
        assert(views(r@[1]@) =~= pip.push("pip"@));
        assert(views(r@[2]@) =~= pip + seq!["setuptools"@, "wheel"@]);
        assert(views(r@[3]@) =~= pip + seq!["numpy"@, "scipy"@, "numba"@, "websockets"@, "selenium"@, "rlbot"@]);
    }
    r
}

/// Whether a python run succeeded. A run's outcome is `None` when it did not
/// start, else its exit code, `None` when a signal ended it.
pub open spec fn run_succeeded(outcome: Option<Option<i32>>) -> bool {
    outcome == Some(Some(0i32))
}

/// The exit code reported for the runs of `upgrade_runs`, made in order while each
/// succeeds: that of the last when the first three succeeded and it ran (1 when a
/// signal ended it), else 2.
pub open spec fn upgrade_exit_code(outcomes: Seq<Option<Option<i32>>>) -> i32 {
    if outcomes.len() >= 4 && run_succeeded(outcomes[0]) && run_succeeded(outcomes[1]) && run_succeeded(outcomes[2])
        && outcomes[3] is Some {
        match outcomes[3].unwrap() {
            Some(c) => c,
            None => 1,
        }
    } else {
        2
    }
}

fn succeeded(outcome: &Option<Option<i32>>) -> (r: bool)
    ensures
        r == run_succeeded(*outcome),
{
    match outcome {
        Some(Some(c)) => *c == 0,
        _ => false,
    }
}

/// The outcome of upgrading the basic packages, from the outcomes of the runs of
/// `basic_upgrade_runs`, made in order while each succeeds.
pub fn install_upgrade_basic_packages(outcomes: &Vec<Option<Option<i32>>>) -> (r: PackageResult)
    ensures
        r.exit_code == upgrade_exit_code(outcomes@),
        views(r.packages@) == upgraded_packages(),
{
    let packages = vec![
        "pip".to_owned(),
        "setuptools".to_owned(),
        "wheel".to_owned(),
        "numpy".to_owned(),
        "scipy".to_owned(),
        "numba".to_owned(),
        "websockets".to_owned(),
        "selenium".to_owned(),
        "rlbot".to_owned(),
    ];
    proof {
        assert(views(packages@) =~= upgraded_packages());
    }
    if outcomes.len() >= 4 && succeeded(&outcomes[0]) && succeeded(&outcomes[1]) && succeeded(&outcomes[2]) {
        match &outcomes[3] {
            Some(code) => {
                let exit_code = match code {
                    Some(c) => *c,
                    None => 1,
                };
                return PackageResult::new(exit_code, packages);
            },
            None => {},
        }
    }
    PackageResult::new(2, packages)
}

/// The pip run that installs or upgrades a package the user names, with the GUI's
/// version constraint applied to it (see `get_package_name`).
pub fn install_package_args(package: &str) -> (r: Vec<String>)
    ensures
        views(r@) == pip_install_args(match first_containing(packages(), package@) {
            Some(p) => p,
            None => package@,
        }),
{
    pip_install(get_package_name(package))
}

/// The pip run that installs what a requirements file lists.
pub fn requirements_install_args(requirements_file: &str) -> (r: Vec<String>)
    ensures
        views(r@) == seq!["-m"@, "pip"@, "install"@, "--no-warn-script-location"@, "-r"@, requirements_file@],
{
    let mut r: Vec<String> = Vec::new();
    r.push("-m".to_owned());
    r.push("pip".to_owned());
    r.push("install".to_owned());
    r.push("--no-warn-script-location".to_owned());
    r.push("-r".to_owned());
    r.push(requirements_file.to_owned());
    proof {
        assert(views(r@) =~= seq!["-m"@, "pip"@, "install"@, "--no-warn-script-location"@, "-r"@, requirements_file@]);
    }
    r
}

/// The outcome of installing the requirements of a bot that names no
/// requirements file: nothing is run.
pub fn no_requirements_result() -> (r: PackageResult)
    ensures
        r.exit_code == 1,
        views(r.packages@) == seq!["unknown file"@],
{
    let packages = vec!["unknown file".to_owned()];
    proof {
        assert(views(packages@) =~= seq!["unknown file"@]);
    }
    PackageResult::new(1, packages)
}

} // verus!
