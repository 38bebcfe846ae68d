//! Launch planning: from a resolved launch target and a port to the command
//! line, working directory and search path that the child is spawned with.
//! Finding the target on disk is the caller's business; choosing among what
//! was found, and everything after, is decided here.

use crate::readiness::{ReadinessEvent, ReadinessEventView};
use crate::text::{clone_texts, contains_seq, contains_text, decimal_digits, push_decimal, texts};
use vstd::prelude::*;
use vstd::string::*;

verus! {

/// Progress reported when the child is about to be spawned.
pub const PROGRESS_LAUNCH: u32 = 5;

/// The address at which a service on loopback port `port` answers.
pub open spec fn endpoint_url_text(port: u16) -> Seq<char> {
    "http://127.0.0.1:"@ + decimal_digits(port as nat)
}

/// The address at which a service on loopback port `port` answers.
pub fn endpoint_url(port: u16) -> (r: String)
    ensures
        r@ == endpoint_url_text(port),
{
    let mut url = String::from_str("http://127.0.0.1:");
    push_decimal(&mut url, port as u64);
    url
}

/// The arguments that tell the service to listen on loopback port `port`.
pub open spec fn service_args_text(port: u16) -> Seq<Seq<char>> {
    seq!["--server.name"@, "127.0.0.1"@, "--server.port"@, decimal_digits(port as nat)]
}

fn push_service_args(args: &mut Vec<String>, port: u16)
    ensures
        texts(final(args)@) == texts(old(args)@) + service_args_text(port),
{
    let mut number = String::new();
    push_decimal(&mut number, port as u64);
    args.push(String::from_str("--server.name"));
    args.push(String::from_str("127.0.0.1"));
    args.push(String::from_str("--server.port"));
    args.push(number);
    assert(number@ =~= decimal_digits(port as nat));
    assert(texts(args@) =~= texts(old(args)@) + service_args_text(port));
}

/// The arguments that tell the service to listen on loopback port `port`.
pub fn service_args(port: u16) -> (r: Vec<String>)
    ensures
        texts(r@) == service_args_text(port),
{
    let mut args: Vec<String> = Vec::new();
    push_service_args(&mut args, port);
    assert(texts(args@) =~= service_args_text(port));
    args
}

/// `path` with `dir` and `separator` put in front, unless `dir` already
/// stands somewhere in `path`.
pub open spec fn with_dir(path: Seq<char>, dir: Seq<char>, separator: Seq<char>) -> Seq<char> {
    if contains_seq(path, dir) {
        path
    } else {
        dir + separator + path
    }
}

/// `path` after each of `dirs` in turn has been put in front where it was
/// missing; the last of them ends up first.
pub open spec fn with_dirs(path: Seq<char>, dirs: Seq<Seq<char>>, separator: Seq<char>) -> Seq<
    char,
>
    decreases dirs.len(),
{
    if dirs.len() == 0 {
        path
    } else {
        with_dir(with_dirs(path, dirs.drop_last(), separator), dirs.last(), separator)
    }
}

/// Puts `dir` and `separator` in front of `path` unless `dir` already stands
/// somewhere in it.
pub fn prepend_missing(path: String, dir: &str, separator: &str) -> (r: String)
    ensures
        r@ == with_dir(path@, dir@, separator@),
{
    if contains_text(path.as_str(), dir) {
        path
    } else {
        let mut out = String::from_str(dir);
        out.append(separator);
        out.append(path.as_str());
        out
    }
}

/// Puts each of `dirs` in turn in front of `path` where it is missing.
pub fn augment_search_path(path: &str, dirs: &Vec<String>, separator: &str) -> (r: String)
    ensures
        r@ == with_dirs(path@, texts(dirs@), separator@),
{
    let mut out = String::from_str(path);
    let mut i: usize = 0;
    while i < dirs.len()
        invariant
            i <= dirs.len(),
            out@ == with_dirs(path@, texts(dirs@).take(i as int), separator@),
        decreases dirs.len() - i,
    {
        proof {
            let upto = texts(dirs@).take(i + 1);
            assert(upto.drop_last() =~= texts(dirs@).take(i as int));
            assert(upto.last() == dirs@[i as int]@);
        }
        out = prepend_missing(out, dirs[i].as_str(), separator);
        i += 1;
    }
    assert(texts(dirs@).take(i as int) =~= texts(dirs@));
    out
}

/// The search path that an interpreted service is spawned with: the places
/// where the media tools are usually installed, each put in front of `path`
/// where it is missing.
pub open spec fn tool_search_path_text(path: Seq<char>) -> Seq<char> {
    with_dir(
        with_dir(with_dir(path, "/opt/homebrew/bin"@, ":"@), "/usr/local/bin"@, ":"@),
        "/usr/bin"@,
        ":"@,
    )
}

/// The search path that an interpreted service is spawned with.
pub fn tool_search_path(path: String) -> (r: String)
    ensures
        r@ == tool_search_path_text(path@),
{
    let path = prepend_missing(path, "/opt/homebrew/bin", ":");
    let path = prepend_missing(path, "/usr/local/bin", ":");
    prepend_missing(path, "/usr/bin", ":")
}

/// After `dir` has been put in front where it was missing it is there, the
/// old path is the tail of the new one, and doing it again changes nothing.
pub proof fn law_with_dir(path: Seq<char>, dir: Seq<char>, separator: Seq<char>)
    ensures
        contains_seq(with_dir(path, dir, separator), dir),
        with_dir(path, dir, separator).len() >= path.len(),
        with_dir(path, dir, separator).skip(with_dir(path, dir, separator).len() - path.len())
            == path,
        with_dir(with_dir(path, dir, separator), dir, separator) == with_dir(path, dir, separator),
{
    let out = with_dir(path, dir, separator);
    if contains_seq(path, dir) {
        assert(out.skip(0) =~= path);
    } else {
        assert(out.subrange(0, 0 + dir.len() as int) =~= dir);
        assert(crate::text::occurs_at(out, dir, 0));
        assert(out.skip(out.len() - path.len()) =~= path);
    }
}

/// The position of the first candidate that is available, if any is.
pub open spec fn first_available_at(available: Seq<bool>, at: int) -> bool {
    &&& 0 <= at < available.len()
    &&& available[at]
    &&& forall|j: int| 0 <= j < at ==> !available[j]
}

/// Picks, among candidates given in order of preference, the first that is
/// available.
pub fn first_available(available: &Vec<bool>) -> (r: Option<usize>)
    ensures
        match r {
            Some(at) => first_available_at(available@, at as int),
            None => forall|j: int| 0 <= j < available@.len() ==> !available@[j],
        },
{
    let mut i: usize = 0;
    while i < available.len()
        invariant
            i <= available.len(),
            forall|j: int| 0 <= j < i ==> !available@[j],
        decreases available.len() - i,
    {
        if available[i] {
            return Some(i);
        }
        i += 1;
    }
    None
}

/// Which kind of launch target a service is started from.
#[derive(Clone, Copy, Debug, PartialEq, Eq, Structural)]
pub enum LaunchKind {
    /// A bundled executable of the service.
    Sidecar,
    /// An interpreter that runs the service's entry script.
    Script,
}

/// What the resolver found to launch.
#[derive(Debug)]
pub enum LaunchTarget {
    /// A bundled executable, run in `workdir`.
    Sidecar { program: String, workdir: String },
    /// An interpreter that runs `script` in `workdir`; `search_path` is the
    /// search path that the supervisor itself runs with.
    Script { interpreter: String, script: String, workdir: String, search_path: String },
}

/// A launch target as a mathematical value.
pub ghost enum LaunchTargetView {
    Sidecar { program: Seq<char>, workdir: Seq<char> },
    Script {
        interpreter: Seq<char>,
        script: Seq<char>,
        workdir: Seq<char>,
        search_path: Seq<char>,
    },
}

impl LaunchTargetView {
    pub open spec fn kind(self) -> LaunchKind {
        match self {
            LaunchTargetView::Sidecar { .. } => LaunchKind::Sidecar,
            LaunchTargetView::Script { .. } => LaunchKind::Script,
        }
    }

    /// The report published when this target is about to be spawned.
    pub open spec fn announcement(self) -> ReadinessEventView {
        match self {
            LaunchTargetView::Sidecar { .. } => ReadinessEventView {
                percent: 5,
                message: "Launching sidecar"@,
            },
            LaunchTargetView::Script { .. } => ReadinessEventView {
                percent: 5,
                message: "Launching Python backend"@,
            },
        }
    }

    /// The plan by which this target serves on loopback port `port`. A
    /// sidecar gets the service's arguments and keeps the search path it
    /// inherits; an interpreter gets the script in front of them and a search
    /// path on which the media tools are found.
    pub open spec fn plan(self, port: u16) -> LaunchPlanView {
        match self {
            LaunchTargetView::Sidecar { program, workdir } => LaunchPlanView {
                program,
                args: service_args_text(port),
                workdir,
                search_path: None,
            },
            LaunchTargetView::Script {
                interpreter,
                script,
                workdir,
                search_path,
            } => LaunchPlanView {
                program: interpreter,
                args: seq![script] + service_args_text(port),
                workdir,
                search_path: Some(tool_search_path_text(search_path)),
            },
        }
    }
}

impl View for LaunchTarget {
    type V = LaunchTargetView;

    open spec fn view(&self) -> LaunchTargetView {
        match self {
            LaunchTarget::Sidecar { program, workdir } => LaunchTargetView::Sidecar {
                program: program@,
                workdir: workdir@,
            },
            LaunchTarget::Script {
                interpreter,
                script,
                workdir,
                search_path,
            } => LaunchTargetView::Script {
                interpreter: interpreter@,
                script: script@,
                workdir: workdir@,
                search_path: search_path@,
            },
        }
    }
}

/// How a child is spawned.
#[derive(Debug)]
pub struct LaunchPlan {
    /// The executable.
    pub program: String,
    /// Its arguments, in order.
    pub args: Vec<String>,
    /// The directory it runs in.
    pub workdir: String,
    /// The search path to set in its environment; absent where it inherits
    /// the supervisor's.
    pub search_path: Option<String>,
}

/// A launch plan as a mathematical value.
pub ghost struct LaunchPlanView {
    pub program: Seq<char>,
    pub args: Seq<Seq<char>>,
    pub workdir: Seq<char>,
    pub search_path: Option<Seq<char>>,
}

impl View for LaunchPlan {
    type V = LaunchPlanView;

    open spec fn view(&self) -> LaunchPlanView {
        LaunchPlanView {
            program: self.program@,
            args: texts(self.args@),
            workdir: self.workdir@,
            search_path: match self.search_path {
                Some(path) => Some(path@),
                None => None,
            },
        }
    }
}

impl Clone for LaunchPlan {
    fn clone(&self) -> (r: Self)
        ensures
            r@ == self@,
    {
        LaunchPlan {
            program: self.program.clone(),
            args: clone_texts(&self.args),
            workdir: self.workdir.clone(),
            search_path: match &self.search_path {
                Some(path) => Some(path.clone()),
                None => None,
            },
        }
    }
}

impl Clone for LaunchTarget {
    fn clone(&self) -> (r: Self)
        ensures
            r@ == self@,
    {
        match self {
            LaunchTarget::Sidecar { program, workdir } => LaunchTarget::Sidecar {
                program: program.clone(),
                workdir: workdir.clone(),
            },
            LaunchTarget::Script {
                interpreter,
                script,
                workdir,
                search_path,
            } => LaunchTarget::Script {
                interpreter: interpreter.clone(),
                script: script.clone(),
                workdir: workdir.clone(),
                search_path: search_path.clone(),
            },
        }
    }
}

impl LaunchTarget {
    /// Which kind of target this is.
    pub fn kind(&self) -> (r: LaunchKind)
        ensures
            r == self@.kind(),
    {
        match self {
            LaunchTarget::Sidecar { .. } => LaunchKind::Sidecar,
            LaunchTarget::Script { .. } => LaunchKind::Script,
        }
    }

    /// The report to publish when this target is about to be spawned.
    pub fn announcement(&self) -> (r: ReadinessEvent)
        ensures
            r@ == self@.announcement(),
    {
        match self {
            LaunchTarget::Sidecar { .. } => ReadinessEvent {
                percent: PROGRESS_LAUNCH,
                message: String::from_str("Launching sidecar"),
            },
            LaunchTarget::Script { .. } => ReadinessEvent {
                percent: PROGRESS_LAUNCH,
                message: String::from_str("Launching Python backend"),
            },
        }
    }

    /// The plan by which this target serves on loopback port `port`.
    pub fn plan(&self, port: u16) -> (r: LaunchPlan)
        ensures
            r@ == self@.plan(port),
    {
        match self {
            LaunchTarget::Sidecar { program, workdir } => LaunchPlan {
                program: program.clone(),
                args: service_args(port),
                workdir: workdir.clone(),
                search_path: None,
            },
            LaunchTarget::Script { interpreter, script, workdir, search_path } => {
                let mut args: Vec<String> = Vec::new();
                args.push(script.clone());
                assert(texts(args@) =~= seq![script@]);
                push_service_args(&mut args, port);
                LaunchPlan {
                    program: interpreter.clone(),
                    args,
                    workdir: workdir.clone(),
                    search_path: Some(tool_search_path(search_path.clone())),
                }
            },
        }
    }
}

} // verus!
