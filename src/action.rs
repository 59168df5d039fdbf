use vstd::prelude::*;

use crate::catalog::ToolDescriptor;

verus! {

/// The characters that separate the words of an install script.
pub open spec fn is_blank(c: char) -> bool {
    c == ' ' || c == '\t' || c == '\n' || c == '\r'
}

/// The words completed so far in `s`, and the word still being read.
pub open spec fn split_state(s: Seq<char>) -> (Seq<Seq<char>>, Seq<char>)
    decreases s.len(),
{
    if s.len() == 0 {
        (Seq::empty(), Seq::empty())
    } else {
        let (done, cur) = split_state(s.drop_last());
        let c = s.last();
        if !is_blank(c) {
            (done, cur.push(c))
        } else if cur.len() > 0 {
            (done.push(cur), Seq::empty())
        } else {
            (done, cur)
        }
    }
}

/// The maximal runs of non-blank characters of `s`, in order.
pub open spec fn words(s: Seq<char>) -> Seq<Seq<char>> {
    let (done, cur) = split_state(s);
    if cur.len() > 0 {
        done.push(cur)
    } else {
        done
    }
}

/// The abstract form of a sequence of strings.
pub open spec fn texts(v: Seq<String>) -> Seq<Seq<char>> {
    v.map_values(|s: String| s@)
}

/// Splits `s` into its words.
pub fn split_words(s: &str) -> (r: Vec<String>)
    ensures
        texts(r@) == words(s@),
{
    let n = s.unicode_len();
    let mut out: Vec<String> = Vec::new();
    let mut start: usize = 0;
    let mut i: usize = 0;
    assert(s@.take(0) =~= Seq::<char>::empty());
    assert(texts(out@) =~= Seq::<Seq<char>>::empty());
    assert(s@.subrange(0, 0) =~= Seq::<char>::empty());
    while i < n
        invariant
            n == s@.len(),
            start <= i <= n,
            split_state(s@.take(i as int)).0 == texts(out@),
            split_state(s@.take(i as int)).1 == s@.subrange(start as int, i as int),
        decreases n - i,
    {
        let c = s.get_char(i);
        assert(s@.take(i + 1).drop_last() =~= s@.take(i as int));
        assert(s@.take(i + 1).last() == c);
        if c == ' ' || c == '\t' || c == '\n' || c == '\r' {
            if start < i {
                let ghost prev = out@;
                out.push(s.substring_char(start, i).to_owned());
                assert(texts(out@) =~= texts(prev).push(s@.subrange(start as int, i as int)));
            }
            start = i + 1;
            assert(s@.subrange(start as int, i + 1) =~= Seq::<char>::empty());
        } else {
            assert(s@.subrange(start as int, i + 1) =~= s@.subrange(start as int, i as int).push(c));
        }
        i = i + 1;
    }
    assert(s@.take(n as int) =~= s@);
    if start < n {
        let ghost prev = out@;
        out.push(s.substring_char(start, n).to_owned());
        assert(texts(out@) =~= texts(prev).push(s@.subrange(start as int, n as int)));
    }
    out
}

/// What an install script asks for: a command, or a command to run from a
/// directory (written `cd <dir> && <command> <args>`).
#[derive(Clone, Debug, PartialEq, Eq)]
pub enum InstallAction {
    RunCommand { program: String, args: Vec<String> },
    ChangeDirThenRun { dir: String, program: String, args: Vec<String> },
}

pub enum ActionView {
    RunCommand { program: Seq<char>, args: Seq<Seq<char>> },
    ChangeDirThenRun { dir: Seq<char>, program: Seq<char>, args: Seq<Seq<char>> },
}

impl View for InstallAction {
    type V = ActionView;

    open spec fn view(&self) -> ActionView {
        match self {
            InstallAction::RunCommand { program, args } => ActionView::RunCommand {
                program: program@,
                args: texts(args@),
            },
            InstallAction::ChangeDirThenRun { dir, program, args } => ActionView::ChangeDirThenRun {
                dir: dir@,
                program: program@,
                args: texts(args@),
            },
        }
    }
}

/// The action that an install script asks for; none for a script without words.
pub open spec fn action_of(script: Seq<char>) -> Option<ActionView> {
    let w = words(script);
    if w.len() == 0 {
        None
    } else if w.len() >= 4 && w[0] == "cd"@ && w[2] == "&&"@ {
        Some(ActionView::ChangeDirThenRun { dir: w[1], program: w[3], args: w.skip(4) })
    } else {
        Some(ActionView::RunCommand { program: w[0], args: w.skip(1) })
    }
}

fn words_from(w: &Vec<String>, k: usize) -> (r: Vec<String>)
    requires
        k <= w.len(),
    ensures
        texts(r@) == texts(w@).skip(k as int),
{
    let mut out: Vec<String> = Vec::new();
    let mut i: usize = k;
    while i < w.len()
        invariant
            k <= i <= w.len(),
            out@ == w@.subrange(k as int, i as int),
        decreases w.len() - i,
    {
        out.push(w[i].clone());
        assert(out@ =~= w@.subrange(k as int, i + 1));
        i = i + 1;
    }
    assert(out@ =~= w@.skip(k as int));
    assert(texts(out@) =~= texts(w@).skip(k as int));
    out
}

impl InstallAction {
    /// Reads the action that an install script asks for.
    pub fn from_script(script: &str) -> (r: Option<InstallAction>)
        ensures
            match (r, action_of(script@)) {
                (Some(a), Some(v)) => a@ == v,
                (None, None) => true,
                _ => false,
            },
    {
        let w = split_words(script);
        if w.len() == 0 {
            return None;
        }
        if w.len() >= 4 && w[0] == String::from_str("cd") && w[2] == String::from_str("&&") {
            Some(
                InstallAction::ChangeDirThenRun {
                    dir: w[1].clone(),
                    program: w[3].clone(),
                    args: words_from(&w, 4),
                },
            )
        } else {
            Some(InstallAction::RunCommand { program: w[0].clone(), args: words_from(&w, 1) })
        }
    }
}

/// A process to start: where, what, and with which arguments.
#[derive(Clone, Debug, PartialEq, Eq)]
pub struct LaunchPlan {
    /// The directory to change to first, if any.
    pub dir: Option<String>,
    pub program: String,
    pub args: Vec<String>,
}

pub struct LaunchView {
    pub dir: Option<Seq<char>>,
    pub program: Seq<char>,
    pub args: Seq<Seq<char>>,
}

impl View for LaunchPlan {
    type V = LaunchView;

    open spec fn view(&self) -> LaunchView {
        LaunchView {
            dir: match self.dir {
                Some(d) => Some(d@),
                None => None,
            },
            program: self.program@,
            args: texts(self.args@),
        }
    }
}

/// Why an install action could not be turned into a process to start.
#[derive(Clone, Copy, Debug, PartialEq, Eq)]
pub enum InvokeError {
    /// The install script holds no command.
    EmptyScript,
    /// The directory is under the home directory, which is not known.
    NoHome,
}

/// Whether `dir` names the home directory or a path under it (`~`, `~/...`).
pub open spec fn under_home(dir: Seq<char>) -> bool {
    dir.len() > 0 && dir[0] == '~' && (dir.len() == 1 || dir[1] == '/')
}

/// `dir` with a leading `~` replaced by the home directory.
pub open spec fn expand_dir(dir: Seq<char>, home: Option<Seq<char>>) -> Option<Seq<char>> {
    if under_home(dir) {
        match home {
            Some(h) => Some(h + dir.skip(1)),
            None => None,
        }
    } else {
        Some(dir)
    }
}

/// The process that an action starts, given the home directory if known.
pub open spec fn launch_of(a: ActionView, home: Option<Seq<char>>) -> Result<LaunchView, InvokeError> {
    match a {
        ActionView::RunCommand { program, args } => Ok(LaunchView { dir: None, program, args }),
        ActionView::ChangeDirThenRun { dir, program, args } => match expand_dir(dir, home) {
            Some(d) => Ok(LaunchView { dir: Some(d), program, args }),
            None => Err(InvokeError::NoHome),
        },
    }
}

/// The process that an install script starts, given the home directory if known.
pub open spec fn plan_of(script: Seq<char>, home: Option<Seq<char>>) -> Result<LaunchView, InvokeError> {
    match action_of(script) {
        None => Err(InvokeError::EmptyScript),
        Some(a) => launch_of(a, home),
    }
}

pub open spec fn opt_text(o: Option<String>) -> Option<Seq<char>> {
    match o {
        Some(s) => Some(s@),
        None => None,
    }
}

fn expand(dir: &String, home: &Option<String>) -> (r: Option<String>)
    ensures
        opt_text(r) == expand_dir(dir@, opt_text(*home)),
{
    let d = dir.as_str();
    let n = d.unicode_len();
    if n > 0 && d.get_char(0) == '~' && (n == 1 || d.get_char(1) == '/') {
        match home {
            Some(h) => Some(h.clone().concat(d.substring_char(1, n))),
            None => None,
        }
    } else {
        Some(dir.clone())
    }
}

impl InstallAction {
    /// The process that this action starts, given the home directory if known.
    pub fn launch(&self, home: &Option<String>) -> (r: Result<LaunchPlan, InvokeError>)
        ensures
            match (r, launch_of(self@, opt_text(*home))) {
                (Ok(p), Ok(v)) => p@ == v,
                (Err(e), Err(v)) => e == v,
                _ => false,
            },
    {
        match self {
            InstallAction::RunCommand { program, args } => Ok(
                LaunchPlan { dir: None, program: program.clone(), args: args.clone() },
            ),
            InstallAction::ChangeDirThenRun { dir, program, args } => match expand(dir, home) {
                Some(d) => Ok(LaunchPlan { dir: Some(d), program: program.clone(), args: args.clone() }),
                None => Err(InvokeError::NoHome),
            },
        }
    }
}

impl ToolDescriptor {
    /// The process that installs this tool, given the home directory if known.
    pub fn launch_plan(&self, home: &Option<String>) -> (r: Result<LaunchPlan, InvokeError>)
        ensures
            match (r, plan_of(self.install_script@, opt_text(*home))) {
                (Ok(p), Ok(v)) => p@ == v,
                (Err(e), Err(v)) => e == v,
                _ => false,
            },
    {
        match InstallAction::from_script(self.install_script.as_str()) {
            None => Err(InvokeError::EmptyScript),
            Some(a) => a.launch(home),
        }
    }
}

} // verus!
