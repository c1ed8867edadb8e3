//! The `new` command: creates a cargo project, adds the `pages-rs`
//! dependency to it and prepares its source directory. The task decides;
//! its driver performs each action and reports the outcome.
use vstd::prelude::*;

use crate::task::{
    command_is, prints, push_word, strings_view, Action, CliError, CommandSpec, Event, FailureKind,
    Outcome,
};
use crate::text::{join_path, joined_path};

verus! {

/// Where the project creation stands.
#[derive(Clone, Debug)]
pub enum NewStage {
    AnnouncingCreate,
    Creating,
    AnnouncingDependency,
    AddingDependency,
    AnnouncingTemplates,
    CreatingSources,
    AnnouncingDone,
    Finished(Outcome),
}

/// The creation of a project at `path`, with `args` passed on to
/// `cargo new`.
#[derive(Clone, Debug)]
pub struct NewTask {
    pub path: String,
    pub args: Vec<String>,
    pub stage: NewStage,
}

/// The task ends failing with its own error of kind `Other` and this message.
pub open spec fn fails_other(t: NewTask, a: Action, msg: Seq<char>) -> bool {
    &&& t.stage matches NewStage::Finished(Outcome::Failed(e))
    &&& e.kind == FailureKind::Other && e.message@ == msg
    &&& a == Action::Finish(Outcome::Failed(e))
}

/// The task ends with this outcome.
pub open spec fn ends_with(t: NewTask, a: Action, o: Outcome) -> bool {
    t.stage == NewStage::Finished(o) && a == Action::Finish(o)
}

/// The first stage of creating a project.
pub open spec fn new_start(path: Seq<char>, args: Seq<Seq<char>>, t: NewTask, a: Action) -> bool {
    &&& t.path@ == path
    &&& strings_view(t.args@) == args
    &&& t.stage == NewStage::AnnouncingCreate
    &&& prints(a, "🚀 正在调用原始构建工具创建项目..."@)
}

/// One step of creating a project: from `old` on `event` to `new`, asking
/// for `a`.
pub open spec fn new_step(old: NewTask, event: Event, new: NewTask, a: Action) -> bool {
    &&& new.path == old.path
    &&& new.args == old.args
    &&& match old.stage {
        NewStage::AnnouncingCreate => new.stage == NewStage::Creating && (a matches Action::Run(c)
            && command_is(c, "cargo"@, seq!["new"@, old.path@] + strings_view(old.args@), None)),
        NewStage::Creating => match event {
            Event::Exited(true) => new.stage == NewStage::AnnouncingDependency && prints(
                a,
                "📦 正在自动添加 pages-rs 依赖项..."@,
            ),
            Event::Exited(false) => fails_other(new, a, "底层项目创建指令执行失败"@),
            _ => ends_with(new, a, Outcome::PropagateError),
        },
        NewStage::AnnouncingDependency => new.stage == NewStage::AddingDependency && (a matches Action::Run(c)
            && command_is(c, "cargo"@, seq!["add"@, "pages-rs"@], Some(old.path@))),
        NewStage::AddingDependency => match event {
            Event::Exited(true) => new.stage == NewStage::AnnouncingTemplates && prints(
                a,
                "📝 正在注入自定义 main.rs 和 lib.rs 模板..."@,
            ),
            Event::Exited(false) => fails_other(new, a, "添加 pages-rs 依赖失败"@),
            _ => ends_with(new, a, Outcome::PropagateError),
        },
        NewStage::AnnouncingTemplates => new.stage == NewStage::CreatingSources && (a matches Action::CreateDirAll(
            d,
        ) && d@ == joined_path(old.path@, "src"@)),
        NewStage::CreatingSources => match event {
            Event::Completed => new.stage == NewStage::AnnouncingDone && prints(a, "✨ 项目初始化成功！"@),
            _ => ends_with(new, a, Outcome::PropagateError),
        },
        NewStage::AnnouncingDone => ends_with(new, a, Outcome::Succeeded),
        NewStage::Finished(o) => ends_with(new, a, o),
    }
}

fn copy_words(words: &Vec<String>) -> (res: Vec<String>)
    ensures
        strings_view(res@) == strings_view(words@),
{
    let mut res: Vec<String> = Vec::new();
    let n = words.len();
    let mut i: usize = 0;
    while i < n
        invariant
            n == words@.len(),
            i <= n,
            strings_view(res@) == strings_view(words@.take(i as int)),
        decreases n - i,
    {
        push_word(&mut res, words[i].as_str());
        assert(words@.take((i + 1) as int) =~= words@.take(i as int).push(words@[i as int]));
        assert(strings_view(words@.take((i + 1) as int)) =~= strings_view(words@.take(i as int)).push(
            words@[i as int]@,
        ));
        i = i + 1;
    }
    assert(words@.take(n as int) =~= words@);
    res
}

fn failed(message: &str) -> (res: (NewStage, Action))
    ensures
        res.0 matches NewStage::Finished(Outcome::Failed(e)) && e.kind == FailureKind::Other && e.message@
            == message@ && res.1 == Action::Finish(Outcome::Failed(e)),
{
    let e = CliError { kind: FailureKind::Other, message: String::from_str(message) };
    let e2 = CliError { kind: FailureKind::Other, message: e.message.clone() };
    (NewStage::Finished(Outcome::Failed(e)), Action::Finish(Outcome::Failed(e2)))
}

impl NewTask {
    /// Starts creating a project at `path`, passing `args` on to `cargo new`.
    pub fn start(path: String, args: Vec<String>) -> (res: (NewTask, Action))
        ensures
            new_start(path@, strings_view(args@), res.0, res.1),
    {
        (
            NewTask { path, args, stage: NewStage::AnnouncingCreate },
            Action::Print(String::from_str("🚀 正在调用原始构建工具创建项目...")),
        )
    }

    /// Advances the project creation by one reported event.
    pub fn step(self, event: Event) -> (res: (NewTask, Action))
        ensures
            new_step(self, event, res.0, res.1),
    {
        let NewTask { path, args, stage } = self;
        let (stage, action) = match stage {
            NewStage::AnnouncingCreate => {
                let mut words: Vec<String> = Vec::new();
                push_word(&mut words, "new");
                push_word(&mut words, path.as_str());
                let mut rest = copy_words(&args);
                let ghost head = words@;
                let ghost tail = rest@;
                words.append(&mut rest);
                proof {
                    assert(words@ =~= head + tail);
                    assert(strings_view(head + tail) =~= strings_view(head) + strings_view(tail));
                    assert(strings_view(head) =~= seq!["new"@, path@]);
                }
                let c = CommandSpec { program: String::from_str("cargo"), args: words, cwd: None };
                (NewStage::Creating, Action::Run(c))
            },
            NewStage::Creating => match event {
                Event::Exited(true) => (
                    NewStage::AnnouncingDependency,
                    Action::Print(String::from_str("📦 正在自动添加 pages-rs 依赖项...")),
                ),
                Event::Exited(false) => failed("底层项目创建指令执行失败"),
                _ => (NewStage::Finished(Outcome::PropagateError), Action::Finish(Outcome::PropagateError)),
            },
            NewStage::AnnouncingDependency => {
                let mut words: Vec<String> = Vec::new();
                push_word(&mut words, "add");
                push_word(&mut words, "pages-rs");
                proof {
                    assert(strings_view(words@) =~= seq!["add"@, "pages-rs"@]);
                }
                let c = CommandSpec { program: String::from_str("cargo"), args: words, cwd: Some(path.clone()) };
                (NewStage::AddingDependency, Action::Run(c))
            },
            NewStage::AddingDependency => match event {
                Event::Exited(true) => (
                    NewStage::AnnouncingTemplates,
                    Action::Print(String::from_str("📝 正在注入自定义 main.rs 和 lib.rs 模板...")),
                ),
                Event::Exited(false) => failed("添加 pages-rs 依赖失败"),
                _ => (NewStage::Finished(Outcome::PropagateError), Action::Finish(Outcome::PropagateError)),
            },
            NewStage::AnnouncingTemplates => (
                NewStage::CreatingSources,
                Action::CreateDirAll(join_path(path.as_str(), "src")),
            ),
            NewStage::CreatingSources => match event {
                Event::Completed => (
                    NewStage::AnnouncingDone,
                    Action::Print(String::from_str("✨ 项目初始化成功！")),
                ),
                _ => (NewStage::Finished(Outcome::PropagateError), Action::Finish(Outcome::PropagateError)),
            },
            NewStage::AnnouncingDone => (
                NewStage::Finished(Outcome::Succeeded),
                Action::Finish(Outcome::Succeeded),
            ),
            NewStage::Finished(o) => {
                let a = Action::Finish(o.duplicate());
                (NewStage::Finished(o), a)
            },
        };
        (NewTask { path, args, stage }, action)
    }
}

/// The position of a stage in the creation sequence.
pub open spec fn new_rank(stage: NewStage) -> nat {
    match stage {
        NewStage::AnnouncingCreate => 0,
        NewStage::Creating => 1,
        NewStage::AnnouncingDependency => 2,
        NewStage::AddingDependency => 3,
        NewStage::AnnouncingTemplates => 4,
        NewStage::CreatingSources => 5,
        NewStage::AnnouncingDone => 6,
        NewStage::Finished(_) => 7,
    }
}

/// Project creation only moves forward: every step leads to a later stage
/// or ends the task, an ended task stays ended with the same outcome, and
/// `cargo add` is asked for only right after `cargo new` succeeded.
pub proof fn creation_moves_forward(old: NewTask, event: Event, new: NewTask, a: Action)
    requires
        new_step(old, event, new, a),
    ensures
        old.stage is Finished ==> new.stage == old.stage,
        !(old.stage is Finished) ==> new_rank(new.stage) > new_rank(old.stage),
        new.stage is Finished <==> a is Finish,
        new.stage is AnnouncingDependency ==> old.stage is Creating && event == Event::Exited(true),
{
}

/// The commands and directory of project creation: `cargo new` at the
/// project path with the user's arguments after it, then, only after it
/// succeeded, `cargo add pages-rs` run inside the project, then the
/// project's `src` directory (`<path>/src`) is created.
pub proof fn creation_runs_cargo_new_then_add(old: NewTask, event: Event, new: NewTask, a: Action)
    requires
        new_step(old, event, new, a),
        !(old.stage is Finished),
    ensures
        new.stage is Creating ==> (a matches Action::Run(c) && c.program@ == "cargo"@ && c.cwd is None
            && c.args@.len() == old.args@.len() + 2 && c.args@[0]@ == "new"@ && c.args@[1]@ == old.path@
            && forall|i: int| 0 <= i < old.args@.len() ==> #[trigger] c.args@[i + 2]@ == old.args@[i]@),
        new.stage is AddingDependency ==> old.stage is AnnouncingDependency && (a matches Action::Run(c)
            && c.program@ == "cargo"@ && c.args@.len() == 2 && c.args@[0]@ == "add"@ && c.args@[1]@
            == "pages-rs"@ && (c.cwd matches Some(d) && d@ == old.path@)),
        new.stage is CreatingSources ==> (a matches Action::CreateDirAll(d) && (old.path@.len() > 0
            && old.path@.last() != '/' ==> d@ == old.path@ + "/src"@)),
{
    reveal_strlit("/src");
    reveal_strlit("src");
    if new.stage is Creating {
        let c = a->Run_0;
        let w = seq!["new"@, old.path@] + strings_view(old.args@);
        assert(strings_view(c.args@) == w);
        assert(strings_view(c.args@).len() == c.args@.len());
        assert(c.args@[0]@ == strings_view(c.args@)[0]);
        assert(c.args@[1]@ == strings_view(c.args@)[1]);
        assert forall|i: int| 0 <= i < old.args@.len() implies #[trigger] c.args@[i + 2]@ == old.args@[i]@ by {
            assert(c.args@[i + 2]@ == strings_view(c.args@)[i + 2]);
            assert(strings_view(old.args@)[i] == old.args@[i]@);
        }
    }
    if new.stage is AddingDependency {
        let c = a->Run_0;
        assert(strings_view(c.args@).len() == c.args@.len());
        assert(c.args@[0]@ == strings_view(c.args@)[0]);
        assert(c.args@[1]@ == strings_view(c.args@)[1]);
    }
    if new.stage is CreatingSources {
        assert("/src"@ =~= seq!['/'] + "src"@);
    }
}

} // verus!
