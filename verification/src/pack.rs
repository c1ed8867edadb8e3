//! The `pack` command: checks the build environment, prepares a workspace
//! around the user's project, cross-compiles the Node.js add-on and packs
//! it into a zip archive. The task decides; its driver performs each action
//! and reports the outcome.
use vstd::prelude::*;

use crate::manifest::{
    check_template, lookup_of, package_name, pages_edit_sets_and_keeps, pages_key_path, outside_pages_edit,
    parsed_toml, same_at, template_edit_of, toml_rendering, toml_tree, workspace_manifest, ManifestLookup,
    TemplateEdit, TomlNode,
};
use crate::task::{
    prints, probes, push_word, runs, Action, CliError, CommandSpec, Event, FailureKind, Outcome,
};
use crate::text::{join_text, join_path, joined_path};

verus! {

/// Where the packing stands.
#[derive(Clone, Debug)]
pub enum PackStage {
    ReadingManifest,
    AnnouncingZig,
    ProbingZig,
    AnnouncingZigbuild,
    ProbingZigbuild,
    AnnouncingInstall,
    InstallingZigbuild,
    CheckingTarget,
    ClearingTarget,
    CreatingTarget,
    AnnouncingExtract,
    Extracting,
    ReadingCurrentDir,
    WritingWorkspace,
    AnnouncingBuild,
    Building,
    AnnouncingCopy,
    Copying,
    AnnouncingZip,
    Zipping,
    AnnouncingDone,
    Finished(Outcome),
}

/// The packing of the project at `path`, with the embedded workspace
/// manifest `template`. `package` is the project's package name once read.
#[derive(Clone, Debug)]
pub struct PackTask {
    pub path: String,
    pub template: String,
    pub package: String,
    pub stage: PackStage,
}

/// The message when the system is not Linux.
pub open spec fn unsupported_os_message(os: Seq<char>) -> Seq<char> {
    "当前系统为「"@ + os + "」，本命令仅支持在 Linux 系统下运行构建"@
}

/// The message when the project's manifest cannot be read.
pub open spec fn missing_manifest_message(path: Seq<char>) -> Seq<char> {
    "未找到 Cargo.toml 文件，请确保在 "@ + path + " 目录下运行"@
}

/// The message when the project's manifest is no TOML document.
pub open spec fn unparsable_manifest_message(error: Seq<char>) -> Seq<char> {
    "Cargo.toml 文件解析失败: "@ + error
}

/// The panic message of unwrapping a failed parse of the template.
pub open spec fn unparsable_template_message(error: Seq<char>) -> Seq<char> {
    "called `Result::unwrap()` on an `Err` value: "@ + error
}

/// The task ends failing with its own error of this kind and message.
pub open spec fn fails(t: PackTask, a: Action, kind: FailureKind, msg: Seq<char>) -> bool {
    &&& t.stage matches PackStage::Finished(Outcome::Failed(e))
    &&& e.kind == kind && e.message@ == msg
    &&& a == Action::Finish(Outcome::Failed(e))
}

/// The task ends with this outcome.
pub open spec fn ends(t: PackTask, a: Action, o: Outcome) -> bool {
    t.stage == PackStage::Finished(o) && a == Action::Finish(o)
}

/// The task stops the program with this panic message.
pub open spec fn aborts(t: PackTask, a: Action, msg: Seq<char>) -> bool {
    &&& t.stage matches PackStage::Finished(Outcome::Abort(m))
    &&& m@ == msg
    &&& a == Action::Finish(Outcome::Abort(m))
}

/// The directory the workspace is built in.
pub open spec fn target_dir() -> Seq<char> {
    "./target/pages"@
}

/// The command that builds the add-on.
pub open spec fn build_args() -> Seq<Seq<char>> {
    seq![
        "zigbuild"@,
        "--release"@,
        "--lib"@,
        "--manifest-path"@,
        "./target/pages/Cargo.toml"@,
        "--target"@,
        "x86_64-unknown-linux-gnu.2.17"@,
    ]
}

/// The action asks whether `d` exists.
pub open spec fn checks_exists(a: Action, d: Seq<char>) -> bool {
    a matches Action::CheckExists(p) && p@ == d
}

/// The action removes the directory `d`.
pub open spec fn removes_dir(a: Action, d: Seq<char>) -> bool {
    a matches Action::RemoveDirAll(p) && p@ == d
}

/// The action creates the directory `d` and its parents.
pub open spec fn creates_dir(a: Action, d: Seq<char>) -> bool {
    a matches Action::CreateDirAll(p) && p@ == d
}

/// The action extracts the pages tree under `d`.
pub open spec fn extracts(a: Action, d: Seq<char>) -> bool {
    a matches Action::ExtractPages(p) && p@ == d
}

/// The action reads the file `f`.
pub open spec fn reads_file(a: Action, f: Seq<char>) -> bool {
    a matches Action::ReadFile(p) && p@ == f
}

/// The action writes `c` to the file `f`.
pub open spec fn writes_file(a: Action, f: Seq<char>, c: Seq<char>) -> bool {
    a matches Action::WriteFile { path, contents } && path@ == f && contents@ == c
}

/// The action copies the file `from` to `to`.
pub open spec fn copies(a: Action, from: Seq<char>, to: Seq<char>) -> bool {
    a matches Action::CopyFile { from: x, to: y } && x@ == from && y@ == to
}

/// The action packs the tree at `source` into the archive `archive`.
pub open spec fn zips(a: Action, source: Seq<char>, archive: Seq<char>) -> bool {
    a matches Action::ZipDirectory { source: x, archive: y } && x@ == source && y@ == archive
}

/// The step after reading the manifest, given what the lookup found.
pub open spec fn after_manifest(old: PackTask, l: ManifestLookup, new: PackTask, a: Action) -> bool {
    match l {
        ManifestLookup::Unparsable(e) => fails(new, a, FailureKind::Other, unparsable_manifest_message(e@))
            && new.package == old.package,
        ManifestLookup::MissingKey => aborts(new, a, "index not found"@) && new.package == old.package,
        ManifestLookup::NotText => fails(new, a, FailureKind::Other, "Cargo.toml 文件中未找到 package.name 字段"@)
            && new.package == old.package,
        ManifestLookup::Name(n) => new.package == n && new.stage == PackStage::AnnouncingZig && prints(
            a,
            "🔍 检查 Zig 环境..."@,
        ),
    }
}

/// The step after extracting the pages tree, given what checking the
/// template found.
pub open spec fn after_extract(e: TemplateEdit, new: PackTask, a: Action) -> bool {
    match e {
        TemplateEdit::Unparsable(m) => aborts(new, a, unparsable_template_message(m@)),
        TemplateEdit::MissingKey => aborts(new, a, "index not found"@),
        TemplateEdit::Edited(_) => new.stage == PackStage::ReadingCurrentDir && a == Action::ReadCurrentDir,
    }
}

/// The step after reading the current directory, given what editing the
/// template found.
pub open spec fn after_current_dir(e: TemplateEdit, new: PackTask, a: Action) -> bool {
    match e {
        TemplateEdit::Unparsable(m) => aborts(new, a, unparsable_template_message(m@)),
        TemplateEdit::MissingKey => aborts(new, a, "index not found"@),
        TemplateEdit::Edited(text) => new.stage == PackStage::WritingWorkspace && writes_file(
            a,
            "./target/pages/Cargo.toml"@,
            text@,
        ),
    }
}

/// The first stage of packing the project at `path` on the system `os`.
pub open spec fn pack_start(path: Seq<char>, os: Seq<char>, t: PackTask, a: Action) -> bool {
    &&& t.path@ == path
    &&& if os != "linux"@ {
        fails(t, a, FailureKind::Unsupported, unsupported_os_message(os))
    } else {
        t.stage == PackStage::ReadingManifest && reads_file(a, joined_path(path, "Cargo.toml"@))
    }
}

/// One step of packing: from `old` on `event` to `new`, asking for `a`.
pub open spec fn pack_step(old: PackTask, event: Event, new: PackTask, a: Action) -> bool {
    &&& new.path == old.path
    &&& new.template == old.template
    &&& !(old.stage is ReadingManifest) ==> new.package == old.package
    &&& match old.stage {
        PackStage::ReadingManifest => match event {
            Event::FileRead(Some(text)) => exists|l: ManifestLookup|
                #[trigger] lookup_of(text@, l) && after_manifest(old, l, new, a),
            _ => fails(new, a, FailureKind::NotFound, missing_manifest_message(old.path@))
                && new.package == old.package,
        },
        PackStage::AnnouncingZig => new.stage == PackStage::ProbingZig && probes(a, "zig"@, seq!["version"@]),
        PackStage::ProbingZig => match event {
            Event::Exited(true) => new.stage == PackStage::AnnouncingZigbuild && prints(
                a,
                "🔍 检查 cargo-zigbuild 工具..."@,
            ),
            _ => fails(
                new,
                a,
                FailureKind::NotFound,
                "未检测到 zig 构建环境。请先安装 Zig (https://ziglang.org/ download/)"@,
            ),
        },
        PackStage::AnnouncingZigbuild => new.stage == PackStage::ProbingZigbuild && probes(
            a,
            "cargo-zigbuild"@,
            seq!["--version"@],
        ),
        PackStage::ProbingZigbuild => match event {
            Event::Exited(true) => new.stage == PackStage::CheckingTarget && checks_exists(a, target_dir()),
            _ => new.stage == PackStage::AnnouncingInstall && prints(
                a,
                "🛠️ 未检测到 cargo-zigbuild，正在通过 cargo install 安装..."@,
            ),
        },
        PackStage::AnnouncingInstall => new.stage == PackStage::InstallingZigbuild && runs(
            a,
            "cargo"@,
            seq!["install"@, "cargo-zigbuild"@],
        ),
        PackStage::InstallingZigbuild => match event {
            Event::Exited(true) => new.stage == PackStage::CheckingTarget && checks_exists(a, target_dir()),
            Event::Exited(false) => fails(new, a, FailureKind::Other, "自动安装 cargo-zigbuild 失败，请手动安装"@),
            _ => ends(new, a, Outcome::PropagateError),
        },
        PackStage::CheckingTarget => match event {
            Event::Exists(true) => new.stage == PackStage::ClearingTarget && removes_dir(a, target_dir()),
            _ => new.stage == PackStage::CreatingTarget && creates_dir(a, target_dir()),
        },
        PackStage::ClearingTarget => match event {
            Event::Completed => new.stage == PackStage::CreatingTarget && creates_dir(a, target_dir()),
            _ => ends(new, a, Outcome::PropagateError),
        },
        PackStage::CreatingTarget => match event {
            Event::Completed => new.stage == PackStage::AnnouncingExtract && prints(
                a,
                "📂 正在释放内置核心 pages 模块到构建目录..."@,
            ),
            _ => ends(new, a, Outcome::PropagateError),
        },
        PackStage::AnnouncingExtract => new.stage == PackStage::Extracting && extracts(a, target_dir()),
        PackStage::Extracting => match event {
            Event::Completed => exists|e: TemplateEdit|
                #[trigger] template_edit_of(old.template@, None, e) && after_extract(e, new, a),
            _ => ends(new, a, Outcome::PropagateError),
        },
        PackStage::ReadingCurrentDir => match event {
            Event::CurrentDir(cwd) => exists|e: TemplateEdit|
                #[trigger] template_edit_of(
                    old.template@,
                    Some((joined_path(cwd@, old.path@), old.package@)),
                    e,
                ) && after_current_dir(e, new, a),
            _ => ends(new, a, Outcome::PropagateError),
        },
        PackStage::WritingWorkspace => match event {
            Event::Completed => new.stage == PackStage::AnnouncingBuild && prints(
                a,
                "🏗️ 正在使用 zigbuild 进行 x86_64 跨平台 Linux 编译..."@,
            ),
            _ => ends(new, a, Outcome::PropagateError),
        },
        PackStage::AnnouncingBuild => new.stage == PackStage::Building && runs(a, "cargo"@, build_args()),
        PackStage::Building => match event {
            Event::Exited(true) => new.stage == PackStage::AnnouncingCopy && prints(
                a,
                "🚚 正在同步动态库 (.so) 扩展至目标分发目录..."@,
            ),
            Event::Exited(false) => fails(new, a, FailureKind::Other, "cargo-zigbuild 编译流程出错"@),
            _ => ends(new, a, Outcome::PropagateError),
        },
        PackStage::AnnouncingCopy => new.stage == PackStage::Copying && copies(
            a,
            "./target/pages/target/x86_64-unknown-linux-gnu/release/libnodejs_stream.so"@,
            "./target/pages/edgeone/nodejs-stream/pages.node"@,
        ),
        PackStage::Copying => match event {
            Event::Completed => new.stage == PackStage::AnnouncingZip && prints(
                a,
                "🗜️ 正在将生产制品打包为密闭 ZIP 归档: \"./target/pages/edgeone.zip\""@,
            ),
            _ => ends(new, a, Outcome::PropagateError),
        },
        PackStage::AnnouncingZip => new.stage == PackStage::Zipping && zips(
            a,
            "./target/pages/edgeone/nodejs-stream"@,
            "./target/pages/edgeone.zip"@,
        ),
        PackStage::Zipping => match event {
            Event::Completed => new.stage == PackStage::AnnouncingDone && prints(
                a,
                "🎉 完美的自动化构建完成！制品已生成：\"./target/pages/edgeone.zip\""@,
            ),
            _ => ends(new, a, Outcome::PropagateError),
        },
        PackStage::AnnouncingDone => ends(new, a, Outcome::Succeeded),
        PackStage::Finished(o) => ends(new, a, o),
    }
}

fn print(msg: &str) -> (a: Action)
    ensures
        prints(a, msg@),
{
    Action::Print(String::from_str(msg))
}

fn finish_failed(kind: FailureKind, message: String) -> (res: (PackStage, Action))
    ensures
        res.0 matches PackStage::Finished(Outcome::Failed(e)) && e.kind == kind && e.message@ == message@
            && res.1 == Action::Finish(Outcome::Failed(e)),
{
    let e = CliError { kind, message };
    let e2 = CliError { kind, message: e.message.clone() };
    (PackStage::Finished(Outcome::Failed(e)), Action::Finish(Outcome::Failed(e2)))
}

fn finish_abort(message: String) -> (res: (PackStage, Action))
    ensures
        res.0 matches PackStage::Finished(Outcome::Abort(m)) && m@ == message@ && res.1 == Action::Finish(
            Outcome::Abort(m),
        ),
{
    let m = message.clone();
    (PackStage::Finished(Outcome::Abort(message)), Action::Finish(Outcome::Abort(m)))
}

fn target_path() -> (res: String)
    ensures
        res@ == target_dir(),
{
    String::from_str("./target/pages")
}

impl PackTask {
    /// Starts packing the project at `path` on the system named `os`, with
    /// the embedded workspace manifest `template`: only Linux is supported;
    /// the first action reads the project's `Cargo.toml`.
    pub fn start(path: String, os: &str, template: String) -> (res: (PackTask, Action))
        ensures
            pack_start(path@, os@, res.0, res.1),
            res.0.template == template,
    {
        let os_name = String::from_str(os);
        let linux = String::from_str("linux");
        if os_name != linux {
            let msg = join_text(os, "」，本命令仅支持在 Linux 系统下运行构建");
            let msg = join_text("当前系统为「", msg.as_str());
            proof {
                assert(msg@ =~= unsupported_os_message(os@));
            }
            let (stage, action) = finish_failed(FailureKind::Unsupported, msg);
            (PackTask { path, template, package: String::new(), stage }, action)
        } else {
            let file = join_path(path.as_str(), "Cargo.toml");
            (
                PackTask { path, template, package: String::new(), stage: PackStage::ReadingManifest },
                Action::ReadFile(file),
            )
        }
    }

    /// Continues after the project's manifest was read and its package name
    /// looked up: fails or aborts as the lookup found, else announces the
    /// check for zig.
    pub fn on_manifest(self, lookup: ManifestLookup) -> (res: (PackTask, Action))
        requires
            self.stage is ReadingManifest,
        ensures
            res.0.path == self.path,
            res.0.template == self.template,
            after_manifest(self, lookup, res.0, res.1),
    {
        let PackTask { path, template, package, stage } = self;
        match lookup {
            ManifestLookup::Unparsable(e) => {
                let msg = join_text("Cargo.toml 文件解析失败: ", e.as_str());
                let (st, a) = finish_failed(FailureKind::Other, msg);
                (PackTask { path, template, package, stage: st }, a)
            },
            ManifestLookup::MissingKey => {
                let (st, a) = finish_abort(String::from_str("index not found"));
                (PackTask { path, template, package, stage: st }, a)
            },
            ManifestLookup::NotText => {
                let (st, a) = finish_failed(
                    FailureKind::Other,
                    String::from_str("Cargo.toml 文件中未找到 package.name 字段"),
                );
                (PackTask { path, template, package, stage: st }, a)
            },
            ManifestLookup::Name(n) => (
                PackTask { path, template, package: n, stage: PackStage::AnnouncingZig },
                print("🔍 检查 Zig 环境..."),
            ),
        }
    }

    /// Continues after the pages tree was extracted and the template
    /// checked: aborts when the template cannot be parsed or indexed, else
    /// asks for the current directory.
    pub fn on_template(self, edit: TemplateEdit) -> (res: (PackTask, Action))
        requires
            self.stage is Extracting,
        ensures
            res.0.path == self.path,
            res.0.template == self.template,
            res.0.package == self.package,
            after_extract(edit, res.0, res.1),
    {
        let PackTask { path, template, package, stage } = self;
        match edit {
            TemplateEdit::Unparsable(m) => {
                let msg = join_text("called `Result::unwrap()` on an `Err` value: ", m.as_str());
                let (st, a) = finish_abort(msg);
                (PackTask { path, template, package, stage: st }, a)
            },
            TemplateEdit::MissingKey => {
                let (st, a) = finish_abort(String::from_str("index not found"));
                (PackTask { path, template, package, stage: st }, a)
            },
            TemplateEdit::Edited(_) => (
                PackTask { path, template, package, stage: PackStage::ReadingCurrentDir },
                Action::ReadCurrentDir,
            ),
        }
    }

    /// Continues with the edited workspace manifest: aborts when the
    /// template cannot be parsed or indexed, else writes it as the
    /// workspace's `Cargo.toml`.
    pub fn on_workspace(self, edit: TemplateEdit) -> (res: (PackTask, Action))
        requires
            self.stage is ReadingCurrentDir,
        ensures
            res.0.path == self.path,
            res.0.template == self.template,
            res.0.package == self.package,
            after_current_dir(edit, res.0, res.1),
    {
        let PackTask { path, template, package, stage } = self;
        match edit {
            TemplateEdit::Unparsable(m) => {
                let msg = join_text("called `Result::unwrap()` on an `Err` value: ", m.as_str());
                let (st, a) = finish_abort(msg);
                (PackTask { path, template, package, stage: st }, a)
            },
            TemplateEdit::MissingKey => {
                let (st, a) = finish_abort(String::from_str("index not found"));
                (PackTask { path, template, package, stage: st }, a)
            },
            TemplateEdit::Edited(text) => (
                PackTask { path, template, package, stage: PackStage::WritingWorkspace },
                Action::WriteFile { path: String::from_str("./target/pages/Cargo.toml"), contents: text },
            ),
        }
    }

    /// Advances the packing by one reported event.
    pub fn step(self, event: Event) -> (res: (PackTask, Action))
        ensures
            pack_step(self, event, res.0, res.1),
    {
        let PackTask { path, template, package, stage } = self;
        let ghost old = self;
        let (package, stage, action) = match stage {
            PackStage::ReadingManifest => match event {
                Event::FileRead(Some(text)) => {
                    let lookup = package_name(text.as_str());
                    let ghost l = lookup;
                    let (t, a) = (PackTask { path, template, package, stage: PackStage::ReadingManifest }).on_manifest(lookup);
                    proof {
                        assert(lookup_of(text@, l));
                    }
                    return (t, a);
                },
                _ => {
                    let msg = join_text(path.as_str(), " 目录下运行");
                    let msg = join_text("未找到 Cargo.toml 文件，请确保在 ", msg.as_str());
                    proof {
                        assert(msg@ =~= missing_manifest_message(path@));
                    }
                    let (st, a) = finish_failed(FailureKind::NotFound, msg);
                    (package, st, a)
                },
            },
            PackStage::AnnouncingZig => {
                let mut args: Vec<String> = Vec::new();
                push_word(&mut args, "version");
                proof {
                    assert(crate::task::strings_view(args@) =~= seq!["version"@]);
                }
                let c = CommandSpec { program: String::from_str("zig"), args, cwd: None };
                (package, PackStage::ProbingZig, Action::Probe(c))
            },
            PackStage::ProbingZig => match event {
                Event::Exited(true) => (package, PackStage::AnnouncingZigbuild, print("🔍 检查 cargo-zigbuild 工具...")),
                _ => {
                    let (st, a) = finish_failed(
                        FailureKind::NotFound,
                        String::from_str("未检测到 zig 构建环境。请先安装 Zig (https://ziglang.org/ download/)"),
                    );
                    (package, st, a)
                },
            },
            PackStage::AnnouncingZigbuild => {
                let mut args: Vec<String> = Vec::new();
                push_word(&mut args, "--version");
                proof {
                    assert(crate::task::strings_view(args@) =~= seq!["--version"@]);
                }
                let c = CommandSpec { program: String::from_str("cargo-zigbuild"), args, cwd: None };
                (package, PackStage::ProbingZigbuild, Action::Probe(c))
            },
            PackStage::ProbingZigbuild => match event {
                Event::Exited(true) => (package, PackStage::CheckingTarget, Action::CheckExists(target_path())),
                _ => (
                    package,
                    PackStage::AnnouncingInstall,
                    print("🛠️ 未检测到 cargo-zigbuild，正在通过 cargo install 安装..."),
                ),
            },
            PackStage::AnnouncingInstall => {
                let mut args: Vec<String> = Vec::new();
                push_word(&mut args, "install");
                push_word(&mut args, "cargo-zigbuild");
                proof {
                    assert(crate::task::strings_view(args@) =~= seq!["install"@, "cargo-zigbuild"@]);
                }
                let c = CommandSpec { program: String::from_str("cargo"), args, cwd: None };
                (package, PackStage::InstallingZigbuild, Action::Run(c))
            },
            PackStage::InstallingZigbuild => match event {
                Event::Exited(true) => (package, PackStage::CheckingTarget, Action::CheckExists(target_path())),
                Event::Exited(false) => {
                    let (st, a) = finish_failed(
                        FailureKind::Other,
                        String::from_str("自动安装 cargo-zigbuild 失败，请手动安装"),
                    );
                    (package, st, a)
                },
                _ => (
                    package,
                    PackStage::Finished(Outcome::PropagateError),
                    Action::Finish(Outcome::PropagateError),
                ),
            },
            PackStage::CheckingTarget => match event {
                Event::Exists(true) => (package, PackStage::ClearingTarget, Action::RemoveDirAll(target_path())),
                _ => (package, PackStage::CreatingTarget, Action::CreateDirAll(target_path())),
            },
            PackStage::ClearingTarget => match event {
                Event::Completed => (package, PackStage::CreatingTarget, Action::CreateDirAll(target_path())),
                _ => (
                    package,
                    PackStage::Finished(Outcome::PropagateError),
                    Action::Finish(Outcome::PropagateError),
                ),
            },
            PackStage::CreatingTarget => match event {
                Event::Completed => (
                    package,
                    PackStage::AnnouncingExtract,
                    print("📂 正在释放内置核心 pages 模块到构建目录..."),
                ),
                _ => (
                    package,
                    PackStage::Finished(Outcome::PropagateError),
                    Action::Finish(Outcome::PropagateError),
                ),
            },
            PackStage::AnnouncingExtract => (package, PackStage::Extracting, Action::ExtractPages(target_path())),
            PackStage::Extracting => match event {
                Event::Completed => {
                    let edit = check_template(template.as_str());
                    let ghost e = edit;
                    let (t, a) = (PackTask { path, template, package, stage: PackStage::Extracting }).on_template(edit);
                    proof {
                        assert(template_edit_of(old.template@, None, e));
                    }
                    return (t, a);
                },
                _ => (
                    package,
                    PackStage::Finished(Outcome::PropagateError),
                    Action::Finish(Outcome::PropagateError),
                ),
            },
            PackStage::ReadingCurrentDir => match event {
                Event::CurrentDir(cwd) => {
                    let pages_path = join_path(cwd.as_str(), path.as_str());
                    let edit = workspace_manifest(template.as_str(), pages_path.as_str(), package.as_str());
                    let ghost e = edit;
                    let (t, a) = (PackTask { path, template, package, stage: PackStage::ReadingCurrentDir }).on_workspace(edit);
                    proof {
                        assert(template_edit_of(
                            old.template@,
                            Some((joined_path(cwd@, old.path@), old.package@)),
                            e,
                        ));
                    }
                    return (t, a);
                },
                _ => (
                    package,
                    PackStage::Finished(Outcome::PropagateError),
                    Action::Finish(Outcome::PropagateError),
                ),
            },
            PackStage::WritingWorkspace => match event {
                Event::Completed => (
                    package,
                    PackStage::AnnouncingBuild,
                    print("🏗️ 正在使用 zigbuild 进行 x86_64 跨平台 Linux 编译..."),
                ),
                _ => (
                    package,
                    PackStage::Finished(Outcome::PropagateError),
                    Action::Finish(Outcome::PropagateError),
                ),
            },
            PackStage::AnnouncingBuild => {
                let mut args: Vec<String> = Vec::new();
                push_word(&mut args, "zigbuild");
                push_word(&mut args, "--release");
                push_word(&mut args, "--lib");
                push_word(&mut args, "--manifest-path");
                push_word(&mut args, "./target/pages/Cargo.toml");
                push_word(&mut args, "--target");
                push_word(&mut args, "x86_64-unknown-linux-gnu.2.17");
                proof {
                    assert(crate::task::strings_view(args@) =~= build_args());
                }
                let c = CommandSpec { program: String::from_str("cargo"), args, cwd: None };
                (package, PackStage::Building, Action::Run(c))
            },
            PackStage::Building => match event {
                Event::Exited(true) => (
                    package,
                    PackStage::AnnouncingCopy,
                    print("🚚 正在同步动态库 (.so) 扩展至目标分发目录..."),
                ),
                Event::Exited(false) => {
                    let (st, a) = finish_failed(FailureKind::Other, String::from_str("cargo-zigbuild 编译流程出错"));
                    (package, st, a)
                },
                _ => (
                    package,
                    PackStage::Finished(Outcome::PropagateError),
                    Action::Finish(Outcome::PropagateError),
                ),
            },
            PackStage::AnnouncingCopy => (
                package,
                PackStage::Copying,
                Action::CopyFile {
                    from: String::from_str(
                        "./target/pages/target/x86_64-unknown-linux-gnu/release/libnodejs_stream.so",
                    ),
                    to: String::from_str("./target/pages/edgeone/nodejs-stream/pages.node"),
                },
            ),
            PackStage::Copying => match event {
                Event::Completed => (
                    package,
                    PackStage::AnnouncingZip,
                    print("🗜️ 正在将生产制品打包为密闭 ZIP 归档: \"./target/pages/edgeone.zip\""),
                ),
                _ => (
                    package,
                    PackStage::Finished(Outcome::PropagateError),
                    Action::Finish(Outcome::PropagateError),
                ),
            },
            PackStage::AnnouncingZip => (
                package,
                PackStage::Zipping,
                Action::ZipDirectory {
                    source: String::from_str("./target/pages/edgeone/nodejs-stream"),
                    archive: String::from_str("./target/pages/edgeone.zip"),
                },
            ),
            PackStage::Zipping => match event {
                Event::Completed => (
                    package,
                    PackStage::AnnouncingDone,
                    print("🎉 完美的自动化构建完成！制品已生成：\"./target/pages/edgeone.zip\""),
                ),
                _ => (
                    package,
                    PackStage::Finished(Outcome::PropagateError),
                    Action::Finish(Outcome::PropagateError),
                ),
            },
            PackStage::AnnouncingDone => (
                package,
                PackStage::Finished(Outcome::Succeeded),
                Action::Finish(Outcome::Succeeded),
            ),
            PackStage::Finished(o) => {
                let a = Action::Finish(o.duplicate());
                (package, PackStage::Finished(o), a)
            },
        };
        (PackTask { path, template, package, stage }, action)
    }
}

/// The position of a stage in the packing sequence.
pub open spec fn pack_rank(stage: PackStage) -> nat {
    match stage {
        PackStage::ReadingManifest => 0,
        PackStage::AnnouncingZig => 1,
        PackStage::ProbingZig => 2,
        PackStage::AnnouncingZigbuild => 3,
        PackStage::ProbingZigbuild => 4,
        PackStage::AnnouncingInstall => 5,
        PackStage::InstallingZigbuild => 6,
        PackStage::CheckingTarget => 7,
        PackStage::ClearingTarget => 8,
        PackStage::CreatingTarget => 9,
        PackStage::AnnouncingExtract => 10,
        PackStage::Extracting => 11,
        PackStage::ReadingCurrentDir => 12,
        PackStage::WritingWorkspace => 13,
        PackStage::AnnouncingBuild => 14,
        PackStage::Building => 15,
        PackStage::AnnouncingCopy => 16,
        PackStage::Copying => 17,
        PackStage::AnnouncingZip => 18,
        PackStage::Zipping => 19,
        PackStage::AnnouncingDone => 20,
        PackStage::Finished(_) => 21,
    }
}

/// Packing only moves forward: every step leads to a later stage or ends
/// the task, an ended task stays ended with the same outcome, and the
/// action asked for after an end is always that end.
pub proof fn packing_moves_forward(old: PackTask, event: Event, new: PackTask, a: Action)
    requires
        pack_step(old, event, new, a),
    ensures
        old.stage is Finished ==> new.stage == old.stage && a == Action::Finish(old.stage->Finished_0),
        !(old.stage is Finished) ==> pack_rank(new.stage) > pack_rank(old.stage),
        new.stage is Finished <==> a is Finish,
{
    if old.stage is ReadingManifest {
        if let Event::FileRead(Some(text)) = event {
            let l = choose|l: ManifestLookup| #[trigger] lookup_of(text@, l) && after_manifest(old, l, new, a);
        }
    } else if old.stage is Extracting {
        if event is Completed {
            let e = choose|e: TemplateEdit|
                #[trigger] template_edit_of(old.template@, None, e) && after_extract(e, new, a);
        }
    } else if old.stage is ReadingCurrentDir {
        if let Event::CurrentDir(cwd) = event {
            let e = choose|e: TemplateEdit|
                #[trigger] template_edit_of(
                    old.template@,
                    Some((joined_path(cwd@, old.path@), old.package@)),
                    e,
                ) && after_current_dir(e, new, a);
        }
    }
}

/// A program that fails to build or to install ends the packing with that
/// failure, and an action whose I/O fails ends it with the I/O error.
pub proof fn failures_end_packing(old: PackTask, event: Event, new: PackTask, a: Action)
    requires
        pack_step(old, event, new, a),
        old.stage is InstallingZigbuild || old.stage is Building || old.stage is ClearingTarget
            || old.stage is CreatingTarget || old.stage is WritingWorkspace || old.stage is Copying
            || old.stage is Zipping,
        event is IoFailed || event == Event::Exited(false),
    ensures
        new.stage is Finished,
        event is IoFailed ==> new.stage == PackStage::Finished(Outcome::PropagateError),
{
}

/// The workspace manifest that packing writes once it knows the current
/// directory is the template's document with the `pages` dependency's
/// `path` set to the current directory joined with the project path and
/// its `package` set to the package name read from the project, and with
/// everything else of the template kept.
pub proof fn packing_writes_the_pages_dependency(old: PackTask, cwd: String, new: PackTask, a: Action)
    requires
        old.stage is ReadingCurrentDir,
        pack_step(old, Event::CurrentDir(cwd), new, a),
        new.stage is WritingWorkspace,
    ensures
        a matches Action::WriteFile { path, contents } && path@ == "./target/pages/Cargo.toml"@
            && exists|d: toml_edit::DocumentMut|
            toml_rendering(d) == contents@ && {
                let e = #[trigger] toml_tree(d);
                let t = parsed_toml(old.template@)->0;
                &&& parsed_toml(old.template@) is Some
                &&& e.contains_key(pages_key_path().push("path"@))
                &&& e[pages_key_path().push("path"@)] == TomlNode::Text(joined_path(cwd@, old.path@))
                &&& e.contains_key(pages_key_path().push("package"@))
                &&& e[pages_key_path().push("package"@)] == TomlNode::Text(old.package@)
                &&& forall|p: Seq<Seq<char>>| outside_pages_edit(p) ==> #[trigger] same_at(e, t, p)
            },
{
    let values = Some((joined_path(cwd@, old.path@), old.package@));
    let e = choose|e: TemplateEdit|
        #[trigger] template_edit_of(old.template@, values, e) && after_current_dir(e, new, a);
    let t = parsed_toml(old.template@)->0;
    let edited = crate::manifest::pages_entry_edit(t, values)->0;
    let text = e->Edited_0;
    let d = choose|d: toml_edit::DocumentMut| toml_rendering(d) == text@ && #[trigger] toml_tree(d) == edited;
    pages_edit_sets_and_keeps(t, joined_path(cwd@, old.path@), old.package@);
}

/// Packing works on the build directory `./target/pages` and no other:
/// the step that moves to checking it asks whether `./target/pages`
/// exists; it is removed only right after that check reported that it
/// exists; it is then (re)created, and the embedded tree is extracted
/// into it.
pub proof fn build_directory_is_target_pages(old: PackTask, event: Event, new: PackTask, a: Action)
    requires
        pack_step(old, event, new, a),
        !(old.stage is Finished),
    ensures
        new.stage is CheckingTarget ==> (a matches Action::CheckExists(p) && p@ == "./target/pages"@),
        new.stage is ClearingTarget ==> old.stage is CheckingTarget && event == Event::Exists(true) && (
        a matches Action::RemoveDirAll(p) && p@ == "./target/pages"@),
        new.stage is CreatingTarget ==> (a matches Action::CreateDirAll(p) && p@ == "./target/pages"@)
            && ((old.stage is CheckingTarget && event != Event::Exists(true)) || (old.stage is ClearingTarget
            && event == Event::Completed)),
        new.stage is Extracting ==> (a matches Action::ExtractPages(p) && p@ == "./target/pages"@),
{
    if old.stage is ReadingManifest {
        if let Event::FileRead(Some(text)) = event {
            let l = choose|l: ManifestLookup| #[trigger] lookup_of(text@, l) && after_manifest(old, l, new, a);
        }
    } else if old.stage is Extracting {
        if event is Completed {
            let e = choose|e: TemplateEdit|
                #[trigger] template_edit_of(old.template@, None, e) && after_extract(e, new, a);
        }
    } else if old.stage is ReadingCurrentDir {
        if let Event::CurrentDir(cwd) = event {
            let e = choose|e: TemplateEdit|
                #[trigger] template_edit_of(
                    old.template@,
                    Some((joined_path(cwd@, old.path@), old.package@)),
                    e,
                ) && after_current_dir(e, new, a);
        }
    }
}

/// The build artefacts: the workspace manifest is written to
/// `./target/pages/Cargo.toml`; the add-on is built by `cargo zigbuild`
/// from that manifest for `x86_64-unknown-linux-gnu.2.17` in release mode;
/// the built `libnodejs_stream.so` is copied to `pages.node` in the
/// `edgeone/nodejs-stream` directory, which is packed into
/// `./target/pages/edgeone.zip`; and packing succeeds only as the last
/// step, after announcing that archive.
pub proof fn packing_builds_copies_and_zips(old: PackTask, event: Event, new: PackTask, a: Action)
    requires
        pack_step(old, event, new, a),
        !(old.stage is Finished),
    ensures
        new.stage is WritingWorkspace ==> (a matches Action::WriteFile { path, .. } && path@
            == "./target/pages/Cargo.toml"@),
        new.stage is Building ==> (a matches Action::Run(c) && c.program@ == "cargo"@ && c.cwd is None
            && c.args@.len() == 7 && c.args@[0]@ == "zigbuild"@ && c.args@[1]@ == "--release"@
            && c.args@[2]@ == "--lib"@ && c.args@[3]@ == "--manifest-path"@ && c.args@[4]@
            == "./target/pages/Cargo.toml"@ && c.args@[5]@ == "--target"@ && c.args@[6]@
            == "x86_64-unknown-linux-gnu.2.17"@),
        new.stage is Copying ==> (a matches Action::CopyFile { from, to } && from@
            == "./target/pages/target/x86_64-unknown-linux-gnu/release/libnodejs_stream.so"@ && to@
            == "./target/pages/edgeone/nodejs-stream/pages.node"@),
        new.stage is Zipping ==> (a matches Action::ZipDirectory { source, archive } && source@
            == "./target/pages/edgeone/nodejs-stream"@ && archive@ == "./target/pages/edgeone.zip"@),
        new.stage == PackStage::Finished(Outcome::Succeeded) ==> old.stage is AnnouncingDone,
{
    if old.stage is ReadingManifest {
        if let Event::FileRead(Some(text)) = event {
            let l = choose|l: ManifestLookup| #[trigger] lookup_of(text@, l) && after_manifest(old, l, new, a);
        }
    } else if old.stage is Extracting {
        if event is Completed {
            let e = choose|e: TemplateEdit|
                #[trigger] template_edit_of(old.template@, None, e) && after_extract(e, new, a);
        }
    } else if old.stage is ReadingCurrentDir {
        if let Event::CurrentDir(cwd) = event {
            let e = choose|e: TemplateEdit|
                #[trigger] template_edit_of(
                    old.template@,
                    Some((joined_path(cwd@, old.path@), old.package@)),
                    e,
                ) && after_current_dir(e, new, a);
        }
    } else if old.stage is AnnouncingBuild {
        let c = a->Run_0;
        assert(crate::task::strings_view(c.args@) == build_args());
        assert(c.args@.len() == 7);
        assert(c.args@[0]@ == build_args()[0]);
        assert(c.args@[1]@ == build_args()[1]);
        assert(c.args@[2]@ == build_args()[2]);
        assert(c.args@[3]@ == build_args()[3]);
        assert(c.args@[4]@ == build_args()[4]);
        assert(c.args@[5]@ == build_args()[5]);
        assert(c.args@[6]@ == build_args()[6]);
    }
}

/// The tool checks: packing probes `zig version`, then
/// `cargo-zigbuild --version`, installs the latter with
/// `cargo install cargo-zigbuild` only when that probe failed, and reaches
/// the build directory only once one of them reported success. The package
/// name it carries on is the string at `package.name` of the project's
/// manifest.
pub proof fn packing_checks_tools_and_reads_the_name(old: PackTask, event: Event, new: PackTask, a: Action)
    requires
        pack_step(old, event, new, a),
        !(old.stage is Finished),
    ensures
        new.stage is ProbingZig ==> (a matches Action::Probe(c) && c.program@ == "zig"@ && c.args@.len() == 1
            && c.args@[0]@ == "version"@),
        new.stage is ProbingZigbuild ==> (a matches Action::Probe(c) && c.program@ == "cargo-zigbuild"@
            && c.args@.len() == 1 && c.args@[0]@ == "--version"@),
        new.stage is InstallingZigbuild ==> (a matches Action::Run(c) && c.program@ == "cargo"@
            && c.args@.len() == 2 && c.args@[0]@ == "install"@ && c.args@[1]@ == "cargo-zigbuild"@),
        new.stage is AnnouncingInstall ==> old.stage is ProbingZigbuild && event != Event::Exited(true),
        new.stage is CheckingTarget ==> (old.stage is ProbingZigbuild || old.stage is InstallingZigbuild)
            && event == Event::Exited(true),
        old.stage is ReadingManifest ==> (event matches Event::FileRead(Some(text)) ==> (parsed_toml(
            text@,
        ) matches Some(t) ==> ((t.contains_key(Seq::empty()) && t[Seq::empty()] is Table && t.contains_key(
            seq!["package"@],
        ) && t[seq!["package"@]] is Table && t.contains_key(seq!["package"@, "name"@]) && t[seq![
            "package"@,
            "name"@,
        ]] is Text) ==> (new.package@ == t[seq!["package"@, "name"@]]->Text_0 && new.stage is AnnouncingZig)))),
{
    if old.stage is ReadingManifest {
        if let Event::FileRead(Some(text)) = event {
            let l = choose|l: ManifestLookup| #[trigger] lookup_of(text@, l) && after_manifest(old, l, new, a);
            if let Some(t) = parsed_toml(text@) {
                crate::manifest::package_name_is_the_package_tables_name(text@, t, l);
            }
        }
    } else if old.stage is Extracting {
        if event is Completed {
            let e = choose|e: TemplateEdit|
                #[trigger] template_edit_of(old.template@, None, e) && after_extract(e, new, a);
        }
    } else if old.stage is ReadingCurrentDir {
        if let Event::CurrentDir(cwd) = event {
            let e = choose|e: TemplateEdit|
                #[trigger] template_edit_of(
                    old.template@,
                    Some((joined_path(cwd@, old.path@), old.package@)),
                    e,
                ) && after_current_dir(e, new, a);
        }
    } else if old.stage is AnnouncingZig {
        let c = a->Probe_0;
        assert(crate::task::strings_view(c.args@) == seq!["version"@]);
        assert(crate::task::strings_view(c.args@).len() == c.args@.len());
        assert(c.args@[0]@ == crate::task::strings_view(c.args@)[0]);
    } else if old.stage is AnnouncingZigbuild {
        let c = a->Probe_0;
        assert(crate::task::strings_view(c.args@) == seq!["--version"@]);
        assert(crate::task::strings_view(c.args@).len() == c.args@.len());
        assert(c.args@[0]@ == crate::task::strings_view(c.args@)[0]);
    } else if old.stage is AnnouncingInstall {
        let c = a->Run_0;
        assert(crate::task::strings_view(c.args@) == seq!["install"@, "cargo-zigbuild"@]);
        assert(crate::task::strings_view(c.args@).len() == c.args@.len());
        assert(c.args@[0]@ == crate::task::strings_view(c.args@)[0]);
        assert(c.args@[1]@ == crate::task::strings_view(c.args@)[1]);
    }
}

} // verus!
