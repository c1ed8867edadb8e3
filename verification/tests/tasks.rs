use pages_rs::archive::{archive_entry, entry_for, ArchiveEntry, ArchiveError, ENTRY_PERMISSIONS};
use pages_rs::cli::{Cli, FAILURE_STATUS};
use pages_rs::manifest::{check_template, package_name, workspace_manifest, ManifestLookup, TemplateEdit};
use pages_rs::new_project::{NewStage, NewTask};
use pages_rs::pack::{PackStage, PackTask};
use pages_rs::task::{Action, CommandSpec, Event, FailureKind, Outcome};

const TEMPLATE: &str = "[workspace]\nmembers = [\"crates/*\"]\n\n[workspace.dependencies]\npages = { path = \"../placeholder\" }\n";

fn command_words(c: &CommandSpec) -> (String, Vec<String>, Option<String>) {
    (c.program.clone(), c.args.clone(), c.cwd.clone())
}

fn words(ws: &[&str]) -> Vec<String> {
    ws.iter().map(|w| w.to_string()).collect()
}

#[test]
fn package_name_reads_the_manifest() {
    let lookup = package_name("[package]\nname = \"demo\"\nversion = \"0.1.0\"\n");
    assert!(matches!(lookup, ManifestLookup::Name(n) if n == "demo"));
    assert!(matches!(package_name("package = { name = \"inline\" }"), ManifestLookup::Name(n) if n == "inline"));
    assert!(matches!(package_name("[dependencies]\n"), ManifestLookup::MissingKey));
    assert!(matches!(package_name("[package]\nversion = \"1\"\n"), ManifestLookup::MissingKey));
    assert!(matches!(package_name("package = 3\n"), ManifestLookup::MissingKey));
    assert!(matches!(package_name("[package]\nname = 7\n"), ManifestLookup::NotText));
    assert!(matches!(package_name("[package\nname ="), ManifestLookup::Unparsable(_)));
}

#[test]
fn workspace_manifest_sets_the_pages_dependency() {
    match workspace_manifest(TEMPLATE, "/home/u/demo", "demo") {
        TemplateEdit::Edited(text) => {
            let doc: toml_edit::DocumentMut = text.parse().unwrap();
            let pages = &doc["workspace"]["dependencies"]["pages"];
            assert_eq!(pages["path"].as_str(), Some("/home/u/demo"));
            assert_eq!(pages["package"].as_str(), Some("demo"));
            assert!(text.contains("members"));
        }
        _ => panic!("the template should be edited"),
    }
    match workspace_manifest("", "/p", "x") {
        TemplateEdit::Edited(text) => {
            let doc: toml_edit::DocumentMut = text.parse().unwrap();
            assert_eq!(doc["workspace"]["dependencies"]["pages"]["package"].as_str(), Some("x"));
        }
        _ => panic!("missing tables are created"),
    }
    assert!(matches!(workspace_manifest("workspace = 1\n", "/p", "x"), TemplateEdit::MissingKey));
    assert!(matches!(workspace_manifest("[[[", "/p", "x"), TemplateEdit::Unparsable(_)));
    assert!(matches!(check_template(TEMPLATE), TemplateEdit::Edited(_)));
    assert!(matches!(check_template("[[["), TemplateEdit::Unparsable(_)));
}

#[test]
fn workspace_manifest_keeps_the_rest_of_the_template() {
    let template = "[workspace]\nmembers = [\"crates/*\"]\n\n[workspace.dependencies]\nserde = \"1\"\npages = { path = \"../old\", version = \"0.1\" }\n";
    match workspace_manifest(template, "/w/app", "app") {
        TemplateEdit::Edited(text) => {
            let doc: toml_edit::DocumentMut = text.parse().unwrap();
            assert_eq!(doc["workspace"]["dependencies"]["serde"].as_str(), Some("1"));
            assert_eq!(doc["workspace"]["dependencies"]["pages"]["version"].as_str(), Some("0.1"));
            assert_eq!(doc["workspace"]["dependencies"]["pages"]["path"].as_str(), Some("/w/app"));
            assert_eq!(doc["workspace"]["dependencies"]["pages"]["package"].as_str(), Some("app"));
            assert_eq!(doc["workspace"]["members"][0].as_str(), Some("crates/*"));
        }
        _ => panic!("the template should be edited"),
    }
}

#[test]
fn workspace_manifest_refuses_a_pages_entry_that_is_no_table() {
    let template = "[workspace.dependencies]\npages = \"1.0\"\n";
    assert!(matches!(check_template(template), TemplateEdit::Edited(_)));
    assert!(matches!(workspace_manifest(template, "/p", "x"), TemplateEdit::MissingKey));
    assert!(matches!(check_template("[workspace]\ndependencies = 2\n"), TemplateEdit::MissingKey));
    match check_template("a = ") {
        TemplateEdit::Unparsable(m) => assert!(m.starts_with("TomlError"), "{}", m),
        _ => panic!("the template should not parse"),
    }
}

fn expect_print(a: &Action, msg: &str) {
    assert!(matches!(a, Action::Print(m) if m == msg), "expected print {:?}, got {:?}", msg, a);
}

#[test]
fn pack_refuses_other_systems() {
    let (task, action) = PackTask::start(".".to_string(), "macos", TEMPLATE.to_string());
    match action {
        Action::Finish(Outcome::Failed(e)) => {
            assert_eq!(e.kind, FailureKind::Unsupported);
            assert_eq!(e.message, "当前系统为「macos」，本命令仅支持在 Linux 系统下运行构建");
        }
        other => panic!("unexpected {:?}", other),
    }
    assert!(matches!(task.stage, PackStage::Finished(_)));
}

#[test]
fn pack_reports_a_missing_manifest() {
    let (task, action) = PackTask::start("demo".to_string(), "linux", TEMPLATE.to_string());
    assert!(matches!(&action, Action::ReadFile(f) if f == "demo/Cargo.toml"));
    let (_, action) = task.step(Event::FileRead(None));
    match action {
        Action::Finish(Outcome::Failed(e)) => {
            assert_eq!(e.kind, FailureKind::NotFound);
            assert_eq!(e.message, "未找到 Cargo.toml 文件，请确保在 demo 目录下运行");
        }
        other => panic!("unexpected {:?}", other),
    }
}

#[test]
fn pack_reports_manifest_problems() {
    let (task, _) = PackTask::start(".".to_string(), "linux", TEMPLATE.to_string());
    let (_, action) = task.clone().step(Event::FileRead(Some("[package]\nname = 1\n".to_string())));
    assert!(matches!(&action, Action::Finish(Outcome::Failed(e)) if e.kind == FailureKind::Other && e.message == "Cargo.toml 文件中未找到 package.name 字段"));
    let (_, action) = task.clone().step(Event::FileRead(Some("[lib]\n".to_string())));
    assert!(matches!(&action, Action::Finish(Outcome::Abort(m)) if m == "index not found"));
    let (_, action) = task.step(Event::FileRead(Some("[package".to_string())));
    assert!(matches!(&action, Action::Finish(Outcome::Failed(e)) if e.kind == FailureKind::Other && e.message.starts_with("Cargo.toml 文件解析失败: ")));
}

#[test]
fn pack_runs_the_whole_build() {
    let (task, action) = PackTask::start("demo".to_string(), "linux", TEMPLATE.to_string());
    assert!(matches!(&action, Action::ReadFile(f) if f == "demo/Cargo.toml"));
    let (task, action) = task.step(Event::FileRead(Some("[package]\nname = \"demo\"\n".to_string())));
    expect_print(&action, "🔍 检查 Zig 环境...");
    assert_eq!(task.package, "demo");
    let (task, action) = task.step(Event::Completed);
    assert!(matches!(&action, Action::Probe(c) if command_words(c) == ("zig".to_string(), words(&["version"]), None)));
    let (task, action) = task.step(Event::Exited(true));
    expect_print(&action, "🔍 检查 cargo-zigbuild 工具...");
    let (task, action) = task.step(Event::Completed);
    assert!(matches!(&action, Action::Probe(c) if command_words(c) == ("cargo-zigbuild".to_string(), words(&["--version"]), None)));
    let (task, action) = task.step(Event::Exited(false));
    expect_print(&action, "🛠️ 未检测到 cargo-zigbuild，正在通过 cargo install 安装...");
    let (task, action) = task.step(Event::Completed);
    assert!(matches!(&action, Action::Run(c) if command_words(c) == ("cargo".to_string(), words(&["install", "cargo-zigbuild"]), None)));
    let (task, action) = task.step(Event::Exited(true));
    assert!(matches!(&action, Action::CheckExists(d) if d == "./target/pages"));
    let (task, action) = task.step(Event::Exists(true));
    assert!(matches!(&action, Action::RemoveDirAll(d) if d == "./target/pages"));
    let (task, action) = task.step(Event::Completed);
    assert!(matches!(&action, Action::CreateDirAll(d) if d == "./target/pages"));
    let (task, action) = task.step(Event::Completed);
    expect_print(&action, "📂 正在释放内置核心 pages 模块到构建目录...");
    let (task, action) = task.step(Event::Completed);
    assert!(matches!(&action, Action::ExtractPages(d) if d == "./target/pages"));
    let (task, action) = task.step(Event::Completed);
    assert!(matches!(&action, Action::ReadCurrentDir));
    let (task, action) = task.step(Event::CurrentDir("/home/u".to_string()));
    match &action {
        Action::WriteFile { path, contents } => {
            assert_eq!(path, "./target/pages/Cargo.toml");
            let doc: toml_edit::DocumentMut = contents.parse().unwrap();
            assert_eq!(doc["workspace"]["dependencies"]["pages"]["path"].as_str(), Some("/home/u/demo"));
            assert_eq!(doc["workspace"]["dependencies"]["pages"]["package"].as_str(), Some("demo"));
            assert_eq!(doc["workspace"]["members"][0].as_str(), Some("crates/*"));
        }
        other => panic!("unexpected {:?}", other),
    }
    let (task, action) = task.step(Event::Completed);
    expect_print(&action, "🏗️ 正在使用 zigbuild 进行 x86_64 跨平台 Linux 编译...");
    let (task, action) = task.step(Event::Completed);
    assert!(matches!(&action, Action::Run(c) if command_words(c) == ("cargo".to_string(), words(&["zigbuild", "--release", "--lib", "--manifest-path", "./target/pages/Cargo.toml", "--target", "x86_64-unknown-linux-gnu.2.17"]), None)));
    let (task, action) = task.step(Event::Exited(true));
    expect_print(&action, "🚚 正在同步动态库 (.so) 扩展至目标分发目录...");
    let (task, action) = task.step(Event::Completed);
    assert!(matches!(&action, Action::CopyFile { from, to } if from == "./target/pages/target/x86_64-unknown-linux-gnu/release/libnodejs_stream.so" && to == "./target/pages/edgeone/nodejs-stream/pages.node"));
    let (task, action) = task.step(Event::Completed);
    expect_print(&action, "🗜️ 正在将生产制品打包为密闭 ZIP 归档: \"./target/pages/edgeone.zip\"");
    let (task, action) = task.step(Event::Completed);
    assert!(matches!(&action, Action::ZipDirectory { source, archive } if source == "./target/pages/edgeone/nodejs-stream" && archive == "./target/pages/edgeone.zip"));
    let (task, action) = task.step(Event::Completed);
    expect_print(&action, "🎉 完美的自动化构建完成！制品已生成：\"./target/pages/edgeone.zip\"");
    let (task, action) = task.step(Event::Completed);
    assert!(matches!(action, Action::Finish(Outcome::Succeeded)));
    let (_, action) = task.step(Event::Completed);
    assert!(matches!(action, Action::Finish(Outcome::Succeeded)));
}

#[test]
fn pack_stops_when_tools_are_missing_or_fail() {
    let start = || {
        let (task, _) = PackTask::start(".".to_string(), "linux", TEMPLATE.to_string());
        let (task, _) = task.step(Event::FileRead(Some("[package]\nname = \"demo\"\n".to_string())));
        task.step(Event::Completed).0
    };
    let (_, action) = start().step(Event::Exited(false));
    assert!(matches!(&action, Action::Finish(Outcome::Failed(e)) if e.kind == FailureKind::NotFound && e.message == "未检测到 zig 构建环境。请先安装 Zig (https://ziglang.org/ download/)"));
    let (task, _) = start().step(Event::Exited(true));
    let (task, _) = task.step(Event::Completed);
    let (task, _) = task.step(Event::Exited(false));
    let (task, _) = task.step(Event::Completed);
    let (_, action) = task.clone().step(Event::Exited(false));
    assert!(matches!(&action, Action::Finish(Outcome::Failed(e)) if e.kind == FailureKind::Other && e.message == "自动安装 cargo-zigbuild 失败，请手动安装"));
    let (_, action) = task.step(Event::IoFailed);
    assert!(matches!(action, Action::Finish(Outcome::PropagateError)));
}

#[test]
fn pack_propagates_io_failures_and_aborts_on_a_bad_template() {
    let (task, _) = PackTask::start(".".to_string(), "linux", "[[[".to_string());
    let (task, _) = task.step(Event::FileRead(Some("[package]\nname = \"demo\"\n".to_string())));
    let (task, _) = task.step(Event::Completed);
    let (task, _) = task.step(Event::Exited(true));
    let (task, _) = task.step(Event::Completed);
    let (task, action) = task.step(Event::Exited(true));
    assert!(matches!(action, Action::CheckExists(_)));
    let (task, action) = task.step(Event::Exists(false));
    assert!(matches!(&action, Action::CreateDirAll(d) if d == "./target/pages"));
    let (_, action) = task.clone().step(Event::IoFailed);
    assert!(matches!(action, Action::Finish(Outcome::PropagateError)));
    let (task, _) = task.step(Event::Completed);
    let (task, _) = task.step(Event::Completed);
    let (_, action) = task.step(Event::Completed);
    assert!(matches!(&action, Action::Finish(Outcome::Abort(m)) if m.starts_with("called `Result::unwrap()` on an `Err` value: ")));
}

#[test]
fn new_creates_the_project_step_by_step() {
    let (task, action) = NewTask::start("demo".to_string(), words(&["--vcs", "none"]));
    expect_print(&action, "🚀 正在调用原始构建工具创建项目...");
    let (task, action) = task.step(Event::Completed);
    assert!(matches!(&action, Action::Run(c) if command_words(c) == ("cargo".to_string(), words(&["new", "demo", "--vcs", "none"]), None)));
    let (task, action) = task.step(Event::Exited(true));
    expect_print(&action, "📦 正在自动添加 pages-rs 依赖项...");
    let (task, action) = task.step(Event::Completed);
    assert!(matches!(&action, Action::Run(c) if command_words(c) == ("cargo".to_string(), words(&["add", "pages-rs"]), Some("demo".to_string()))));
    let (task, action) = task.step(Event::Exited(true));
    expect_print(&action, "📝 正在注入自定义 main.rs 和 lib.rs 模板...");
    let (task, action) = task.step(Event::Completed);
    assert!(matches!(&action, Action::CreateDirAll(d) if d == "demo/src"));
    let (task, action) = task.step(Event::Completed);
    expect_print(&action, "✨ 项目初始化成功！");
    let (task, action) = task.step(Event::Completed);
    assert!(matches!(action, Action::Finish(Outcome::Succeeded)));
    assert!(matches!(task.stage, NewStage::Finished(Outcome::Succeeded)));
}

#[test]
fn new_reports_failed_commands() {
    let (task, _) = NewTask::start("demo".to_string(), Vec::new());
    let (task, _) = task.step(Event::Completed);
    let (_, action) = task.clone().step(Event::Exited(false));
    assert!(matches!(&action, Action::Finish(Outcome::Failed(e)) if e.kind == FailureKind::Other && e.message == "底层项目创建指令执行失败"));
    let (_, action) = task.clone().step(Event::IoFailed);
    assert!(matches!(action, Action::Finish(Outcome::PropagateError)));
    let (task, _) = task.step(Event::Exited(true));
    let (task, _) = task.step(Event::Completed);
    let (_, action) = task.step(Event::Exited(false));
    assert!(matches!(&action, Action::Finish(Outcome::Failed(e)) if e.message == "添加 pages-rs 依赖失败"));
}

#[test]
fn archive_entries_are_named_relative_to_the_source() {
    let src = "./target/pages/edgeone/nodejs-stream";
    assert!(matches!(archive_entry("./target/pages/edgeone/nodejs-stream/pages.node", src, true), Ok(ArchiveEntry::File(n)) if n == "pages.node"));
    assert!(matches!(archive_entry("./target/pages/edgeone/nodejs-stream/lib", src, false), Ok(ArchiveEntry::Directory(n)) if n == "lib"));
    assert!(matches!(archive_entry("./target/pages/edgeone/nodejs-stream/lib/a.js", src, true), Ok(ArchiveEntry::File(n)) if n == "lib/a.js"));
    assert!(matches!(archive_entry(src, src, false), Ok(ArchiveEntry::Skip)));
    assert_eq!(archive_entry("/elsewhere/x", src, true).unwrap_err(), ArchiveError::OutsideSource);
    assert_eq!(ENTRY_PERMISSIONS, 0o755);
}

#[test]
fn failure_messages_name_the_subcommand() {
    let new = Cli::New { path: "demo".to_string(), args: Vec::new() };
    let pack = Cli::Pack { path: ".".to_string() };
    assert_eq!(new.failure_message("boom"), "❌ 创建项目失败: boom");
    assert_eq!(pack.failure_message("boom"), "❌ 打包失败: boom");
    assert_eq!(FAILURE_STATUS, 1);
}

#[test]
fn entry_for_places_walk_entries() {
    assert!(matches!(entry_for(Some("a.js".to_string()), true), Ok(ArchiveEntry::File(n)) if n == "a.js"));
    assert!(matches!(entry_for(Some("lib".to_string()), false), Ok(ArchiveEntry::Directory(n)) if n == "lib"));
    assert!(matches!(entry_for(Some(String::new()), false), Ok(ArchiveEntry::Skip)));
    assert!(matches!(entry_for(Some(String::new()), true), Ok(ArchiveEntry::File(n)) if n.is_empty()));
    assert_eq!(entry_for(None, false).unwrap_err(), ArchiveError::OutsideSource);
}

#[test]
fn pack_continues_from_each_lookup() {
    let (task, _) = PackTask::start("p".to_string(), "linux", TEMPLATE.to_string());
    let (t, a) = task.clone().on_manifest(ManifestLookup::Name("app".to_string()));
    assert_eq!(t.package, "app");
    assert!(matches!(t.stage, PackStage::AnnouncingZig));
    expect_print(&a, "🔍 检查 Zig 环境...");
    let (_, a) = task.clone().on_manifest(ManifestLookup::Unparsable("bad".to_string()));
    assert!(matches!(&a, Action::Finish(Outcome::Failed(e)) if e.message == "Cargo.toml 文件解析失败: bad"));
    let (_, a) = task.clone().on_manifest(ManifestLookup::MissingKey);
    assert!(matches!(&a, Action::Finish(Outcome::Abort(m)) if m == "index not found"));
    let (_, a) = task.on_manifest(ManifestLookup::NotText);
    assert!(matches!(&a, Action::Finish(Outcome::Failed(e)) if e.kind == FailureKind::Other));

    let extracting = PackTask { path: "p".to_string(), template: TEMPLATE.to_string(), package: "app".to_string(), stage: PackStage::Extracting };
    let (_, a) = extracting.clone().on_template(TemplateEdit::Edited(String::new()));
    assert!(matches!(a, Action::ReadCurrentDir));
    let (_, a) = extracting.clone().on_template(TemplateEdit::Unparsable("e".to_string()));
    assert!(matches!(&a, Action::Finish(Outcome::Abort(m)) if m == "called `Result::unwrap()` on an `Err` value: e"));
    let (_, a) = extracting.on_template(TemplateEdit::MissingKey);
    assert!(matches!(&a, Action::Finish(Outcome::Abort(m)) if m == "index not found"));

    let reading = PackTask { path: "p".to_string(), template: TEMPLATE.to_string(), package: "app".to_string(), stage: PackStage::ReadingCurrentDir };
    let (t, a) = reading.clone().on_workspace(TemplateEdit::Edited("x = 1\n".to_string()));
    assert!(matches!(t.stage, PackStage::WritingWorkspace));
    assert!(matches!(&a, Action::WriteFile { path, contents } if path == "./target/pages/Cargo.toml" && contents == "x = 1\n"));
    let (_, a) = reading.on_workspace(TemplateEdit::MissingKey);
    assert!(matches!(&a, Action::Finish(Outcome::Abort(_))));
}
