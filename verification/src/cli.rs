//! The command line of the packer.
use vstd::prelude::*;

use crate::text::join_text;

verus! {

/// The subcommands.
#[derive(Clone, Debug)]
pub enum Cli {
    /// Create a new project at `path`; `args` are passed on to `cargo new`.
    New { path: String, args: Vec<String> },
    /// Pack the project at `path`.
    Pack { path: String },
}

/// The line reported on standard error when a subcommand fails.
pub open spec fn failure_line(cli: Cli, error: Seq<char>) -> Seq<char> {
    match cli {
        Cli::New { .. } => "❌ 创建项目失败: "@ + error,
        Cli::Pack { .. } => "❌ 打包失败: "@ + error,
    }
}

impl Cli {
    /// The line to report when the subcommand failed with `error`; the
    /// program then exits with status 1.
    pub fn failure_message(&self, error: &str) -> (res: String)
        ensures
            res@ == failure_line(*self, error@),
    {
        match self {
            Cli::New { .. } => join_text("❌ 创建项目失败: ", error),
            Cli::Pack { .. } => join_text("❌ 打包失败: ", error),
        }
    }
}

/// The exit status after a failed subcommand.
pub const FAILURE_STATUS: i32 = 1;

/// The failure line of a subcommand is its fixed prefix followed by the
/// error text, unchanged.
pub proof fn failure_line_ends_with_the_error(cli: Cli, error: Seq<char>)
    ensures
        cli is New ==> failure_line(cli, error) == "❌ 创建项目失败: "@ + error,
        cli is Pack ==> failure_line(cli, error) == "❌ 打包失败: "@ + error,
        failure_line(cli, error).subrange(failure_line(cli, error).len() - error.len(), failure_line(
            cli,
            error,
        ).len() as int) == error,
{
    let l = failure_line(cli, error);
    match cli {
        Cli::New { .. } => {
            assert(l.subrange(l.len() - error.len(), l.len() as int) =~= error);
        },
        Cli::Pack { .. } => {
            assert(l.subrange(l.len() - error.len(), l.len() as int) =~= error);
        },
    }
}

} // verus!
