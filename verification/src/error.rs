//! The failures that the engine and the adapters report.

use vstd::prelude::*;
use crate::text::{push_decimal, push_str, signed_decimal, string_of};

verus! {

/// A failure of a manager, of the cache or of the engine.
#[derive(Debug)]
pub enum BoxyError {
    ManagerNotFound { name: String },
    ManagerUnavailable { name: String, reason: String },
    PackageNotFound { manager: String, package: String },
    CommandFailed { manager: String, command: String, exit_code: i32 },
    CommandInterrupted,
    CommandTimeout,
    ParseError { input: String },
    JsonError { message: String },
    CacheError { message: String },
    Io { message: String },
    NetworkError { message: String },
    DependencyConflict { message: String },
    UnsupportedOperation { manager: String, operation: String },
}

impl BoxyError {
    /// The text shown for this failure.
    pub open spec fn description(self) -> Seq<char> {
        match self {
            BoxyError::ManagerNotFound { name } => "包管理器未找到: "@ + name@,
            BoxyError::ManagerUnavailable { name, reason } => "包管理器不可用: "@ + name@
                + ", 原因: "@ + reason@,
            BoxyError::PackageNotFound { manager, package } => "包未找到: "@ + manager@ + "/"@
                + package@,
            BoxyError::CommandFailed { manager, command, exit_code } => "命令执行失败: "@
                + manager@ + " '"@ + command@ + "' (退出码: "@ + signed_decimal(exit_code as int)
                + ")"@,
            BoxyError::CommandInterrupted => "命令被中断"@,
            BoxyError::CommandTimeout => "命令超时"@,
            BoxyError::ParseError { input } => "解析失败: "@ + input@,
            BoxyError::JsonError { message } => "JSON解析失败: "@ + message@,
            BoxyError::CacheError { message } => "缓存错误: "@ + message@,
            BoxyError::Io { message } => "IO错误"@,
            BoxyError::NetworkError { message } => "网络错误: "@ + message@,
            BoxyError::DependencyConflict { message } => "依赖冲突: "@ + message@,
            BoxyError::UnsupportedOperation { manager, operation } => "不支持的操作: "@
                + manager@ + " "@ + operation@,
        }
    }

    /// The text shown for this failure.
    pub fn message(&self) -> (r: String)
        ensures
            r@ == self.description(),
    {
        let mut out: Vec<char> = Vec::new();
        match self {
            BoxyError::ManagerNotFound { name } => {
                push_str(&mut out, "包管理器未找到: ");
                push_str(&mut out, name.as_str());
            },
            BoxyError::ManagerUnavailable { name, reason } => {
                push_str(&mut out, "包管理器不可用: ");
                push_str(&mut out, name.as_str());
                push_str(&mut out, ", 原因: ");
                push_str(&mut out, reason.as_str());
            },
            BoxyError::PackageNotFound { manager, package } => {
                push_str(&mut out, "包未找到: ");
                push_str(&mut out, manager.as_str());
                push_str(&mut out, "/");
                push_str(&mut out, package.as_str());
            },
            BoxyError::CommandFailed { manager, command, exit_code } => {
                push_str(&mut out, "命令执行失败: ");
                push_str(&mut out, manager.as_str());
                push_str(&mut out, " '");
                push_str(&mut out, command.as_str());
                push_str(&mut out, "' (退出码: ");
                let code: i32 = *exit_code;
                if code < 0 {
                    out.push('-');
                    let ghost before = out@;
                    push_decimal(&mut out, (-(code as i64)) as u64);
                    assert(out@ =~= before.drop_last() + signed_decimal(code as int));
                } else {
                    push_decimal(&mut out, code as u64);
                }
                push_str(&mut out, ")");
            },
            BoxyError::CommandInterrupted => {
                push_str(&mut out, "命令被中断");
            },
            BoxyError::CommandTimeout => {
                push_str(&mut out, "命令超时");
            },
            BoxyError::ParseError { input } => {
                push_str(&mut out, "解析失败: ");
                push_str(&mut out, input.as_str());
            },
            BoxyError::JsonError { message } => {
                push_str(&mut out, "JSON解析失败: ");
                push_str(&mut out, message.as_str());
            },
            BoxyError::CacheError { message } => {
                push_str(&mut out, "缓存错误: ");
                push_str(&mut out, message.as_str());
            },
            BoxyError::Io { message: _ } => {
                push_str(&mut out, "IO错误");
            },
            BoxyError::NetworkError { message } => {
                push_str(&mut out, "网络错误: ");
                push_str(&mut out, message.as_str());
            },
            BoxyError::DependencyConflict { message } => {
                push_str(&mut out, "依赖冲突: ");
                push_str(&mut out, message.as_str());
            },
            BoxyError::UnsupportedOperation { manager, operation } => {
                push_str(&mut out, "不支持的操作: ");
                push_str(&mut out, manager.as_str());
                push_str(&mut out, " ");
                push_str(&mut out, operation.as_str());
            },
        }
        assert(out@ =~= self.description());
        string_of(&out)
    }
}

} // verus!
