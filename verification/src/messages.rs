//! Fixed strings of the command surface: the backend address, the greeting,
//! and the error-message templates that wrap OS error text.

use vstd::prelude::*;

verus! {

use vstd::string::StringExecFns;

/// Base address of the HTTP API the frontend talks to.
pub fn get_api_base_url() -> (r: String)
    ensures
        r@ == "http://127.0.0.1:8008"@,
{
    "http://127.0.0.1:8008".to_owned()
}

/// The demonstration greeting of the command surface.
pub fn greet(name: String) -> (r: String)
    ensures
        r@ == "Hello, "@ + name@ + "! You've been greeted from Rust!"@,
{
    let mut s = String::from_str("Hello, ");
    s.append(name.as_str());
    s.append("! You've been greeted from Rust!");
    s
}

/// The error classes of the file command surface. Each carries a fixed
/// message prefix; the OS error text follows it.
#[derive(Clone, Copy, Debug)]
pub enum FailureKind {
    Read,
    DirectoryCreate,
    PermissionChange,
    SetPermissions,
    Metadata,
    ReadDirectory,
    ReadDirectoryEntry,
    Encode,
}

/// The fixed prefix of each error class's message.
pub open spec fn failure_prefix(kind: FailureKind) -> Seq<char> {
    match kind {
        FailureKind::Read => "读取文件失败: "@,
        FailureKind::DirectoryCreate => "创建目录失败: "@,
        FailureKind::PermissionChange => "修改文件权限失败: "@,
        FailureKind::SetPermissions => "设置文件权限失败: "@,
        FailureKind::Metadata => "获取文件元数据失败: "@,
        FailureKind::ReadDirectory => "读取目录失败: "@,
        FailureKind::ReadDirectoryEntry => "读取目录条目失败: "@,
        FailureKind::Encode => "GBK编码失败: "@,
    }
}

/// Error string for a failed OS call: the class's fixed prefix followed by
/// the OS error text.
pub fn failure_message(kind: FailureKind, os_error: &str) -> (r: String)
    ensures
        r@ == failure_prefix(kind) + os_error@,
{
    let mut s = match kind {
        FailureKind::Read => String::from_str("读取文件失败: "),
        FailureKind::DirectoryCreate => String::from_str("创建目录失败: "),
        FailureKind::PermissionChange => String::from_str("修改文件权限失败: "),
        FailureKind::SetPermissions => String::from_str("设置文件权限失败: "),
        FailureKind::Metadata => String::from_str("获取文件元数据失败: "),
        FailureKind::ReadDirectory => String::from_str("读取目录失败: "),
        FailureKind::ReadDirectoryEntry => String::from_str("读取目录条目失败: "),
        FailureKind::Encode => String::from_str("GBK编码失败: "),
    };
    s.append(os_error);
    s
}

/// Error string for a failed file write, carrying the OS error and the path.
/// The command surface has two write entry points whose behaviour is byte
/// identical; they differ only in which of the two prefixes this template
/// starts with.
pub fn write_failure_message(gbk_template: bool, os_error: &str, path: &str) -> (r: String)
    ensures
        r@ == (if gbk_template {
            "GBK写入文件失败: "@
        } else {
            "写入文件失败: "@
        }) + os_error@ + " (路径: "@ + path@ + ")"@,
{
    let mut s = if gbk_template {
        String::from_str("GBK写入文件失败: ")
    } else {
        String::from_str("写入文件失败: ")
    };
    s.append(os_error);
    s.append(" (路径: ");
    s.append(path);
    s.append(")");
    s
}

} // verus!
