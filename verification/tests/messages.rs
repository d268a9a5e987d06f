use gbk_backend::messages::{failure_message, get_api_base_url, greet, write_failure_message, FailureKind};

#[test]
fn api_base_url_is_fixed() {
    assert_eq!(get_api_base_url(), "http://127.0.0.1:8008");
}

#[test]
fn greet_formats_the_name() {
    assert_eq!(greet("World".to_string()), "Hello, World! You've been greeted from Rust!");
    assert_eq!(greet(String::new()), "Hello, ! You've been greeted from Rust!");
}

#[test]
fn failure_messages_carry_prefix_and_os_error() {
    assert_eq!(failure_message(FailureKind::Read, "boom"), "读取文件失败: boom");
    assert_eq!(failure_message(FailureKind::DirectoryCreate, "no"), "创建目录失败: no");
    assert_eq!(failure_message(FailureKind::PermissionChange, "x"), "修改文件权限失败: x");
    assert_eq!(failure_message(FailureKind::SetPermissions, "x"), "设置文件权限失败: x");
    assert_eq!(failure_message(FailureKind::Metadata, "x"), "获取文件元数据失败: x");
    assert_eq!(failure_message(FailureKind::ReadDirectory, "x"), "读取目录失败: x");
    assert_eq!(failure_message(FailureKind::ReadDirectoryEntry, "x"), "读取目录条目失败: x");
    assert_eq!(failure_message(FailureKind::Encode, "x"), "GBK编码失败: x");
}

#[test]
fn write_failure_messages_differ_only_in_prefix() {
    assert_eq!(
        write_failure_message(false, "denied", "a/b.txt"),
        "写入文件失败: denied (路径: a/b.txt)"
    );
    assert_eq!(
        write_failure_message(true, "denied", "a/b.txt"),
        "GBK写入文件失败: denied (路径: a/b.txt)"
    );
}
