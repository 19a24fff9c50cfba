use dsh_desktop::messages::{failure_message, install_gate, npm_exit_message, Failure, NpmTask};

#[test]
fn install_needs_node() {
    assert_eq!(install_gate(true), Ok(()));
    assert_eq!(
        install_gate(false),
        Err("未检测到 Node.js,无法安装 dsh 引擎。请先前往 nodejs.org 安装 Node.js。".to_string())
    );
}

#[test]
fn failure_messages_name_the_step() {
    assert_eq!(failure_message(Failure::QueryRegistry, "timeout"), "查询 dsh 版本失败: timeout");
    assert_eq!(failure_message(Failure::ParseRegistry, "eof"), "解析 dsh 版本失败: eof");
    assert_eq!(failure_message(Failure::StartDsh, "no such file"), "启动 dsh 失败: no such file");
    assert_eq!(failure_message(Failure::DataDir, "x"), "获取应用数据目录失败: x");
    assert_eq!(failure_message(Failure::CreateRuntime, "x"), "创建 runtime 目录失败: x");
    assert_eq!(failure_message(Failure::WritePackageJson, "x"), "写 package.json 失败: x");
    assert_eq!(failure_message(Failure::StartNpm, "x"), "启动 npm install 失败: x");
    assert_eq!(failure_message(Failure::WaitNpm, "x"), "等待 npm install 失败: x");
}

#[test]
fn npm_exit_messages() {
    assert_eq!(npm_exit_message(NpmTask::Install, "exit status: 1"), "安装失败 (exit = exit status: 1)");
    assert_eq!(npm_exit_message(NpmTask::Upgrade, "exit status: 2"), "升级失败 (exit = exit status: 2)");
}
