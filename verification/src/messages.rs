use vstd::prelude::*;

verus! {

/// The error of an install attempted without Node.js.
pub const NODE_MISSING_INSTALL_MESSAGE: &'static str =
    "未检测到 Node.js,无法安装 dsh 引擎。请先前往 nodejs.org 安装 Node.js。";

/// An installation needs Node.js: without it the request fails with
/// `NODE_MISSING_INSTALL_MESSAGE` before anything is touched.
pub fn install_gate(node_available: bool) -> (r: Result<(), String>)
    ensures
        node_available <==> r is Ok,
        r matches Err(m) ==> m@ == NODE_MISSING_INSTALL_MESSAGE@,
{
    if node_available {
        Ok(())
    } else {
        Err(NODE_MISSING_INSTALL_MESSAGE.to_owned())
    }
}

/// A step that can fail with a reason given by the system.
#[derive(Debug, Clone, Copy, PartialEq, Eq, Structural)]
pub enum Failure {
    /// Locating the application data directory.
    DataDir,
    /// Creating the runtime directory.
    CreateRuntime,
    /// Writing the runtime's `package.json`.
    WritePackageJson,
    /// Starting `npm install`.
    StartNpm,
    /// Waiting for `npm install`.
    WaitNpm,
    /// Starting dsh.
    StartDsh,
    /// Asking the registry for the latest dsh.
    QueryRegistry,
    /// Reading the registry's answer.
    ParseRegistry,
}

/// What is said before the reason of a failure.
pub open spec fn failure_prefix(kind: Failure) -> Seq<char> {
    match kind {
        Failure::DataDir => "获取应用数据目录失败: "@,
        Failure::CreateRuntime => "创建 runtime 目录失败: "@,
        Failure::WritePackageJson => "写 package.json 失败: "@,
        Failure::StartNpm => "启动 npm install 失败: "@,
        Failure::WaitNpm => "等待 npm install 失败: "@,
        Failure::StartDsh => "启动 dsh 失败: "@,
        Failure::QueryRegistry => "查询 dsh 版本失败: "@,
        Failure::ParseRegistry => "解析 dsh 版本失败: "@,
    }
}

/// The message of a failed step: what failed, then the reason `detail`.
pub fn failure_message(kind: Failure, detail: &str) -> (r: String)
    ensures
        r@ == failure_prefix(kind) + detail@,
{
    let mut s = match kind {
        Failure::DataDir => "获取应用数据目录失败: ".to_owned(),
        Failure::CreateRuntime => "创建 runtime 目录失败: ".to_owned(),
        Failure::WritePackageJson => "写 package.json 失败: ".to_owned(),
        Failure::StartNpm => "启动 npm install 失败: ".to_owned(),
        Failure::WaitNpm => "等待 npm install 失败: ".to_owned(),
        Failure::StartDsh => "启动 dsh 失败: ".to_owned(),
        Failure::QueryRegistry => "查询 dsh 版本失败: ".to_owned(),
        Failure::ParseRegistry => "解析 dsh 版本失败: ".to_owned(),
    };
    s.append(detail);
    s
}

/// What `npm install` was run for.
#[derive(Debug, Clone, Copy, PartialEq, Eq, Structural)]
pub enum NpmTask {
    Install,
    Upgrade,
}

pub open spec fn npm_task_word(task: NpmTask) -> Seq<char> {
    match task {
        NpmTask::Install => "安装"@,
        NpmTask::Upgrade => "升级"@,
    }
}

/// The message when `npm install` exits unsuccessfully; `status` is how the exit
/// status reads.
pub fn npm_exit_message(task: NpmTask, status: &str) -> (r: String)
    ensures
        r@ == npm_task_word(task) + "失败 (exit = "@ + status@ + ")"@,
{
    let mut s = match task {
        NpmTask::Install => "安装".to_owned(),
        NpmTask::Upgrade => "升级".to_owned(),
    };
    s.append("失败 (exit = ");
    s.append(status);
    s.append(")");
    s
}

} // verus!
