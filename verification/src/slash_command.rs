//! Commands that a message can invoke by starting with a slash.

use vstd::prelude::*;

use crate::text::str_equal;

verus! {

/// Commands that can be invoked by starting a message with a leading slash.
///
/// The order of the variants is the order in which the popup presents them,
/// with the more frequently used commands first.
#[derive(Clone, Copy, Debug, PartialEq, Eq, Hash, Structural)]
pub enum SlashCommand {
    Model,
    Approvals,
    Permissions,
    ElevateSandbox,
    Experimental,
    Skills,
    Review,
    Rename,
    New,
    Resume,
    Fork,
    Init,
    Compact,
    Plan,
    Collab,
    Agent,
    Diff,
    Mention,
    Status,
    Mcp,
    Apps,
    Logout,
    Quit,
    Exit,
    Feedback,
    Rollout,
    Ps,
    Personality,
    TestApproval,
}

/// Every command, in presentation order.
pub open spec fn commands_in_order() -> Seq<SlashCommand> {
    seq![
        SlashCommand::Model,
        SlashCommand::Approvals,
        SlashCommand::Permissions,
        SlashCommand::ElevateSandbox,
        SlashCommand::Experimental,
        SlashCommand::Skills,
        SlashCommand::Review,
        SlashCommand::Rename,
        SlashCommand::New,
        SlashCommand::Resume,
        SlashCommand::Fork,
        SlashCommand::Init,
        SlashCommand::Compact,
        SlashCommand::Plan,
        SlashCommand::Collab,
        SlashCommand::Agent,
        SlashCommand::Diff,
        SlashCommand::Mention,
        SlashCommand::Status,
        SlashCommand::Mcp,
        SlashCommand::Apps,
        SlashCommand::Logout,
        SlashCommand::Quit,
        SlashCommand::Exit,
        SlashCommand::Feedback,
        SlashCommand::Rollout,
        SlashCommand::Ps,
        SlashCommand::Personality,
        SlashCommand::TestApproval,
    ]
}

impl SlashCommand {
    /// The command as typed after the slash: the variant's name in kebab case,
    /// except `ElevateSandbox`, which is typed `setup-elevated-sandbox`.
    pub open spec fn command_text(self) -> Seq<char> {
        match self {
            SlashCommand::Model => "model"@,
            SlashCommand::Approvals => "approvals"@,
            SlashCommand::Permissions => "permissions"@,
            SlashCommand::ElevateSandbox => "setup-elevated-sandbox"@,
            SlashCommand::Experimental => "experimental"@,
            SlashCommand::Skills => "skills"@,
            SlashCommand::Review => "review"@,
            SlashCommand::Rename => "rename"@,
            SlashCommand::New => "new"@,
            SlashCommand::Resume => "resume"@,
            SlashCommand::Fork => "fork"@,
            SlashCommand::Init => "init"@,
            SlashCommand::Compact => "compact"@,
            SlashCommand::Plan => "plan"@,
            SlashCommand::Collab => "collab"@,
            SlashCommand::Agent => "agent"@,
            SlashCommand::Diff => "diff"@,
            SlashCommand::Mention => "mention"@,
            SlashCommand::Status => "status"@,
            SlashCommand::Mcp => "mcp"@,
            SlashCommand::Apps => "apps"@,
            SlashCommand::Logout => "logout"@,
            SlashCommand::Quit => "quit"@,
            SlashCommand::Exit => "exit"@,
            SlashCommand::Feedback => "feedback"@,
            SlashCommand::Rollout => "rollout"@,
            SlashCommand::Ps => "ps"@,
            SlashCommand::Personality => "personality"@,
            SlashCommand::TestApproval => "test-approval"@,
        }
    }

    /// The description shown in the popup.
    pub open spec fn description_text(self) -> Seq<char> {
        match self {
            SlashCommand::Feedback => "发送日志给维护者"@,
            SlashCommand::New => "在对话中开启新聊天"@,
            SlashCommand::Init => "创建包含 Codex 指令的 AGENTS.md 文件"@,
            SlashCommand::Compact => "总结对话以避免触及上下文上限"@,
            SlashCommand::Review => "审查当前改动并找出问题"@,
            SlashCommand::Rename => "重命名当前会话"@,
            SlashCommand::Resume => "恢复已保存的聊天"@,
            SlashCommand::Fork => "分叉当前聊天"@,
            SlashCommand::Quit => "退出 Codex"@,
            SlashCommand::Exit => "退出 Codex"@,
            SlashCommand::Diff => "显示 git diff（包含未跟踪文件）"@,
            SlashCommand::Mention => "提及文件"@,
            SlashCommand::Skills => "使用技能提升 Codex 执行特定任务的效果"@,
            SlashCommand::Status => "显示当前会话配置与 token 用量"@,
            SlashCommand::Ps => "列出后台终端"@,
            SlashCommand::Model => "选择模型与推理强度"@,
            SlashCommand::Personality => "选择 Codex 的交流风格"@,
            SlashCommand::Plan => "切换到计划模式"@,
            SlashCommand::Collab => "切换协作模式（实验性）"@,
            SlashCommand::Agent => "切换当前代理线程"@,
            SlashCommand::Approvals => "选择 Codex 可在无需批准时执行的操作"@,
            SlashCommand::Permissions => "选择 Codex 允许执行的操作"@,
            SlashCommand::ElevateSandbox => "配置提升权限的代理沙箱"@,
            SlashCommand::Experimental => "切换实验功能"@,
            SlashCommand::Mcp => "列出已配置的 MCP 工具"@,
            SlashCommand::Apps => "管理 Apps（连接器）"@,
            SlashCommand::Logout => "登出 Codex"@,
            SlashCommand::Rollout => "打印 rollout 文件路径"@,
            SlashCommand::TestApproval => "测试审批请求"@,
        }
    }

    /// Whether the command cannot run while a task is in progress.
    pub open spec fn blocked_during_task(self) -> bool {
        ||| self is New
        ||| self is Resume
        ||| self is Fork
        ||| self is Init
        ||| self is Compact
        ||| self is Model
        ||| self is Personality
        ||| self is Approvals
        ||| self is Permissions
        ||| self is ElevateSandbox
        ||| self is Experimental
        ||| self is Review
        ||| self is Logout
    }

    /// Whether the popup lists the command: the debugging commands `Rollout`
    /// and `TestApproval` only in a debug build, every other command always.
    pub open spec fn visible(self, debug_build: bool) -> bool {
        debug_build || !(self is Rollout || self is TestApproval)
    }

    /// User-visible description shown in the popup.
    pub fn description(self) -> (s: &'static str)
        ensures
            s@ == self.description_text(),
    {
        match self {
            SlashCommand::Feedback => "发送日志给维护者",
            SlashCommand::New => "在对话中开启新聊天",
            SlashCommand::Init => "创建包含 Codex 指令的 AGENTS.md 文件",
            SlashCommand::Compact => "总结对话以避免触及上下文上限",
            SlashCommand::Review => "审查当前改动并找出问题",
            SlashCommand::Rename => "重命名当前会话",
            SlashCommand::Resume => "恢复已保存的聊天",
            SlashCommand::Fork => "分叉当前聊天",
            SlashCommand::Quit | SlashCommand::Exit => "退出 Codex",
            SlashCommand::Diff => "显示 git diff（包含未跟踪文件）",
            SlashCommand::Mention => "提及文件",
            SlashCommand::Skills => "使用技能提升 Codex 执行特定任务的效果",
            SlashCommand::Status => "显示当前会话配置与 token 用量",
            SlashCommand::Ps => "列出后台终端",
            SlashCommand::Model => "选择模型与推理强度",
            SlashCommand::Personality => "选择 Codex 的交流风格",
            SlashCommand::Plan => "切换到计划模式",
            SlashCommand::Collab => "切换协作模式（实验性）",
            SlashCommand::Agent => "切换当前代理线程",
            SlashCommand::Approvals => "选择 Codex 可在无需批准时执行的操作",
            SlashCommand::Permissions => "选择 Codex 允许执行的操作",
            SlashCommand::ElevateSandbox => "配置提升权限的代理沙箱",
            SlashCommand::Experimental => "切换实验功能",
            SlashCommand::Mcp => "列出已配置的 MCP 工具",
            SlashCommand::Apps => "管理 Apps（连接器）",
            SlashCommand::Logout => "登出 Codex",
            SlashCommand::Rollout => "打印 rollout 文件路径",
            SlashCommand::TestApproval => "测试审批请求",
        }
    }

    /// Command string without the leading '/'.
    pub fn command(self) -> (s: &'static str)
        ensures
            s@ == self.command_text(),
    {
        match self {
            SlashCommand::Model => "model",
            SlashCommand::Approvals => "approvals",
            SlashCommand::Permissions => "permissions",
            SlashCommand::ElevateSandbox => "setup-elevated-sandbox",
            SlashCommand::Experimental => "experimental",
            SlashCommand::Skills => "skills",
            SlashCommand::Review => "review",
            SlashCommand::Rename => "rename",
            SlashCommand::New => "new",
            SlashCommand::Resume => "resume",
            SlashCommand::Fork => "fork",
            SlashCommand::Init => "init",
            SlashCommand::Compact => "compact",
            SlashCommand::Plan => "plan",
            SlashCommand::Collab => "collab",
            SlashCommand::Agent => "agent",
            SlashCommand::Diff => "diff",
            SlashCommand::Mention => "mention",
            SlashCommand::Status => "status",
            SlashCommand::Mcp => "mcp",
            SlashCommand::Apps => "apps",
            SlashCommand::Logout => "logout",
            SlashCommand::Quit => "quit",
            SlashCommand::Exit => "exit",
            SlashCommand::Feedback => "feedback",
            SlashCommand::Rollout => "rollout",
            SlashCommand::Ps => "ps",
            SlashCommand::Personality => "personality",
            SlashCommand::TestApproval => "test-approval",
        }
    }

    /// Whether this command can be run while a task is in progress.
    pub fn available_during_task(self) -> (r: bool)
        ensures
            r == !self.blocked_during_task(),
    {
        match self {
            SlashCommand::New
            | SlashCommand::Resume
            | SlashCommand::Fork
            | SlashCommand::Init
            | SlashCommand::Compact
            | SlashCommand::Model
            | SlashCommand::Personality
            | SlashCommand::Approvals
            | SlashCommand::Permissions
            | SlashCommand::ElevateSandbox
            | SlashCommand::Experimental
            | SlashCommand::Review
            | SlashCommand::Logout => false,
            SlashCommand::Diff
            | SlashCommand::Rename
            | SlashCommand::Mention
            | SlashCommand::Skills
            | SlashCommand::Status
            | SlashCommand::Ps
            | SlashCommand::Mcp
            | SlashCommand::Apps
            | SlashCommand::Feedback
            | SlashCommand::Quit
            | SlashCommand::Exit => true,
            SlashCommand::Rollout => true,
            SlashCommand::TestApproval => true,
            SlashCommand::Plan => true,
            SlashCommand::Collab => true,
            SlashCommand::Agent => true,
        }
    }

    /// Whether the popup lists this command; `debug_build` tells whether the
    /// program was built with debug assertions.
    pub fn is_visible(self, debug_build: bool) -> (r: bool)
        ensures
            r == self.visible(debug_build),
    {
        match self {
            SlashCommand::Rollout | SlashCommand::TestApproval => debug_build,
            _ => true,
        }
    }

    /// Every command, in presentation order.
    pub fn all_commands() -> (v: Vec<SlashCommand>)
        ensures
            v@ == commands_in_order(),
    {
        let v = vec![
            SlashCommand::Model,
            SlashCommand::Approvals,
            SlashCommand::Permissions,
            SlashCommand::ElevateSandbox,
            SlashCommand::Experimental,
            SlashCommand::Skills,
            SlashCommand::Review,
            SlashCommand::Rename,
            SlashCommand::New,
            SlashCommand::Resume,
            SlashCommand::Fork,
            SlashCommand::Init,
            SlashCommand::Compact,
            SlashCommand::Plan,
            SlashCommand::Collab,
            SlashCommand::Agent,
            SlashCommand::Diff,
            SlashCommand::Mention,
            SlashCommand::Status,
            SlashCommand::Mcp,
            SlashCommand::Apps,
            SlashCommand::Logout,
            SlashCommand::Quit,
            SlashCommand::Exit,
            SlashCommand::Feedback,
            SlashCommand::Rollout,
            SlashCommand::Ps,
            SlashCommand::Personality,
            SlashCommand::TestApproval,
        ];
        assert(v@ =~= commands_in_order());
        v
    }
}


/// Whether the popup lists `c` in a build with or without debug assertions.
pub open spec fn visible_pred(debug_build: bool) -> spec_fn(SlashCommand) -> bool {
    |c: SlashCommand| c.visible(debug_build)
}

/// The commands the popup lists, in presentation order.
pub open spec fn visible_commands(debug_build: bool) -> Seq<SlashCommand> {
    commands_in_order().filter(visible_pred(debug_build))
}

/// Return all built-in commands that the popup lists, in presentation order,
/// each paired with its command string; `debug_build` tells whether the
/// program was built with debug assertions.
pub fn built_in_slash_commands(debug_build: bool) -> (r: Vec<(&'static str, SlashCommand)>)
    ensures
        r@.len() == visible_commands(debug_build).len(),
        forall|i: int|
            0 <= i < r@.len() ==> {
                &&& #[trigger] r@[i].1 == visible_commands(debug_build)[i]
                &&& r@[i].0@ == r@[i].1.command_text()
            },
{
    let all = SlashCommand::all_commands();
    let mut r: Vec<(&'static str, SlashCommand)> = Vec::new();
    let n = all.len();
    let mut i: usize = 0;
    while i < n
        invariant
            n == all@.len(),
            all@ == commands_in_order(),
            i <= n,
            r@.len() == all@.take(i as int).filter(visible_pred(debug_build)).len(),
            forall|j: int|
                0 <= j < r@.len() ==> {
                    &&& #[trigger] r@[j].1 == all@.take(i as int).filter(visible_pred(debug_build))[j]
                    &&& r@[j].0@ == r@[j].1.command_text()
                },
        decreases n - i,
    {
        let c = all[i];
        proof {
            reveal_with_fuel(Seq::<SlashCommand>::filter, 1);
        }
        let ghost prefix = all@.take(i as int);
        let ghost next = all@.take(i + 1);
        assert(next.drop_last() =~= prefix);
        assert(next.last() == c);
        assert(next.filter(visible_pred(debug_build)) == if c.visible(debug_build) {
            prefix.filter(visible_pred(debug_build)).push(c)
        } else {
            prefix.filter(visible_pred(debug_build))
        });
        if c.is_visible(debug_build) {
            r.push((c.command(), c));
        }
        i = i + 1;
    }
    assert(all@.take(n as int) =~= all@);
    r
}

/// The command whose command string is `s`, if any.
pub open spec fn parsed_command(s: Seq<char>) -> Option<SlashCommand> {
    if exists|c: SlashCommand| c.command_text() == s {
        Some(choose|c: SlashCommand| c.command_text() == s)
    } else {
        None
    }
}

proof fn lemma_parsed_command_is(c: SlashCommand, s: Seq<char>)
    requires
        c.command_text() == s,
    ensures
        parsed_command(s) == Some(c),
{
    let d = choose|d: SlashCommand| d.command_text() == s;
    lemma_command_texts_distinct(c, d);
}

proof fn lemma_parsed_command_none(s: Seq<char>)
    requires
        forall|c: SlashCommand| c.command_text() != s,
    ensures
        parsed_command(s) is None,
{
}

impl SlashCommand {
    /// The command typed as `s` (its command string, exactly), if any.
    pub fn from_command(s: &str) -> (r: Option<SlashCommand>)
        ensures
            r == parsed_command(s@),
    {
        if str_equal(s, "model") {
            proof {
                lemma_parsed_command_is(SlashCommand::Model, s@);
            }
            Some(SlashCommand::Model)
        } else if str_equal(s, "approvals") {
            proof {
                lemma_parsed_command_is(SlashCommand::Approvals, s@);
            }
            Some(SlashCommand::Approvals)
        } else if str_equal(s, "permissions") {
            proof {
                lemma_parsed_command_is(SlashCommand::Permissions, s@);
            }
            Some(SlashCommand::Permissions)
        } else if str_equal(s, "setup-elevated-sandbox") {
            proof {
                lemma_parsed_command_is(SlashCommand::ElevateSandbox, s@);
            }
            Some(SlashCommand::ElevateSandbox)
        } else if str_equal(s, "experimental") {
            proof {
                lemma_parsed_command_is(SlashCommand::Experimental, s@);
            }
            Some(SlashCommand::Experimental)
        } else if str_equal(s, "skills") {
            proof {
                lemma_parsed_command_is(SlashCommand::Skills, s@);
            }
            Some(SlashCommand::Skills)
        } else if str_equal(s, "review") {
            proof {
                lemma_parsed_command_is(SlashCommand::Review, s@);
            }
            Some(SlashCommand::Review)
        } else if str_equal(s, "rename") {
            proof {
                lemma_parsed_command_is(SlashCommand::Rename, s@);
            }
            Some(SlashCommand::Rename)
        } else if str_equal(s, "new") {
            proof {
                lemma_parsed_command_is(SlashCommand::New, s@);
            }
            Some(SlashCommand::New)
        } else if str_equal(s, "resume") {
            proof {
                lemma_parsed_command_is(SlashCommand::Resume, s@);
            }
            Some(SlashCommand::Resume)
        } else if str_equal(s, "fork") {
            proof {
                lemma_parsed_command_is(SlashCommand::Fork, s@);
            }
            Some(SlashCommand::Fork)
        } else if str_equal(s, "init") {
            proof {
                lemma_parsed_command_is(SlashCommand::Init, s@);
            }
            Some(SlashCommand::Init)
        } else if str_equal(s, "compact") {
            proof {
                lemma_parsed_command_is(SlashCommand::Compact, s@);
            }
            Some(SlashCommand::Compact)
        } else if str_equal(s, "plan") {
            proof {
                lemma_parsed_command_is(SlashCommand::Plan, s@);
            }
            Some(SlashCommand::Plan)
        } else if str_equal(s, "collab") {
            proof {
                lemma_parsed_command_is(SlashCommand::Collab, s@);
            }
            Some(SlashCommand::Collab)
        } else if str_equal(s, "agent") {
            proof {
                lemma_parsed_command_is(SlashCommand::Agent, s@);
            }
            Some(SlashCommand::Agent)
        } else if str_equal(s, "diff") {
            proof {
                lemma_parsed_command_is(SlashCommand::Diff, s@);
            }
            Some(SlashCommand::Diff)
        } else if str_equal(s, "mention") {
            proof {
                lemma_parsed_command_is(SlashCommand::Mention, s@);
            }
            Some(SlashCommand::Mention)
        } else if str_equal(s, "status") {
            proof {
                lemma_parsed_command_is(SlashCommand::Status, s@);
            }
            Some(SlashCommand::Status)
        } else if str_equal(s, "mcp") {
            proof {
                lemma_parsed_command_is(SlashCommand::Mcp, s@);
            }
            Some(SlashCommand::Mcp)
        } else if str_equal(s, "apps") {
            proof {
                lemma_parsed_command_is(SlashCommand::Apps, s@);
            }
            Some(SlashCommand::Apps)
        } else if str_equal(s, "logout") {
            proof {
                lemma_parsed_command_is(SlashCommand::Logout, s@);
            }
            Some(SlashCommand::Logout)
        } else if str_equal(s, "quit") {
            proof {
                lemma_parsed_command_is(SlashCommand::Quit, s@);
            }
            Some(SlashCommand::Quit)
        } else if str_equal(s, "exit") {
            proof {
                lemma_parsed_command_is(SlashCommand::Exit, s@);
            }
            Some(SlashCommand::Exit)
        } else if str_equal(s, "feedback") {
            proof {
                lemma_parsed_command_is(SlashCommand::Feedback, s@);
            }
            Some(SlashCommand::Feedback)
        } else if str_equal(s, "rollout") {
            proof {
                lemma_parsed_command_is(SlashCommand::Rollout, s@);
            }
            Some(SlashCommand::Rollout)
        } else if str_equal(s, "ps") {
            proof {
                lemma_parsed_command_is(SlashCommand::Ps, s@);
            }
            Some(SlashCommand::Ps)
        } else if str_equal(s, "personality") {
            proof {
                lemma_parsed_command_is(SlashCommand::Personality, s@);
            }
            Some(SlashCommand::Personality)
        } else if str_equal(s, "test-approval") {
            proof {
                lemma_parsed_command_is(SlashCommand::TestApproval, s@);
            }
            Some(SlashCommand::TestApproval)
        } else {
            proof {
                lemma_parsed_command_none(s@);
            }
            None
        }
    }
}

/// A fingerprint of a command string: its length, first character and
/// middle character.
spec fn text_key(s: Seq<char>) -> (nat, char, char) {
    (s.len(), s[0], s[(s.len() / 2) as int])
}

/// The fingerprint of each command's string; no two commands share one.
spec fn command_key(c: SlashCommand) -> (nat, char, char) {
    match c {
        SlashCommand::Model => (5, 'm', 'd'),
        SlashCommand::Approvals => (9, 'a', 'o'),
        SlashCommand::Permissions => (11, 'p', 's'),
        SlashCommand::ElevateSandbox => (22, 's', 't'),
        SlashCommand::Experimental => (12, 'e', 'm'),
        SlashCommand::Skills => (6, 's', 'l'),
        SlashCommand::Review => (6, 'r', 'i'),
        SlashCommand::Rename => (6, 'r', 'a'),
        SlashCommand::New => (3, 'n', 'e'),
        SlashCommand::Resume => (6, 'r', 'u'),
        SlashCommand::Fork => (4, 'f', 'r'),
        SlashCommand::Init => (4, 'i', 'i'),
        SlashCommand::Compact => (7, 'c', 'p'),
        SlashCommand::Plan => (4, 'p', 'a'),
        SlashCommand::Collab => (6, 'c', 'l'),
        SlashCommand::Agent => (5, 'a', 'e'),
        SlashCommand::Diff => (4, 'd', 'f'),
        SlashCommand::Mention => (7, 'm', 't'),
        SlashCommand::Status => (6, 's', 't'),
        SlashCommand::Mcp => (3, 'm', 'c'),
        SlashCommand::Apps => (4, 'a', 'p'),
        SlashCommand::Logout => (6, 'l', 'o'),
        SlashCommand::Quit => (4, 'q', 'i'),
        SlashCommand::Exit => (4, 'e', 'i'),
        SlashCommand::Feedback => (8, 'f', 'b'),
        SlashCommand::Rollout => (7, 'r', 'l'),
        SlashCommand::Ps => (2, 'p', 's'),
        SlashCommand::Personality => (11, 'p', 'n'),
        SlashCommand::TestApproval => (13, 't', 'p'),
    }
}

proof fn lemma_text_key(c: SlashCommand)
    ensures
        text_key(c.command_text()) == command_key(c),
{
    match c {
        SlashCommand::Model => {
            reveal_strlit("model");
            assert("model"@.len() == 5);
        },
        SlashCommand::Approvals => {
            reveal_strlit("approvals");
            assert("approvals"@.len() == 9);
        },
        SlashCommand::Permissions => {
            reveal_strlit("permissions");
            assert("permissions"@.len() == 11);
        },
        SlashCommand::ElevateSandbox => {
            reveal_strlit("setup-elevated-sandbox");
            assert("setup-elevated-sandbox"@.len() == 22);
        },
        SlashCommand::Experimental => {
            reveal_strlit("experimental");
            assert("experimental"@.len() == 12);
        },
        SlashCommand::Skills => {
            reveal_strlit("skills");
            assert("skills"@.len() == 6);
        },
        SlashCommand::Review => {
            reveal_strlit("review");
            assert("review"@.len() == 6);
        },
        SlashCommand::Rename => {
            reveal_strlit("rename");
            assert("rename"@.len() == 6);
        },
        SlashCommand::New => {
            reveal_strlit("new");
            assert("new"@.len() == 3);
        },
        SlashCommand::Resume => {
            reveal_strlit("resume");
            assert("resume"@.len() == 6);
        },
        SlashCommand::Fork => {
            reveal_strlit("fork");
            assert("fork"@.len() == 4);
        },
        SlashCommand::Init => {
            reveal_strlit("init");
            assert("init"@.len() == 4);
        },
        SlashCommand::Compact => {
            reveal_strlit("compact");
            assert("compact"@.len() == 7);
        },
        SlashCommand::Plan => {
            reveal_strlit("plan");
            assert("plan"@.len() == 4);
        },
        SlashCommand::Collab => {
            reveal_strlit("collab");
            assert("collab"@.len() == 6);
        },
        SlashCommand::Agent => {
            reveal_strlit("agent");
            assert("agent"@.len() == 5);
        },
        SlashCommand::Diff => {
            reveal_strlit("diff");
            assert("diff"@.len() == 4);
        },
        SlashCommand::Mention => {
            reveal_strlit("mention");
            assert("mention"@.len() == 7);
        },
        SlashCommand::Status => {
            reveal_strlit("status");
            assert("status"@.len() == 6);
        },
        SlashCommand::Mcp => {
            reveal_strlit("mcp");
            assert("mcp"@.len() == 3);
        },
        SlashCommand::Apps => {
            reveal_strlit("apps");
            assert("apps"@.len() == 4);
        },
        SlashCommand::Logout => {
            reveal_strlit("logout");
            assert("logout"@.len() == 6);
        },
        SlashCommand::Quit => {
            reveal_strlit("quit");
            assert("quit"@.len() == 4);
        },
        SlashCommand::Exit => {
            reveal_strlit("exit");
            assert("exit"@.len() == 4);
        },
        SlashCommand::Feedback => {
            reveal_strlit("feedback");
            assert("feedback"@.len() == 8);
        },
        SlashCommand::Rollout => {
            reveal_strlit("rollout");
            assert("rollout"@.len() == 7);
        },
        SlashCommand::Ps => {
            reveal_strlit("ps");
            assert("ps"@.len() == 2);
        },
        SlashCommand::Personality => {
            reveal_strlit("personality");
            assert("personality"@.len() == 11);
        },
        SlashCommand::TestApproval => {
            reveal_strlit("test-approval");
            assert("test-approval"@.len() == 13);
        },
    }
}

/// Distinct commands have distinct command strings.
pub proof fn lemma_command_texts_distinct(a: SlashCommand, b: SlashCommand)
    ensures
        a.command_text() == b.command_text() ==> a == b,
{
    lemma_text_key(a);
    lemma_text_key(b);
}

/// Each command is read back from its command string.
pub proof fn lemma_parse_round_trip(c: SlashCommand)
    ensures
        parsed_command(c.command_text()) == Some(c),
{
    lemma_parsed_command_is(c, c.command_text());
}


/// The parse error of strum, carried through unchanged.
#[verifier::external_type_specification]
#[verifier::external_body]
pub struct ExParseError(strum::ParseError);

/// strum's `ParseError::VariantNotFound`, the error for a string that names
/// no variant. Nothing is stated of the opaque value.
#[verifier::external_body]
fn variant_not_found() -> strum::ParseError {
    strum::ParseError::VariantNotFound
}

/// Exactly these commands are refused while a task is in progress: starting,
/// resuming or forking a session, `init`, `compact`, changing the model, the
/// personality, approvals, permissions or the sandbox, the experimental
/// features, `review` and `logout`. Every other command stays available.
pub proof fn lemma_commands_blocked_during_task(c: SlashCommand)
    ensures
        c.blocked_during_task() <==> set![
            SlashCommand::New,
            SlashCommand::Resume,
            SlashCommand::Fork,
            SlashCommand::Init,
            SlashCommand::Compact,
            SlashCommand::Model,
            SlashCommand::Personality,
            SlashCommand::Approvals,
            SlashCommand::Permissions,
            SlashCommand::ElevateSandbox,
            SlashCommand::Experimental,
            SlashCommand::Review,
            SlashCommand::Logout,
        ].contains(c),
        !c.blocked_during_task() <==> set![
            SlashCommand::Diff,
            SlashCommand::Rename,
            SlashCommand::Mention,
            SlashCommand::Skills,
            SlashCommand::Status,
            SlashCommand::Ps,
            SlashCommand::Mcp,
            SlashCommand::Apps,
            SlashCommand::Feedback,
            SlashCommand::Quit,
            SlashCommand::Exit,
            SlashCommand::Rollout,
            SlashCommand::TestApproval,
            SlashCommand::Plan,
            SlashCommand::Collab,
            SlashCommand::Agent,
        ].contains(c),
{
}

impl AsRef<str> for SlashCommand {
    /// The command string (see `command`).
    fn as_ref(&self) -> (s: &str)
        ensures
            s@ == self.command_text(),
    {
        self.command()
    }
}

impl std::str::FromStr for SlashCommand {
    type Err = strum::ParseError;

    /// Reads a command from its command string (see `from_command`).
    fn from_str(s: &str) -> (r: Result<SlashCommand, strum::ParseError>)
        ensures
            r is Ok <==> parsed_command(s@) is Some,
            r matches Ok(c) ==> parsed_command(s@) == Some(c),
    {
        match SlashCommand::from_command(s) {
            Some(c) => Ok(c),
            None => Err(variant_not_found()),
        }
    }
}

/// Filtering keeps a sequence whose elements all pass.
proof fn lemma_filter_keeps_all(s: Seq<SlashCommand>, p: spec_fn(SlashCommand) -> bool)
    requires
        forall|i: int| 0 <= i < s.len() ==> p(#[trigger] s[i]),
    ensures
        s.filter(p) == s,
    decreases s.len(),
{
    reveal(Seq::filter);
    if s.len() > 0 {
        lemma_filter_keeps_all(s.drop_last(), p);
        assert(s.drop_last().push(s.last()) =~= s);
    }
}

/// Filtering empties a sequence whose elements all fail.
proof fn lemma_filter_drops_all(s: Seq<SlashCommand>, p: spec_fn(SlashCommand) -> bool)
    requires
        forall|i: int| 0 <= i < s.len() ==> !p(#[trigger] s[i]),
    ensures
        s.filter(p) == Seq::<SlashCommand>::empty(),
    decreases s.len(),
{
    reveal(Seq::filter);
    if s.len() > 0 {
        lemma_filter_drops_all(s.drop_last(), p);
    }
}

/// A debug build lists every command, in presentation order.
pub proof fn lemma_visible_commands_debug()
    ensures
        visible_commands(true) == commands_in_order(),
{
    lemma_filter_keeps_all(commands_in_order(), visible_pred(true));
}

/// A release build lists every command but `Rollout` and `TestApproval`, in
/// presentation order.
pub proof fn lemma_visible_commands_release()
    ensures
        visible_commands(false) == commands_in_order().take(25) + commands_in_order().subrange(
            26,
            28,
        ),
{
    let all = commands_in_order();
    let p = visible_pred(false);
    let head = all.take(25);
    let rollout = all.subrange(25, 26);
    let middle = all.subrange(26, 28);
    let test_approval = all.subrange(28, 29);
    assert(all =~= head + rollout + middle + test_approval);
    Seq::filter_distributes_over_add(head + rollout + middle, test_approval, p);
    Seq::filter_distributes_over_add(head + rollout, middle, p);
    Seq::filter_distributes_over_add(head, rollout, p);
    lemma_filter_keeps_all(head, p);
    lemma_filter_drops_all(rollout, p);
    lemma_filter_keeps_all(middle, p);
    lemma_filter_drops_all(test_approval, p);
    assert(head + Seq::<SlashCommand>::empty() + middle + Seq::<SlashCommand>::empty() =~= head + middle);
}

} // verus!
