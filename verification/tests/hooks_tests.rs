use shrs_line::hooks::{
    before_command_hook, change_dir_hook, BeforeCommandCtx, BeforeCommandHook, ChangeDirCtx,
    ChangeDirHook, ExitStatus, Hook, HookError, Hooks, JobExitCtx, StartupCtx,
};
use shrs_line::line::{LineMode, LineModeSwitchCtx};
use std::path::PathBuf;
use std::time::Duration;

struct Count {
    amount: u32,
    fail_at: u32,
}

impl<C> Hook<Vec<u32>, C> for Count {
    fn call(&self, state: &mut Vec<u32>, _ctx: &C) -> Result<(), HookError> {
        if self.amount == self.fail_at {
            return Err(HookError { message: format!("hook {} failed", self.amount) });
        }
        state.push(self.amount);
        Ok(())
    }
}

type TestHooks = Hooks<Vec<u32>, Count, Count, Count, Count, Count>;

fn startup() -> StartupCtx {
    StartupCtx { startup_time: Duration::from_millis(5) }
}

#[test]
fn new_hooks_hold_no_hook() {
    let hooks = TestHooks::new();
    assert_eq!(hooks.startup.len(), 0);
    assert_eq!(hooks.before_command.len(), 0);
    assert_eq!(hooks.change_dir.len(), 0);
    assert_eq!(hooks.job_exit.len(), 0);
    assert_eq!(hooks.line_mode_switch.len(), 0);
}

#[test]
fn run_without_hooks_succeeds_and_leaves_state() {
    let hooks = TestHooks::new();
    let mut state = vec![7];
    assert!(hooks.run(&mut state, startup()).is_ok());
    assert_eq!(state, vec![7]);
}

#[test]
fn hooks_run_in_registration_order() {
    let mut hooks = TestHooks::new();
    hooks.register::<StartupCtx>(Count { amount: 1, fail_at: 0 });
    hooks.register::<StartupCtx>(Count { amount: 2, fail_at: 0 });
    hooks.register::<StartupCtx>(Count { amount: 3, fail_at: 0 });
    let mut state = Vec::new();
    assert!(hooks.run(&mut state, startup()).is_ok());
    assert_eq!(state, vec![1, 2, 3]);
}

#[test]
fn first_failing_hook_stops_the_run() {
    let mut hooks = TestHooks::new();
    hooks.register::<JobExitCtx>(Count { amount: 1, fail_at: 0 });
    hooks.register::<JobExitCtx>(Count { amount: 2, fail_at: 2 });
    hooks.register::<JobExitCtx>(Count { amount: 3, fail_at: 0 });
    let mut state = Vec::new();
    let r = hooks.run(&mut state, JobExitCtx { status: ExitStatus { code: 1 } });
    assert_eq!(r.unwrap_err().message, "hook 2 failed");
    assert_eq!(state, vec![1]);
}

#[test]
fn hooks_are_kept_by_kind_of_event() {
    let mut hooks = TestHooks::new();
    hooks.register::<StartupCtx>(Count { amount: 1, fail_at: 0 });
    hooks.register::<LineModeSwitchCtx>(Count { amount: 2, fail_at: 0 });
    hooks.register::<BeforeCommandCtx>(Count { amount: 3, fail_at: 0 });
    hooks.register::<ChangeDirCtx>(Count { amount: 4, fail_at: 0 });
    assert_eq!(hooks.startup.len(), 1);
    assert_eq!(hooks.line_mode_switch.len(), 1);
    assert_eq!(hooks.before_command.len(), 1);
    assert_eq!(hooks.change_dir.len(), 1);
    assert_eq!(hooks.job_exit.len(), 0);
    let mut state = Vec::new();
    hooks.run(&mut state, LineModeSwitchCtx { line_mode: LineMode::Normal }).unwrap();
    assert_eq!(state, vec![2]);
    hooks
        .run(
            &mut state,
            BeforeCommandCtx { raw_command: "ls".to_string(), command: "ls".to_string() },
        )
        .unwrap();
    assert_eq!(state, vec![2, 3]);
    hooks
        .run(&mut state, ChangeDirCtx { old_dir: PathBuf::from("/a"), new_dir: PathBuf::from("/b") })
        .unwrap();
    assert_eq!(state, vec![2, 3, 4]);
    hooks.run(&mut state, JobExitCtx { status: ExitStatus { code: 0 } }).unwrap();
    assert_eq!(state, vec![2, 3, 4]);
}

#[test]
fn default_hooks_do_nothing() {
    let mut state = vec![1, 2];
    let before = BeforeCommandCtx { raw_command: "l".to_string(), command: "ls".to_string() };
    assert!(before_command_hook(&mut state, &before).is_ok());
    let change = ChangeDirCtx { old_dir: PathBuf::from("/"), new_dir: PathBuf::from("/tmp") };
    assert!(change_dir_hook(&mut state, &change).is_ok());
    assert_eq!(state, vec![1, 2]);
}

#[test]
fn default_tables_hold_the_default_hooks() {
    let hooks: Hooks<Vec<u32>, Count, BeforeCommandHook, ChangeDirHook, Count, Count> =
        Hooks::default();
    assert_eq!(hooks.startup.len(), 0);
    assert_eq!(hooks.before_command.len(), 1);
    assert_eq!(hooks.change_dir.len(), 1);
    assert_eq!(hooks.job_exit.len(), 0);
    assert_eq!(hooks.line_mode_switch.len(), 0);
    let mut state = vec![9];
    let before = BeforeCommandCtx { raw_command: "l".to_string(), command: "ls".to_string() };
    assert!(hooks.run(&mut state, before).is_ok());
    assert_eq!(state, vec![9]);
}

#[test]
fn exit_status_code() {
    assert_eq!(ExitStatus { code: 3 }.code(), 3);
    assert_eq!(ExitStatus { code: -1 }.code(), -1);
}

#[test]
fn register_iter_leaves_the_tables() {
    let mut hooks = TestHooks::new();
    hooks.register::<StartupCtx>(Count { amount: 1, fail_at: 0 });
    hooks.register_iter();
    assert_eq!(hooks.startup.len(), 1);
    assert_eq!(hooks.before_command.len(), 0);
    assert_eq!(hooks.change_dir.len(), 0);
    assert_eq!(hooks.job_exit.len(), 0);
    assert_eq!(hooks.line_mode_switch.len(), 0);
    let mut state = Vec::new();
    hooks.run(&mut state, startup()).unwrap();
    assert_eq!(state, vec![1]);
}
