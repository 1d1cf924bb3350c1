use crabcan::child::{child_exit_status, setup_next, SetupStep, NAMESPACE_FLAGS};
use crabcan::container::{check_linux_version, launch_next, start, CleanStep, Cleanup, LaunchStep};
use crabcan::errors::{exit_code, Errcode};
use crabcan::ipc::{decode_bool, encode_bool};
use crabcan::mounts::{clean_mounts, mount_next, random_string, MountPlan, MountStep};
use crabcan::namespaces::{
    child_action, child_next, parent_action, parent_next, ChildAction, ChildStep, IdMapping, MapFile,
    Outcome, ParentAction, ParentStep,
};
use crabcan::syscalls::{
    syscall_policy, InstallStep, Syscall, Verdict, CLONE_NEWUSER, EPERM, S_ISGID, S_ISUID, TIOCSTI,
};

#[test]
fn retcode_is_one_for_every_error() {
    assert_eq!(Errcode::MountsError(3).get_retcode(), 1);
    assert_eq!(Errcode::ArgumentInvalid("uid").get_retcode(), 1);
    assert_eq!(exit_code(&Ok(())), 0);
    assert_eq!(exit_code(&Err(Errcode::NotSupported(0))), 1);
}

#[test]
fn bool_messages_round_trip() {
    assert_eq!(encode_bool(true), 1);
    assert_eq!(encode_bool(false), 0);
    assert!(decode_bool(encode_bool(true)));
    assert!(!decode_bool(encode_bool(false)));
    assert!(!decode_bool(2));
}

#[test]
fn filter_constants_match_libc() {
    assert_eq!(S_ISUID, libc::S_ISUID as u64);
    assert_eq!(S_ISGID, libc::S_ISGID as u64);
    assert_eq!(CLONE_NEWUSER, libc::CLONE_NEWUSER as u64);
    assert_eq!(TIOCSTI, libc::TIOCSTI as u64);
}

#[test]
fn chmod_denied_only_with_setuid_or_setgid() {
    let p = syscall_policy();
    assert_eq!(p.rules.len(), 18);
    let deny = Verdict::Errno(EPERM);
    assert_eq!(p.evaluate(Syscall::Chmod, &[0, 0o4755, 0, 0, 0, 0]), deny);
    assert_eq!(p.evaluate(Syscall::Chmod, &[0, 0o0755, 0, 0, 0, 0]), Verdict::Allow);
    assert_eq!(p.evaluate(Syscall::Chmod, &[0, 0o2755, 0, 0, 0, 0]), deny);
    assert_eq!(p.evaluate(Syscall::Fchmod, &[3, 0o4700, 0, 0, 0, 0]), deny);
    assert_eq!(p.evaluate(Syscall::Fchmodat, &[3, 0, 0o4644, 0, 0, 0]), deny);
    assert_eq!(p.evaluate(Syscall::Fchmodat, &[3, 0o4644, 0o644, 0, 0, 0]), Verdict::Allow);
}

#[test]
fn new_user_namespace_denied() {
    let p = syscall_policy();
    let deny = Verdict::Errno(EPERM);
    let newuser = CLONE_NEWUSER;
    assert_eq!(p.evaluate(Syscall::Unshare, &[newuser, 0, 0, 0, 0, 0]), deny);
    assert_eq!(p.evaluate(Syscall::Clone, &[newuser | 0x11, 0, 0, 0, 0, 0]), deny);
    assert_eq!(p.evaluate(Syscall::Unshare, &[0x0002_0000, 0, 0, 0, 0, 0]), Verdict::Allow);
    assert_eq!(p.evaluate(Syscall::Clone, &[0x11, 0, 0, 0, 0, 0]), Verdict::Allow);
}

#[test]
fn unconditional_and_ioctl_rules() {
    let p = syscall_policy();
    let deny = Verdict::Errno(EPERM);
    assert_eq!(p.evaluate(Syscall::Keyctl, &[0; 6]), deny);
    assert_eq!(p.evaluate(Syscall::PerfEventOpen, &[0; 6]), deny);
    assert_eq!(p.evaluate(Syscall::Userfaultfd, &[0; 6]), deny);
    assert_eq!(p.evaluate(Syscall::Ioctl, &[0, TIOCSTI, 0, 0, 0, 0]), deny);
    assert_eq!(p.evaluate(Syscall::Ioctl, &[0, 0x5401, 0, 0, 0, 0]), Verdict::Allow);
    assert_eq!(p.evaluate(Syscall::Other(0), &[0; 6]), Verdict::Allow);
    assert_eq!(Syscall::Mbind.name(), Some("mbind"));
    assert_eq!(Syscall::Other(7).name(), None);
}

#[test]
fn default_mapping_bounds() {
    let m = IdMapping::default_mapping();
    assert_eq!(m, IdMapping { inside: 0, outside: 10000, count: 2000 });
    assert_eq!(m.map_id(0), Some(10000));
    assert_eq!(m.map_id(1999), Some(11999));
    assert_eq!(m.map_id(2000), None);
}

fn run_child(uid: u32, unshare_ok: bool, parent_flag: bool) -> (Vec<ChildAction>, Result<ChildStep, Errcode>) {
    let mut step = ChildStep::Unshare;
    let mut actions = Vec::new();
    loop {
        let a = child_action(step, uid);
        actions.push(a);
        let o = match a {
            ChildAction::UnshareUserNamespace => if unshare_ok { Outcome::Succeeded } else { Outcome::Failed },
            ChildAction::Receive => Outcome::Received(parent_flag),
            ChildAction::Finished => return (actions, Ok(step)),
            _ => Outcome::Succeeded,
        };
        match child_next(step, o) {
            Ok(s) => step = s,
            Err(e) => return (actions, Err(e)),
        }
    }
}

#[test]
fn child_switches_to_requested_id() {
    let (actions, r) = run_child(0, true, false);
    assert_eq!(r, Ok(ChildStep::Done));
    assert_eq!(
        actions,
        vec![
            ChildAction::UnshareUserNamespace,
            ChildAction::Send(true),
            ChildAction::Receive,
            ChildAction::SetGroups(0),
            ChildAction::SetResGid(0),
            ChildAction::SetResUid(0),
            ChildAction::Finished,
        ]
    );
    let (actions, r) = run_child(1000, false, false);
    assert_eq!(r, Ok(ChildStep::Done));
    assert_eq!(actions[1], ChildAction::Send(false));
    assert_eq!(actions[5], ChildAction::SetResUid(1000));
}

#[test]
fn child_stops_on_parent_error() {
    let (_, r) = run_child(0, true, true);
    assert_eq!(r, Err(Errcode::NamespacesError(0)));
    assert_eq!(child_next(ChildStep::SetGid, Outcome::Failed), Err(Errcode::NamespacesError(2)));
    assert_eq!(child_next(ChildStep::Report { supported: true }, Outcome::Failed), Err(Errcode::SocketError(1)));
}

#[test]
fn parent_writes_maps_only_when_supported() {
    assert_eq!(parent_action(ParentStep::AwaitSupport), ParentAction::Receive);
    assert_eq!(parent_next(ParentStep::AwaitSupport, Outcome::Received(false)), Ok(ParentStep::Release));
    assert_eq!(parent_action(ParentStep::Release), ParentAction::Send(false));
    assert_eq!(parent_next(ParentStep::AwaitSupport, Outcome::Received(true)), Ok(ParentStep::WriteUidMap));
    assert_eq!(
        parent_action(ParentStep::WriteUidMap),
        ParentAction::WriteMap(MapFile::Uid, IdMapping::default_mapping())
    );
    assert_eq!(parent_next(ParentStep::WriteUidMap, Outcome::Succeeded), Ok(ParentStep::WriteGidMap));
    assert_eq!(parent_next(ParentStep::WriteGidMap, Outcome::Succeeded), Ok(ParentStep::Release));
    assert_eq!(parent_next(ParentStep::Release, Outcome::Succeeded), Ok(ParentStep::Done));
}

#[test]
fn parent_map_errors() {
    assert_eq!(parent_next(ParentStep::WriteUidMap, Outcome::CannotOpen), Err(Errcode::NamespacesError(5)));
    assert_eq!(parent_next(ParentStep::WriteUidMap, Outcome::Failed), Err(Errcode::NamespacesError(4)));
    assert_eq!(parent_next(ParentStep::WriteGidMap, Outcome::CannotOpen), Err(Errcode::NamespacesError(7)));
    assert_eq!(parent_next(ParentStep::WriteGidMap, Outcome::Failed), Err(Errcode::NamespacesError(6)));
    assert_eq!(parent_next(ParentStep::AwaitSupport, Outcome::Failed), Err(Errcode::SocketError(2)));
}

#[test]
fn random_names_are_alphanumeric() {
    let a = random_string(12);
    assert_eq!(a.len(), 12);
    assert!(a.iter().all(|c| c.is_ascii_alphanumeric()));
    assert!(random_string(0).is_empty());
    let b = random_string(64);
    let c = random_string(64);
    assert_ne!(b, c);
}

#[test]
fn mount_plan_paths() {
    let p = MountPlan::new(b"abcdefghijkl", b"xyz123");
    assert_eq!(p.new_root, b"/tmp/crabcan.abcdefghijkl".to_vec());
    assert_eq!(p.put_old, b"/tmp/crabcan.abcdefghijkl/oldroot.xyz123".to_vec());
    assert_eq!(p.old_root, b"/oldroot.xyz123".to_vec());
    let r = MountPlan::random();
    assert_eq!(r.new_root.len(), "/tmp/crabcan.".len() + 12);
    assert_eq!(r.old_root.len(), "/oldroot.".len() + 6);
    assert!(r.put_old.starts_with(&r.new_root));
    assert!(r.put_old.ends_with(&r.old_root));
}

#[test]
fn mount_steps_run_in_order_and_stop_on_failure() {
    let mut step = MountStep::PrivatizeRoot;
    let mut seen = vec![step];
    while step != MountStep::Done {
        step = mount_next(step, true).unwrap();
        seen.push(step);
    }
    assert_eq!(seen.len(), 9);
    assert_eq!(seen[4], MountStep::PivotRoot);
    assert_eq!(seen[6], MountStep::UnmountOldRoot);
    assert_eq!(MountStep::first(), MountStep::PrivatizeRoot);
    assert_eq!(mount_next(MountStep::PrivatizeRoot, false), Err(Errcode::MountsError(3)));
    assert_eq!(mount_next(MountStep::CreateNewRoot, false), Err(Errcode::MountsError(2)));
    assert_eq!(mount_next(MountStep::ChdirRoot, false), Err(Errcode::MountsError(5)));
    assert_eq!(mount_next(MountStep::UnmountOldRoot, false), Err(Errcode::MountsError(0)));
    assert_eq!(mount_next(MountStep::DeleteOldRoot, false), Err(Errcode::MountsError(1)));
    assert_eq!(clean_mounts(b"/tmp"), Ok(()));
}

#[test]
fn platform_check() {
    assert_eq!(check_linux_version(b"5.15.0-91-generic", b"x86_64"), Ok(()));
    assert_eq!(check_linux_version(b"4.19.2", b"x86_64"), Ok(()));
    assert_eq!(check_linux_version(b"4.8.0", b"x86_64"), Ok(()));
    assert_eq!(check_linux_version(b"4.4.0-21", b"x86_64"), Err(Errcode::NotSupported(0)));
    assert_eq!(check_linux_version(b"3.99", b"x86_64"), Err(Errcode::NotSupported(0)));
    assert_eq!(check_linux_version(b"6.1.0", b"aarch64"), Err(Errcode::NotSupported(1)));
    assert_eq!(check_linux_version(b"linux", b"x86_64"), Err(Errcode::ContainerError(0)));
    assert_eq!(check_linux_version(b"5.", b"x86_64"), Err(Errcode::ContainerError(0)));
    assert_eq!(check_linux_version(b"", b"x86_64"), Err(Errcode::ContainerError(0)));
}

fn run_launch(outcomes: &[Result<(), Errcode>]) -> (Vec<LaunchStep>, Result<(), Errcode>) {
    let mut step = start();
    let mut seen = vec![step];
    for o in outcomes {
        step = launch_next(step, *o);
        seen.push(step);
        if let LaunchStep::Exit(r) = step {
            return (seen, r);
        }
    }
    panic!("launch did not finish");
}

#[test]
fn successful_launch_exits_zero() {
    let setup = setup_next(SetupStep::Hostname, Ok(()));
    assert_eq!(setup, Ok(SetupStep::Mounts));
    let mut step = SetupStep::Hostname;
    while step != SetupStep::Ready {
        step = setup_next(step, Ok(())).unwrap();
    }
    assert_eq!(child_exit_status(&Ok(())), 0);
    let (seen, r) = run_launch(&[Ok(()); 7]);
    assert_eq!(r, Ok(()));
    assert_eq!(exit_code(&r), 0);
    assert_eq!(seen.len(), 8);
    assert_eq!(seen[6], LaunchStep::CleanExit { failure: None });
}

#[test]
fn old_kernel_fails_before_any_operation() {
    let verdict = check_linux_version(b"3.10.0", b"x86_64");
    let (seen, r) = run_launch(&[verdict]);
    assert_eq!(r, Err(Errcode::NotSupported(0)));
    assert_eq!(seen, vec![LaunchStep::CheckPlatform, LaunchStep::Exit(Err(Errcode::NotSupported(0)))]);
    assert_eq!(exit_code(&r), 1);
}

#[test]
fn missing_mount_source_still_cleans_up() {
    let bind = mount_next(MountStep::BindSource, false);
    assert_eq!(bind, Ok(MountStep::RemoveNewRoot { code: 6 }));
    let bind = mount_next(MountStep::RemoveNewRoot { code: 6 }, true);
    assert_eq!(bind, Err(Errcode::MountsError(6)));
    let child = setup_next(SetupStep::Mounts, bind.map(|_| ()));
    assert_eq!(child, Err(Errcode::MountsError(6)));
    assert_eq!(child_exit_status(&child.map(|_| ())), -1);
    let lost = Err(Errcode::SocketError(2));
    let (seen, r) = run_launch(&[Ok(()), Ok(()), Ok(()), Ok(()), lost, Err(Errcode::SocketError(3))]);
    assert_eq!(r, lost);
    assert_eq!(seen[5], LaunchStep::CleanExit { failure: Some(Errcode::SocketError(2)) });
}

#[test]
fn cleanup_runs_every_step_once() {
    let mut c = Cleanup::new();
    let mut steps = vec![c.step];
    c.advance(Err(Errcode::ContainerError(9)));
    steps.push(c.step);
    c.advance(Err(Errcode::ContainerError(9)));
    steps.push(c.step);
    c.advance(Ok(()));
    steps.push(c.step);
    c.advance(Err(Errcode::ResourcesError(1)));
    steps.push(c.step);
    c.advance(Ok(()));
    assert_eq!(
        steps,
        vec![CleanStep::CloseParentEnd, CleanStep::CloseChildEnd, CleanStep::CleanMounts, CleanStep::CleanCgroups, CleanStep::Done]
    );
    assert_eq!(c.result(), Err(Errcode::SocketError(3)));
    let mut ok = Cleanup::new();
    for _ in 0..4 {
        ok.advance(Ok(()));
    }
    assert_eq!(ok.step, CleanStep::Done);
    assert_eq!(ok.result(), Ok(()));
    let mut late = Cleanup::new();
    late.advance(Ok(()));
    late.advance(Err(Errcode::SocketError(0)));
    assert_eq!(late.result(), Err(Errcode::SocketError(4)));
}

fn run_mount(fail_at: MountStep) -> (Vec<MountStep>, Result<MountStep, Errcode>) {
    let mut step = MountStep::first();
    let mut seen = vec![step];
    loop {
        match mount_next(step, step != fail_at) {
            Ok(MountStep::Done) => return (seen, Ok(MountStep::Done)),
            Ok(n) => {
                step = n;
                seen.push(n);
            }
            Err(e) => return (seen, Err(e)),
        }
    }
}

#[test]
fn every_mount_step_has_its_own_code() {
    let steps = [
        MountStep::PrivatizeRoot,
        MountStep::CreateNewRoot,
        MountStep::BindSource,
        MountStep::CreateOldRoot,
        MountStep::PivotRoot,
        MountStep::ChdirRoot,
        MountStep::UnmountOldRoot,
        MountStep::DeleteOldRoot,
    ];
    let codes: Vec<Errcode> = steps.iter().map(|s| run_mount(*s).1.unwrap_err()).collect();
    assert_eq!(
        codes,
        vec![
            Errcode::MountsError(3),
            Errcode::MountsError(2),
            Errcode::MountsError(6),
            Errcode::MountsError(7),
            Errcode::MountsError(4),
            Errcode::MountsError(5),
            Errcode::MountsError(0),
            Errcode::MountsError(1),
        ]
    );
}

#[test]
fn failed_pivot_undoes_host_changes() {
    let (seen, r) = run_mount(MountStep::PivotRoot);
    assert_eq!(r, Err(Errcode::MountsError(4)));
    assert_eq!(
        seen[5..].to_vec(),
        vec![
            MountStep::RemovePutOld { code: 4 },
            MountStep::UnbindNewRoot { code: 4 },
            MountStep::RemoveNewRoot { code: 4 },
        ]
    );
    assert!(!seen.contains(&MountStep::UnmountOldRoot));
    let (seen, r) = run_mount(MountStep::CreateOldRoot);
    assert_eq!(r, Err(Errcode::MountsError(7)));
    assert_eq!(seen[4..].to_vec(), vec![MountStep::UnbindNewRoot { code: 7 }, MountStep::RemoveNewRoot { code: 7 }]);
    assert_eq!(
        mount_next(MountStep::UnbindNewRoot { code: 7 }, false),
        Ok(MountStep::RemoveNewRoot { code: 7 })
    );
    let (seen, r) = run_mount(MountStep::CreateNewRoot);
    assert_eq!(r, Err(Errcode::MountsError(2)));
    assert_eq!(seen.len(), 2);
}

#[test]
fn syscall_names() {
    assert_eq!(Syscall::Keyctl.name(), Some("keyctl"));
    assert_eq!(Syscall::AddKey.name(), Some("add_key"));
    assert_eq!(Syscall::PerfEventOpen.name(), Some("perf_event_open"));
    assert_eq!(Syscall::Fchmodat.name(), Some("fchmodat"));
    assert_eq!(Syscall::Clone.name(), Some("clone"));
}

#[test]
fn map_line_bytes() {
    assert_eq!(IdMapping::default_mapping().map_line(), b"0 10000 2000".to_vec());
    let m = IdMapping { inside: 7, outside: 4294967295, count: 10 };
    assert_eq!(m.map_line(), b"7 4294967295 10".to_vec());
}

#[test]
fn install_loads_only_after_all_rules() {
    let p = syscall_policy();
    assert_eq!(InstallStep::first(), InstallStep::Init);
    assert_eq!(p.install_next(InstallStep::Init, true), Ok(InstallStep::AddRule(0)));
    assert_eq!(p.install_next(InstallStep::Init, false), Err(Errcode::SyscallsError(1)));
    assert_eq!(p.install_next(InstallStep::AddRule(0), true), Ok(InstallStep::AddRule(1)));
    assert_eq!(p.install_next(InstallStep::AddRule(3), false), Err(Errcode::SyscallsError(2)));
    assert_eq!(p.install_next(InstallStep::AddRule(9), false), Err(Errcode::SyscallsError(3)));
    assert_eq!(p.install_next(InstallStep::AddRule(16), true), Ok(InstallStep::AddRule(17)));
    assert_eq!(p.install_next(InstallStep::AddRule(17), true), Ok(InstallStep::Load));
    assert_eq!(p.install_next(InstallStep::Load, false), Err(Errcode::SyscallsError(0)));
    assert_eq!(p.install_next(InstallStep::Load, true), Ok(InstallStep::Done));
}

#[test]
fn namespace_flags_match_libc() {
    let expected = libc::CLONE_NEWNS
        | libc::CLONE_NEWCGROUP
        | libc::CLONE_NEWPID
        | libc::CLONE_NEWIPC
        | libc::CLONE_NEWNET
        | libc::CLONE_NEWUTS;
    assert_eq!(NAMESPACE_FLAGS as i32, expected);
    assert_eq!(NAMESPACE_FLAGS as i32 & libc::CLONE_NEWUSER, 0);
    assert_eq!(SetupStep::first(), SetupStep::Hostname);
    assert_eq!(ChildStep::first(), ChildStep::Unshare);
    assert_eq!(ParentStep::first(), ParentStep::AwaitSupport);
}
