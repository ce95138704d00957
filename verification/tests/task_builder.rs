use freertos_rt::errors::Error;
use freertos_rt::freertos_task::{
    Cpu, CpuAffinity, TaskBuilder, TaskNotification, TaskPriority, E_INCREMENT, E_NO_ACTION,
    E_SET_BITS, E_SET_VALUE_WITHOUT_OVERWRITE, E_SET_VALUE_WITH_OVERWRITE, TSK_NO_AFFINITY,
};

#[test]
fn builder_defaults() {
    let req = TaskBuilder::new().prepare().expect("default name encodes");
    assert_eq!(req.name_with_nul, b"generic_rust_task\0".to_vec());
    assert_eq!(req.stack_size, 2048);
    assert_eq!(req.priority, 1);
    assert_eq!(req.core_id, TSK_NO_AFFINITY);
}

#[test]
fn builder_setters_reach_the_request() {
    let req = TaskBuilder::new()
        .name("smartconfig_example_task")
        .stack_size(4096)
        .core_affinity(CpuAffinity::Cpu(Cpu::Pro))
        .priority(TaskPriority(3))
        .prepare()
        .expect("name encodes");
    assert_eq!(req.name_with_nul, b"smartconfig_example_task\0".to_vec());
    assert_eq!(req.stack_size, 4096);
    assert_eq!(req.priority, 3);
    assert_eq!(req.core_id, 0);
}

#[test]
fn embedded_terminator_is_an_encoding_error() {
    let r = TaskBuilder::new().name("bad\0name").prepare();
    assert_eq!(r.err(), Some(Error::NotSupported));
}

#[test]
fn empty_name_still_encodes() {
    let req = TaskBuilder::new().name("").prepare().expect("empty name encodes");
    assert_eq!(req.name_with_nul, b"\0".to_vec());
}

#[test]
fn core_ids() {
    assert_eq!(CpuAffinity::Cpu(Cpu::Pro).as_core_id(), 0);
    assert_eq!(CpuAffinity::Cpu(Cpu::App).as_core_id(), 1);
    assert_eq!(CpuAffinity::NoAffinity.as_core_id(), i32::MAX);
}

#[test]
fn priority_word() {
    assert_eq!(TaskPriority(0).to_freertos(), 0);
    assert_eq!(TaskPriority(3).to_freertos(), 3);
    assert_eq!(TaskPriority(255).to_freertos(), 255);
}

#[test]
fn notification_action_codes() {
    assert_eq!(TaskNotification::NoAction.to_freertos(), (0, E_NO_ACTION));
    assert_eq!(TaskNotification::SetBits(0x30).to_freertos(), (0x30, E_SET_BITS));
    assert_eq!(TaskNotification::Increment.to_freertos(), (0, E_INCREMENT));
    assert_eq!(
        TaskNotification::OverwriteValue(7).to_freertos(),
        (7, E_SET_VALUE_WITH_OVERWRITE)
    );
    assert_eq!(
        TaskNotification::SetValue(9).to_freertos(),
        (9, E_SET_VALUE_WITHOUT_OVERWRITE)
    );
    assert_eq!(
        [
            E_NO_ACTION,
            E_SET_BITS,
            E_INCREMENT,
            E_SET_VALUE_WITH_OVERWRITE,
            E_SET_VALUE_WITHOUT_OVERWRITE
        ],
        [0, 1, 2, 3, 4]
    );
}
