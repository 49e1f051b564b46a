use jean::registry::ProcessRegistry;

#[test]
fn registry_register_replace_and_cancel() {
    let mut reg = ProcessRegistry::new();
    assert!(!reg.is_process_running("s1"));
    reg.register("s1", 10);
    reg.register("s2", 20);
    reg.register("s1", 11);
    assert_eq!(reg.pid_of("s1"), Some(11));
    assert_eq!(reg.entries.len(), 2);
    assert_eq!(reg.unregister("s1"), Some(11));
    assert!(!reg.is_process_running("s1"));
    assert!(reg.is_process_running("s2"));
    assert_eq!(reg.unregister("s1"), None);
}
