use aft::config::{Config, Platform};
use aft::context::AppContext;
use aft::lifecycle::{advance, ReceiverSlot, ReceiverTerminalGuard, SubcLifecycleAdmission};
use aft::memory_admission::MemoryAdmissionLedger;

fn context() -> AppContext {
    AppContext::new(Config::default(), Platform::Unix)
}

#[test]
fn route_teardown_does_not_supersede_disk_artifact_compatibility() {
    let mut ctx = context();
    ctx.note_configure_warm_key("config-a".to_string());
    let content_generation = ctx.configure_content_generation();
    let lifecycle_generation = ctx.configure_generation();
    let search_epoch = ctx.next_search_persist_epoch();
    let semantic_epoch = ctx.next_semantic_persist_epoch();

    ctx.mark_subc_unbound();
    assert!(ctx.configure_generation() > lifecycle_generation);
    assert_eq!(ctx.configure_content_generation(), content_generation);
    assert_eq!(ctx.search.persist_epoch, search_epoch);
    assert_eq!(ctx.semantic.persist_epoch, semantic_epoch);

    ctx.mark_subc_bound();
    ctx.note_configure_warm_key("config-b".to_string());
    assert!(ctx.configure_content_generation() > content_generation);
    let replacement_search_epoch = ctx.next_search_persist_epoch();
    let replacement_semantic_epoch = ctx.next_semantic_persist_epoch();
    assert!(replacement_search_epoch > search_epoch);
    assert!(replacement_semantic_epoch > semantic_epoch);
    assert_eq!(ctx.search.persist_epoch, replacement_search_epoch);
    assert_eq!(ctx.semantic.persist_epoch, replacement_semantic_epoch);
}

#[test]
fn unbound_lifecycle_rejects_all_deferred_worker_starts() {
    let mut admission = SubcLifecycleAdmission { unbound: false, generation: 7 };
    admission.mark_unbound();
    let expected = admission.generation;
    assert_eq!(expected, 8);
    for _ in 0..16 {
        assert!(!admission.is_current(expected));
    }
    assert!(admission.is_unbound());
}

#[test]
fn rebinding_leaves_older_work_behind() {
    let mut admission = SubcLifecycleAdmission::new();
    let before = admission.generation;
    assert!(admission.is_current(before));
    admission.mark_unbound();
    admission.mark_bound();
    assert!(admission.is_bound());
    assert!(!admission.is_current(before));
    assert!(admission.is_current(admission.generation));
}

#[test]
fn counters_wrap_instead_of_overflowing() {
    assert_eq!(advance(0), 1);
    assert_eq!(advance(u64::MAX), 0);
}

#[test]
fn replaced_receivers_are_refused() {
    let admission = SubcLifecycleAdmission::new();
    let mut slot = ReceiverSlot::empty();
    let old = slot.install(admission.generation);
    let new = slot.install(admission.generation);
    assert!(!slot.is_current(&admission, admission.generation, old));
    assert!(slot.is_current(&admission, admission.generation, new));
    assert_eq!(slot.retire_if_epoch(old), None);
    assert!(slot.present);
    assert_eq!(slot.retire_if_epoch(new), Some(true));
    assert!(!slot.present);
}

#[test]
fn adopted_receivers_move_to_the_new_generation() {
    let mut slot = ReceiverSlot::empty();
    assert!(!slot.adopt(4));
    let epoch = slot.install(3);
    assert!(slot.adopt(4));
    assert_eq!((slot.generation, slot.epoch), (4, epoch));
}

#[test]
fn terminal_watermarks_never_move_backward() {
    assert_eq!(ReceiverTerminalGuard::new(2).release(5), 5);
    assert_eq!(ReceiverTerminalGuard::new(6).release(5), 6);
}

#[test]
fn equal_warm_keys_keep_the_content_generation() {
    let mut ctx = context();
    let (first, equivalent) = ctx.note_configure_warm_key("a".to_string());
    assert!(!equivalent);
    let (second, equivalent) = ctx.note_configure_warm_key("a".to_string());
    assert!(equivalent);
    assert_eq!(first, second);
    assert!(ctx.configure_warm_key_matches("a"));
    ctx.invalidate_configure_warm_state();
    assert!(!ctx.configure_warm_key_matches("a"));
}

#[test]
fn heavy_work_needs_a_bound_route_and_an_open_root() {
    let mut ctx = context();
    assert!(ctx.heavy_root_work_allowed());
    ctx.set_heavy_root_work_allowed(false);
    assert!(!ctx.heavy_root_work_allowed());
    ctx.set_heavy_root_work_allowed(true);
    ctx.mark_subc_unbound();
    assert!(!ctx.heavy_root_work_allowed());
    assert!(ctx.subc_unbound_quiesced());
    assert_eq!(ctx.try_heavy_root_work_allowed(None), None);
    assert_eq!(ctx.try_heavy_root_work_allowed(Some(true)), Some(true));
}

#[test]
fn a_new_configuration_sets_the_memory_limit() {
    let mut ctx = context();
    let mut ledger = MemoryAdmissionLedger::new(None);
    let mut config = Config::default();
    config.memory.limit_bytes = Some(4096);
    ctx.set_config(config, &mut ledger);
    assert_eq!(ledger.snapshot().limit_bytes, Some(4096));
    assert_eq!(ctx.config.memory.limit_bytes, Some(4096));
}
