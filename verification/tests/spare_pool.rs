use clap_mml_play_server::spare_pool::instance_build_threads;
use clap_mml_play_server::spare_pool::{
    parse_spare_target, plan_bank_instances, spare_target, split_spare_target, LiveInstancesSpec,
    SpareLedger, SwapStep, MAX_DEFAULT_SPARE_TARGET,
};

/// The ledger of a setup whose slots all sit in one bank.
fn live_instances(kind_count: usize, slot_count: usize) -> SpareLedger {
    let [bank0, _] = plan_bank_instances(kind_count, [slot_count, 0], None);
    SpareLedger::new(bank0)
}

#[test]
fn a_single_plugin_setup_builds_no_spares_at_all() {
    let instances = live_instances(1, 4);

    assert_eq!(instances.spare_target, 0);
    assert!(!instances.has_builder);
}

#[test]
fn a_spare_target_prepays_one_per_slot_up_to_the_cap() {
    assert_eq!(spare_target(4, None), 4);
    assert_eq!(spare_target(MAX_DEFAULT_SPARE_TARGET, None), MAX_DEFAULT_SPARE_TARGET);
    assert_eq!(spare_target(32, None), MAX_DEFAULT_SPARE_TARGET);
    assert_eq!(spare_target(32, Some(1)), 1);
    assert_eq!(parse_spare_target(Some(" 3 ")), Some(3));
    assert_eq!(parse_spare_target(Some("many")), None);
    assert_eq!(parse_spare_target(None), None);
}

#[test]
fn a_prepaid_spares_are_all_ordered_up_front() {
    let instances = live_instances(2, 8);

    assert_eq!(instances.spare_target, 8);
    assert_eq!(instances.outstanding[0], 0);
    assert_eq!(instances.outstanding[1], 8);
}

#[test]
fn floe_is_retained_as_its_own_spare_pool_kind() {
    let instances = live_instances(4, 4);

    assert_eq!(instances.spares.len(), 4);
    assert_eq!(instances.outstanding, vec![0, 4, 4, 4]);
}

#[test]
fn splitting_the_spare_target_across_banks_keeps_the_total() {
    for total in 0..=9 {
        let split = split_spare_target(total, [7, 7]);
        assert_eq!(split[0] + split[1], total, "total={total}");
        assert!(split[0] >= split[1], "total={total}");
    }
}

#[test]
fn a_bank_without_slots_gets_no_spare_target() {
    assert_eq!(split_spare_target(8, [1, 0]), [8, 0]);
}

#[test]
fn a_prepaid_spares_are_ordered_by_each_bank() {
    let banks = plan_bank_instances(2, [7, 7], None).map(SpareLedger::new);

    assert_eq!(banks[0].spare_target, 4);
    assert_eq!(banks[1].spare_target, 4);
    assert_eq!(banks[0].spare_target + banks[1].spare_target, spare_target(14, None));
    assert_eq!(banks[0].outstanding, vec![0, 4]);
    assert_eq!(banks[1].outstanding, vec![0, 4]);
    assert!(banks.iter().all(|bank| bank.has_builder));
}

#[test]
fn a_bank_without_a_prepaid_target_orders_on_demand() {
    let mut ledger = SpareLedger::new(LiveInstancesSpec {
        bank: 1,
        kind_count: 2,
        slot_count: 1,
        spare_target: 0,
        has_builder: true,
    });
    assert_eq!(ledger.outstanding, vec![0, 0]);

    assert_eq!(ledger.begin_swap(0, 1), SwapStep::NeedSpare { orders: 1 });
    assert_eq!(ledger.outstanding, vec![0, 1]);
    ledger.accept(1, 1, true);
    assert_eq!(ledger.spares, vec![0, 1]);
    assert_eq!(ledger.begin_swap(0, 1), SwapStep::Swapped { orders: 0 });
    assert_eq!(ledger.slot_kind, vec![1]);
    assert_eq!(ledger.spares, vec![1, 0]);
    assert_eq!(ledger.begin_swap(0, 1), SwapStep::Unchanged);
    assert_eq!(ledger.begin_swap(0, 0), SwapStep::Swapped { orders: 0 });
    assert_eq!(ledger.spares, vec![0, 1]);
}

#[test]
fn without_a_builder_a_missing_spare_cannot_be_had() {
    let mut ledger = live_instances(1, 2);
    let mut two_kinds = SpareLedger::new(LiveInstancesSpec {
        bank: 0,
        kind_count: 2,
        slot_count: 2,
        spare_target: 0,
        has_builder: false,
    });
    assert_eq!(two_kinds.begin_swap(1, 1), SwapStep::NoBuilder);
    assert_eq!(ledger.begin_swap(0, 0), SwapStep::Unchanged);
}

#[test]
fn outcomes_for_the_other_bank_are_ignored_and_orders_can_be_taken_back() {
    let mut ledger = live_instances(2, 4);
    ledger.accept(1, 1, true);
    assert_eq!(ledger.spares, vec![0, 0]);
    assert_eq!(ledger.outstanding, vec![0, 4]);
    ledger.cancel_order(1);
    assert_eq!(ledger.outstanding, vec![0, 3]);
    assert_eq!(ledger.refill(1), 1);
    assert_eq!(ledger.outstanding, vec![0, 4]);
    ledger.accept(0, 1, false);
    assert_eq!(ledger.outstanding, vec![0, 3]);
}

#[test]
fn instance_builds_use_the_configured_threads_up_to_the_instance_count() {
    assert_eq!(instance_build_threads(None, 12, 16), 12);
    assert_eq!(instance_build_threads(Some(" 3 "), 12, 16), 3);
    assert_eq!(instance_build_threads(Some("0"), 12, 16), 12);
    assert_eq!(instance_build_threads(Some("many"), 12, 16), 12);
    assert_eq!(instance_build_threads(Some("64"), 12, 16), 16);
}

#[test]
fn a_swap_refills_only_the_plugin_it_took_a_spare_of() {
    let mut ledger = SpareLedger::new(LiveInstancesSpec {
        bank: 0,
        kind_count: 3,
        slot_count: 2,
        spare_target: 2,
        has_builder: true,
    });
    assert_eq!(ledger.outstanding, vec![0, 2, 2]);
    ledger.accept(0, 1, true);
    ledger.accept(0, 1, true);
    ledger.accept(0, 2, true);
    assert_eq!(ledger.spares, vec![0, 2, 1]);
    assert_eq!(ledger.outstanding, vec![0, 0, 1]);

    assert_eq!(ledger.begin_swap(1, 1), SwapStep::Swapped { orders: 1 });
    assert_eq!(ledger.slot_kind, vec![0, 1]);
    assert_eq!(ledger.spares, vec![1, 1, 1]);
    assert_eq!(ledger.outstanding, vec![0, 1, 1]);
}
