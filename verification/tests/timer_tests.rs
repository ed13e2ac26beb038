use sai_timer_hal::ExecContext;
use sai_timer_hal::NativeError;
use sai_timer_hal::timer::config::Config;
use sai_timer_hal::timer::registry::CallbackRegistry;
use sai_timer_hal::timer::registry::SLOT_COUNT;
use sai_timer_hal::timer::TimerAction;
use sai_timer_hal::timer::TimerDriver;
use sai_timer_hal::timer::TimerHwConfig;
use sai_timer_hal::timer::TIMER00;
use sai_timer_hal::timer::TIMER11;

fn make_driver(config: &Config) -> TimerDriver<TIMER00> {
    let setup = TimerDriver::new(TIMER00::new(), config);
    match setup.complete(Ok(())) {
        Ok(d) => d,
        Err(_) => panic!("a successful installation must yield a driver"),
    }
}

#[test]
fn config_default_and_builders() {
    let c = Config::new();
    assert_eq!(c.divider, 80);
    assert!(!c.xtal);
    assert_eq!(c, Config::default());

    let c = Config::new().divider(8).xtal(true);
    assert_eq!(c.divider, 8);
    assert!(c.xtal);
}

#[test]
fn construction_installs_a_paused_upward_counter() {
    let setup = TimerDriver::new(TIMER00::new(), &Config::new().divider(80));
    let expected = TimerHwConfig {
        alarm_en: false,
        counter_en: false,
        count_up: true,
        auto_reload: false,
        level_intr: true,
        divider: 80,
        xtal: false,
    };
    assert_eq!(
        setup.init_action(),
        TimerAction::Init { group: 0, index: 0, config: expected }
    );
    assert!(setup.complete(Ok(())).is_ok());
}

#[test]
fn failed_construction_returns_token_and_error() {
    let setup = TimerDriver::new(TIMER00::new(), &Config::new());
    let err = NativeError { code: 0x101 };
    let (timer, back) = match setup.complete(Err(err)) {
        Err(p) => p,
        Ok(_) => panic!("a failed installation must not yield a driver"),
    };
    assert_eq!(back, err);

    // The identity token came back: the construction can be retried.
    let retry = TimerDriver::new(timer, &Config::new());
    assert!(retry.complete(Ok(())).is_ok());
}

#[test]
fn enable_starts_and_pauses() {
    let mut driver = make_driver(&Config::new());
    let a = driver.enable(true, ExecContext::Normal);
    assert_eq!(a, TimerAction::Start { group: 0, index: 0 });
    let a = driver.enable(false, ExecContext::Normal);
    assert_eq!(a, TimerAction::Pause { group: 0, index: 0 });
}

#[test]
fn counter_read_dispatches_on_context() {
    let driver = make_driver(&Config::new());
    let a = driver.counter(ExecContext::Normal);
    assert_eq!(a, TimerAction::GetCounter { group: 0, index: 0 });
    let a = driver.counter(ExecContext::Interrupt);
    assert_eq!(a, TimerAction::GetCounterInIsr { group: 0, index: 0 });
}

#[test]
fn counter_write_is_normal_context_only() {
    let mut driver = make_driver(&Config::new());
    let a = driver.set_counter(77, ExecContext::Normal);
    assert_eq!(a, TimerAction::SetCounter { group: 0, index: 0, value: 77 });
}

#[test]
fn alarm_enable_is_asymmetric_across_contexts() {
    let mut driver = make_driver(&Config::new());
    let a = driver.enable_alarm(true, ExecContext::Normal);
    assert_eq!(a, TimerAction::SetAlarmEnable { group: 0, index: 0, enable: true });
    let a = driver.enable_alarm(false, ExecContext::Normal);
    assert_eq!(a, TimerAction::SetAlarmEnable { group: 0, index: 0, enable: false });
    // Enabling is the one alarm-state change that is legal from interrupt
    // context; disabling from there is excluded by contract.
    let a = driver.enable_alarm(true, ExecContext::Interrupt);
    assert_eq!(a, TimerAction::EnableAlarmInIsr { group: 0, index: 0 });
}

#[test]
fn alarm_value_paths() {
    let mut driver = make_driver(&Config::new());
    let a = driver.alarm(ExecContext::Normal);
    assert_eq!(a, TimerAction::GetAlarm { group: 0, index: 0 });
    let a = driver.set_alarm(1000, ExecContext::Normal);
    assert_eq!(a, TimerAction::SetAlarmValue { group: 0, index: 0, value: 1000 });
    let a = driver.set_alarm(2000, ExecContext::Interrupt);
    assert_eq!(a, TimerAction::SetAlarmValueInIsr { group: 0, index: 0, value: 2000 });
}

#[test]
fn interrupt_mask_controls() {
    let mut driver = make_driver(&Config::new());
    let a = driver.enable_interrupt(ExecContext::Normal);
    assert_eq!(a, TimerAction::EnableIntr { group: 0, index: 0 });
    let a = driver.disable_interrupt(ExecContext::Normal);
    assert_eq!(a, TimerAction::DisableIntr { group: 0, index: 0 });
}

#[test]
fn registry_starts_empty() {
    let registry: CallbackRegistry<u32> = CallbackRegistry::new();
    for slot in 0..SLOT_COUNT {
        assert!(!registry.is_subscribed(slot));
        assert!(registry.handler(slot).is_none());
    }
}

#[test]
fn subscribe_on_empty_slot_registers_then_unmasks() {
    let mut registry: CallbackRegistry<u32> = CallbackRegistry::new();
    let mut driver = make_driver(&Config::new());
    let plan = driver.subscribe(&mut registry, 7, ExecContext::Normal);
    assert_eq!(
        plan,
        vec![
            TimerAction::AddIsrCallback { group: 0, index: 0 },
            TimerAction::EnableIntr { group: 0, index: 0 },
        ]
    );
    assert!(registry.is_subscribed(0));
    assert_eq!(*registry.handler(0), Some(7));
}

#[test]
fn second_subscribe_replaces_the_first() {
    let mut registry: CallbackRegistry<u32> = CallbackRegistry::new();
    let mut driver = make_driver(&Config::new());
    let _ = driver.subscribe(&mut registry, 1, ExecContext::Normal);
    let plan = driver.subscribe(&mut registry, 2, ExecContext::Normal);
    // The old registration is torn down first, interrupt masked before its
    // trampoline goes away, then the new handler is registered.
    assert_eq!(
        plan,
        vec![
            TimerAction::DisableIntr { group: 0, index: 0 },
            TimerAction::RemoveIsrCallback { group: 0, index: 0 },
            TimerAction::AddIsrCallback { group: 0, index: 0 },
            TimerAction::EnableIntr { group: 0, index: 0 },
        ]
    );
    // Exactly one handler is active: the second.
    assert_eq!(*registry.handler(0), Some(2));
    for slot in 1..SLOT_COUNT {
        assert!(!registry.is_subscribed(slot));
    }
    // Unsubscribing afterwards leaves the slot empty.
    let _ = driver.unsubscribe(&mut registry, ExecContext::Normal);
    assert!(!registry.is_subscribed(0));
}

#[test]
fn unsubscribe_masks_interrupt_before_removal() {
    let mut registry: CallbackRegistry<u32> = CallbackRegistry::new();
    let mut driver = make_driver(&Config::new());
    let _ = driver.subscribe(&mut registry, 9, ExecContext::Normal);
    let plan = driver.unsubscribe(&mut registry, ExecContext::Normal);
    assert_eq!(
        plan,
        vec![
            TimerAction::DisableIntr { group: 0, index: 0 },
            TimerAction::RemoveIsrCallback { group: 0, index: 0 },
        ]
    );
    assert!(!registry.is_subscribed(0));
}

#[test]
fn unsubscribe_on_empty_slot_is_a_noop() {
    let mut registry: CallbackRegistry<u32> = CallbackRegistry::new();
    let mut driver = make_driver(&Config::new());
    let plan = driver.unsubscribe(&mut registry, ExecContext::Normal);
    assert!(plan.is_empty());
    for slot in 0..SLOT_COUNT {
        assert!(!registry.is_subscribed(slot));
    }
    // And a second time, still a no-op.
    let plan = driver.unsubscribe(&mut registry, ExecContext::Normal);
    assert!(plan.is_empty());
}

#[test]
fn instances_use_distinct_slots() {
    let mut registry: CallbackRegistry<u32> = CallbackRegistry::new();
    let mut first = make_driver(&Config::new());
    let setup = TimerDriver::new(TIMER11::new(), &Config::new());
    assert_eq!(setup.init_action(), TimerAction::Init {
        group: 1,
        index: 1,
        config: TimerHwConfig {
            alarm_en: false,
            counter_en: false,
            count_up: true,
            auto_reload: false,
            level_intr: true,
            divider: 80,
            xtal: false,
        },
    });
    let mut second = match setup.complete(Ok(())) {
        Ok(d) => d,
        Err(_) => panic!("a successful installation must yield a driver"),
    };
    let _ = first.subscribe(&mut registry, 10, ExecContext::Normal);
    let _ = second.subscribe(&mut registry, 11, ExecContext::Normal);
    assert_eq!(*registry.handler(0), Some(10));
    assert_eq!(*registry.handler(3), Some(11));
    let _ = first.unsubscribe(&mut registry, ExecContext::Normal);
    assert!(!registry.is_subscribed(0));
    assert_eq!(*registry.handler(3), Some(11));
}

#[test]
fn release_tears_down_subscription_then_engine() {
    let mut registry: CallbackRegistry<u32> = CallbackRegistry::new();
    let mut driver = make_driver(&Config::new());
    let _ = driver.subscribe(&mut registry, 5, ExecContext::Normal);
    let (timer, plan) = driver.release(&mut registry, ExecContext::Normal);
    assert_eq!(
        plan,
        vec![
            TimerAction::DisableIntr { group: 0, index: 0 },
            TimerAction::RemoveIsrCallback { group: 0, index: 0 },
            TimerAction::Deinit { group: 0, index: 0 },
        ]
    );
    assert!(!registry.is_subscribed(0));

    // The identity token came back: a fresh driver can be constructed.
    let setup = TimerDriver::new(timer, &Config::new());
    let driver = match setup.complete(Ok(())) {
        Ok(d) => d,
        Err(_) => panic!("a successful installation must yield a driver"),
    };
    let (_timer, plan) = driver.release(&mut registry, ExecContext::Normal);
    assert_eq!(plan, vec![TimerAction::Deinit { group: 0, index: 0 }]);
}
