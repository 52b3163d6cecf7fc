use softpwm::channel::Channel;
use softpwm::duty::DutyCycle;
use softpwm::duty::DUTY_FULL;
use softpwm::store::DutyStore;

#[test]
fn store_returns_the_initial_value() {
    let store = DutyStore::new(DutyCycle::new(123_456));
    assert_eq!(store.read().parts, 123_456);
}

#[test]
fn store_write_is_observed_by_the_next_read() {
    let store = DutyStore::new(DutyCycle::zero());
    store.write(DutyCycle::new(750_000));
    assert_eq!(store.read().parts, 750_000);
}

#[test]
fn control_handle_writes_reach_the_original_store() {
    let store = DutyStore::new(DutyCycle::zero());
    let control = store.control_handle();
    control.write(DutyCycle::new(250_000));
    assert_eq!(store.read().parts, 250_000);
}

#[test]
fn channel_at_1_khz_has_a_one_millisecond_period() {
    let channel = Channel::new(1000, DutyCycle::zero());
    assert_eq!(channel.frequency_hz(), 1000);
    assert_eq!(channel.period_ns(), 1_000_000);
}

#[test]
fn channel_plan_uses_the_duty_cycle_read_at_iteration_start() {
    let channel = Channel::new(1000, DutyCycle::new(DUTY_FULL / 2));
    let (duty, plan) = channel.plan_next();
    assert_eq!(duty.parts, DUTY_FULL / 2);
    assert_eq!(plan.high_ns, 500_000);
    assert_eq!(plan.low_ns, 500_000);
}

#[test]
fn control_write_is_picked_up_by_the_following_iteration() {
    let channel = Channel::new(1000, DutyCycle::zero());
    let control = channel.control_handle();
    let (_, before) = channel.plan_next();
    assert_eq!(before.high_ns, 0);
    control.write(DutyCycle::new(DUTY_FULL / 2));
    let (_, after) = channel.plan_next();
    assert_eq!(after.high_ns, 500_000);
}

#[test]
fn channels_do_not_share_duty_state() {
    let first = Channel::new(1000, DutyCycle::zero());
    let second = Channel::new(2000, DutyCycle::zero());
    first.control_handle().write(DutyCycle::full());
    // The write to the first channel's store leaves the second channel's
    // iterations untouched.
    let (duty, plan) = second.plan_next();
    assert_eq!(duty.parts, 0);
    assert_eq!(plan.high_ns, 0);
    assert_eq!(plan.low_ns, 500_000);
    let (_, first_plan) = first.plan_next();
    assert_eq!(first_plan.high_ns, 1_000_000);
}

#[test]
fn channel_correction_absorbs_overrun() {
    let channel = Channel::new(1000, DutyCycle::zero());
    assert_eq!(channel.correction(400_000), 600_000);
    assert_eq!(channel.correction(1_000_000), 0);
    assert_eq!(channel.correction(2_500_000), 0);
}

#[test]
fn three_channels_follow_their_own_control_writes() {
    // Three channels at 1000 Hz start at duty cycle zero; each shows no
    // high time until its own control write arrives, then the new ratio
    // from its next iteration on.
    let channels = [
        Channel::new(1000, DutyCycle::zero()),
        Channel::new(1000, DutyCycle::zero()),
        Channel::new(1000, DutyCycle::zero()),
    ];
    let controls = [
        channels[0].control_handle(),
        channels[1].control_handle(),
        channels[2].control_handle(),
    ];
    for channel in &channels {
        let (duty, plan) = channel.plan_next();
        assert_eq!(duty.parts, 0);
        assert_eq!(plan.high_ns, 0);
        assert_eq!(plan.low_ns, 1_000_000);
    }

    let targets: [u64; 3] = [500_000, 750_000, 250_000];
    for (control, target) in controls.iter().zip(targets.iter()) {
        control.write(DutyCycle::new(*target));
    }
    let expected_high: [u64; 3] = [500_000, 750_000, 250_000];
    for (channel, high) in channels.iter().zip(expected_high.iter()) {
        let (_, plan) = channel.plan_next();
        assert_eq!(plan.high_ns, *high);
        assert_eq!(plan.low_ns, 1_000_000 - *high);
    }
}
