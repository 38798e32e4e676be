use flash_driver::pwm::{PwmBinding, SimChannel, SimPin};

fn binding() -> PwmBinding<SimPin, SimChannel> {
    PwmBinding::new(SimPin { number: 6 }, SimChannel::new(1000))
}

#[test]
fn enable_and_disable_toggle_output() {
    let mut b = binding();
    assert!(!b.channel.enabled);
    b.try_enable();
    assert!(b.channel.enabled);
    b.try_disable();
    assert!(!b.channel.enabled);
}

#[test]
fn duty_round_trip() {
    let mut b = binding();
    assert_eq!(b.try_get_duty(), 0);
    b.try_set_duty(250);
    assert_eq!(b.try_get_duty(), 250);
    assert_eq!(b.try_get_max_duty(), 1000);
    b.try_set_duty(0);
    assert_eq!(b.try_get_duty(), 0);
}

#[test]
fn preload_flag_follows_request() {
    let mut b = binding();
    assert!(!b.channel.preload_on);
    b.channel_preload(true);
    assert!(b.channel.preload_on);
    b.channel_preload(false);
    assert!(!b.channel.preload_on);
}

#[test]
fn release_returns_pin_and_channel() {
    let mut b = binding();
    b.try_set_duty(77);
    let (pin, channel) = b.release();
    assert_eq!(pin.number, 6);
    assert_eq!(channel.ccr, 77);
    assert_eq!(channel.arr, 1000);
}
