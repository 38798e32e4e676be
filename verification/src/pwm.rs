//! The PWM binding: a pin associated with a timer counter channel, exposing
//! enable/disable, duty and max-duty access and the preload toggle. No
//! runtime state machine lives here; the flash core never touches it.

use vstd::prelude::*;

verus! {

/// A digital output pin that a timer channel can drive.
pub trait GpioPin: Sized {

}

/// A timer counter channel: a duty register (capture/compare), an auto-reload
/// register giving the maximal duty, an output-enable and a preload flag.
pub trait TimerChannel: Sized {
    /// The channel output is enabled.
    spec fn enabled(&self) -> bool;

    /// Value of the capture/compare (duty) register.
    spec fn duty(&self) -> u32;

    /// Value of the auto-reload register: the maximal duty.
    spec fn max_duty(&self) -> u32;

    /// The preload flag of the channel.
    spec fn preload_enabled(&self) -> bool;

    /// Enable the channel output.
    fn enable(&mut self)
        ensures
            final(self).enabled(),
            final(self).duty() == old(self).duty(),
            final(self).max_duty() == old(self).max_duty(),
            final(self).preload_enabled() == old(self).preload_enabled(),
    ;

    /// Disable the channel output.
    fn disable(&mut self)
        ensures
            !final(self).enabled(),
            final(self).duty() == old(self).duty(),
            final(self).max_duty() == old(self).max_duty(),
            final(self).preload_enabled() == old(self).preload_enabled(),
    ;

    /// Read the capture/compare register.
    fn read_ccr(&self) -> (r: u32)
        ensures
            r == self.duty(),
    ;

    /// Read the auto-reload register.
    fn read_arr(&self) -> (r: u32)
        ensures
            r == self.max_duty(),
    ;

    /// Write the capture/compare register.
    fn write_ccr(&mut self, duty: u32)
        ensures
            final(self).duty() == duty,
            final(self).enabled() == old(self).enabled(),
            final(self).max_duty() == old(self).max_duty(),
            final(self).preload_enabled() == old(self).preload_enabled(),
    ;

    /// Set the preload flag.
    fn preload(&mut self, enabled: bool)
        ensures
            final(self).preload_enabled() == enabled,
            final(self).enabled() == old(self).enabled(),
            final(self).duty() == old(self).duty(),
            final(self).max_duty() == old(self).max_duty(),
    ;
}

/// A compile-time association of a pin with a timer channel. Construction
/// consumes both; `release` gives them back.
pub struct PwmBinding<P: GpioPin, C: TimerChannel> {
    /// The bound output pin.
    pub pin: P,
    /// The timer channel driving it.
    pub channel: C,
}

impl<P: GpioPin, C: TimerChannel> PwmBinding<P, C> {
    /// Bind `pin` to `channel`.
    pub fn new(pin: P, channel: C) -> (r: PwmBinding<P, C>)
        ensures
            r.pin == pin,
            r.channel == channel,
    {
        PwmBinding { pin, channel }
    }

    /// Consumes the binding, returning pin and channel.
    pub fn release(self) -> (r: (P, C))
        ensures
            r.0 == self.pin,
            r.1 == self.channel,
    {
        (self.pin, self.channel)
    }

    /// Disable the channel output.
    pub fn try_disable(&mut self)
        ensures
            !final(self).channel.enabled(),
            final(self).channel.duty() == old(self).channel.duty(),
            final(self).channel.max_duty() == old(self).channel.max_duty(),
            final(self).channel.preload_enabled() == old(self).channel.preload_enabled(),
            final(self).pin == old(self).pin,
    {
        self.channel.disable()
    }

    /// Enable the channel output.
    pub fn try_enable(&mut self)
        ensures
            final(self).channel.enabled(),
            final(self).channel.duty() == old(self).channel.duty(),
            final(self).channel.max_duty() == old(self).channel.max_duty(),
            final(self).channel.preload_enabled() == old(self).channel.preload_enabled(),
            final(self).pin == old(self).pin,
    {
        self.channel.enable()
    }

    /// The current duty, read from the capture/compare register.
    pub fn try_get_duty(&self) -> (r: u32)
        ensures
            r == self.channel.duty(),
    {
        self.channel.read_ccr()
    }

    /// The maximal duty, read from the auto-reload register.
    pub fn try_get_max_duty(&self) -> (r: u32)
        ensures
            r == self.channel.max_duty(),
    {
        self.channel.read_arr()
    }

    /// Set the duty by writing the capture/compare register.
    pub fn try_set_duty(&mut self, duty: u32)
        ensures
            final(self).channel.duty() == duty,
            final(self).channel.enabled() == old(self).channel.enabled(),
            final(self).channel.max_duty() == old(self).channel.max_duty(),
            final(self).channel.preload_enabled() == old(self).channel.preload_enabled(),
            final(self).pin == old(self).pin,
    {
        self.channel.write_ccr(duty)
    }

    /// Modify the channel's preload flag.
    pub fn channel_preload(&mut self, enabled: bool)
        ensures
            final(self).channel.preload_enabled() == enabled,
            final(self).channel.enabled() == old(self).channel.enabled(),
            final(self).channel.duty() == old(self).channel.duty(),
            final(self).channel.max_duty() == old(self).channel.max_duty(),
            final(self).pin == old(self).pin,
    {
        self.channel.preload(enabled)
    }
}

/// A simulated output pin, for driving the binding without hardware.
pub struct SimPin {
    /// Pin number, for telling simulated pins apart.
    pub number: u8,
}

impl GpioPin for SimPin {

}

/// A simulated timer channel: the channel registers as plain fields.
pub struct SimChannel {
    /// Output enabled.
    pub enabled: bool,
    /// Capture/compare (duty) register.
    pub ccr: u32,
    /// Auto-reload register.
    pub arr: u32,
    /// Preload flag.
    pub preload_on: bool,
}

impl SimChannel {
    /// A disabled channel with the given auto-reload value and zero duty.
    pub fn new(arr: u32) -> (r: SimChannel)
        ensures
            !r.enabled(),
            r.duty() == 0,
            r.max_duty() == arr,
            !r.preload_enabled(),
    {
        SimChannel { enabled: false, ccr: 0, arr, preload_on: false }
    }
}

impl TimerChannel for SimChannel {
    open spec fn enabled(&self) -> bool {
        self.enabled
    }

    open spec fn duty(&self) -> u32 {
        self.ccr
    }

    open spec fn max_duty(&self) -> u32 {
        self.arr
    }

    open spec fn preload_enabled(&self) -> bool {
        self.preload_on
    }

    fn enable(&mut self) {
        self.enabled = true;
    }

    fn disable(&mut self) {
        self.enabled = false;
    }

    fn read_ccr(&self) -> u32 {
        self.ccr
    }

    fn read_arr(&self) -> u32 {
        self.arr
    }

    fn write_ccr(&mut self, duty: u32) {
        self.ccr = duty;
    }

    fn preload(&mut self, enabled: bool) {
        self.preload_on = enabled;
    }
}

} // verus!
