//! PWM configuration of the timer and per-channel handles.

use core::marker::PhantomData;
use vstd::prelude::*;
use crate::bb::{self, bit_is_set, with_bit_cleared, with_bit_set};
use crate::convert::{checked_u16, widen_u16};
use crate::timing::{derive_timer_params, timer_params, PwmError};

verus! {

/// CR1 with only the counter-enable bit set: edge-aligned (CMS = 0b00),
/// counting up (DIR = 0), free-running (OPM = 0), counter enabled (CEN = 1).
pub const CR1_CEN: u32 = 1;

/// Output-compare mode field (OCxM, bits 4..6) of one channel's byte in a
/// capture/compare mode register.
pub const OCM_MASK: u32 = 0x70;

/// PWM mode 1 (OCxM = 0b110) with the compare preload enabled (OCxPE, bit 3).
pub const OCM_PWM1_PRELOAD: u32 = 0x68;

/// A frequency in hertz.
#[derive(Clone, Copy, Debug, PartialEq, Eq, Structural)]
pub struct Hertz(pub u32);

/// The clock rates set up by the clock configuration.
#[derive(Clone, Copy, Debug, PartialEq, Eq, Structural)]
pub struct Clocks {
    /// Input clock of the timer.
    pub pclk1: Hertz,
}

impl Clocks {
    /// Input clock of the timer.
    pub fn pclk1(&self) -> (r: Hertz)
        ensures
            r == self.pclk1,
    {
        self.pclk1
    }
}

/// The timer's registers, as far as PWM output uses them.
#[derive(Clone, Copy, Debug, PartialEq, Eq, Structural)]
pub struct Registers {
    /// Control register 1.
    pub cr1: u32,
    /// Prescaler.
    pub psc: u16,
    /// Auto-reload value.
    pub arr: u32,
    /// Capture/compare mode register of channels 1 (low byte) and 2.
    pub ccmr1: u32,
    /// Capture/compare mode register of channels 3 (low byte) and 4.
    pub ccmr2: u32,
    /// Capture/compare enable register; channel n at bit 4 * (n - 1).
    pub ccer: u32,
    pub ccr1: u32,
    pub ccr2: u32,
    pub ccr3: u32,
    pub ccr4: u32,
}

/// Register values after reset.
pub open spec fn reset_registers() -> Registers {
    Registers {
        cr1: 0,
        psc: 0,
        arr: 0,
        ccmr1: 0,
        ccmr2: 0,
        ccer: 0,
        ccr1: 0,
        ccr2: 0,
        ccr3: 0,
        ccr4: 0,
    }
}

/// Bit of channel `ch` in the capture/compare enable register.
pub open spec fn ccer_bit(ch: int) -> u32 {
    (4 * (ch - 1)) as u32
}

/// Whether channel `ch`'s output is enabled.
pub open spec fn channel_enabled(s: Registers, ch: int) -> bool {
    bit_is_set(s.ccer, ccer_bit(ch))
}

/// `s` with channel `ch`'s enable bit set.
pub open spec fn enable_channel(s: Registers, ch: int) -> Registers {
    Registers { ccer: with_bit_set(s.ccer, ccer_bit(ch)), ..s }
}

/// `s` with channel `ch`'s enable bit cleared.
pub open spec fn disable_channel(s: Registers, ch: int) -> Registers {
    Registers { ccer: with_bit_cleared(s.ccer, ccer_bit(ch)), ..s }
}

/// Compare value (duty) of channel `ch`.
pub open spec fn duty(s: Registers, ch: int) -> u32 {
    if ch == 1 {
        s.ccr1
    } else if ch == 2 {
        s.ccr2
    } else if ch == 3 {
        s.ccr3
    } else {
        s.ccr4
    }
}

/// `s` with the compare value of channel `ch` replaced by `v`.
pub open spec fn with_duty(s: Registers, ch: int, v: u32) -> Registers {
    if ch == 1 {
        Registers { ccr1: v, ..s }
    } else if ch == 2 {
        Registers { ccr2: v, ..s }
    } else if ch == 3 {
        Registers { ccr3: v, ..s }
    } else {
        Registers { ccr4: v, ..s }
    }
}

/// The largest meaningful duty: the reload value, shared by all channels.
pub open spec fn max_duty(s: Registers) -> u32 {
    s.arr
}

/// `word` with the channel byte at bit `base` set to PWM mode 1 with preload.
pub open spec fn pwm_mode(word: u32, base: u32) -> u32 {
    (word & !(OCM_MASK << base)) | (OCM_PWM1_PRELOAD << base)
}

/// `pwm_mode(word, base)` when `on`, else `word`.
pub open spec fn pwm_mode_if(word: u32, on: bool, base: u32) -> u32 {
    if on {
        pwm_mode(word, base)
    } else {
        word
    }
}

/// The registers after PWM initialization of `s` for the channels in `act`
/// with prescaler `psc` and reload value `arr`: mode bits of the active
/// channels programmed, PSC and ARR written, and the counter started.
pub open spec fn configured(s: Registers, act: ActiveChannels, psc: u16, arr: u16) -> Registers {
    Registers {
        cr1: CR1_CEN,
        psc: psc,
        arr: arr as u32,
        ccmr1: pwm_mode_if(pwm_mode_if(s.ccmr1, act.c1, 0), act.c2, 8),
        ccmr2: pwm_mode_if(pwm_mode_if(s.ccmr2, act.c3, 0), act.c4, 8),
        ..s
    }
}

/// Registers whose reload and compare values all fit in 16 bits.
pub open spec fn sixteen_bit_values(s: Registers) -> bool {
    &&& s.arr <= 0xFFFF
    &&& s.ccr1 <= 0xFFFF
    &&& s.ccr2 <= 0xFFFF
    &&& s.ccr3 <= 0xFFFF
    &&& s.ccr4 <= 0xFFFF
}

fn pwm_mode_word(word: u32, base: u32) -> (r: u32)
    requires
        base == 0 || base == 8,
    ensures
        r == pwm_mode(word, base),
{
    (word & !(OCM_MASK << base)) | (OCM_PWM1_PRELOAD << base)
}

/// Exclusive ownership of the timer's register block.
pub struct Tim2 {
    regs: Registers,
}

impl View for Tim2 {
    type V = Registers;

    closed spec fn view(&self) -> Registers {
        self.regs
    }
}

impl Tim2 {
    #[verifier::type_invariant]
    closed spec fn inv(self) -> bool {
        sixteen_bit_values(self.regs)
    }

    /// The timer just after reset.
    pub fn new() -> (r: Tim2)
        ensures
            r@ == reset_registers(),
    {
        Tim2 { regs: Registers { cr1: 0, psc: 0, arr: 0, ccmr1: 0, ccmr2: 0, ccer: 0, ccr1: 0, ccr2: 0, ccr3: 0, ccr4: 0 } }
    }

    /// A copy of the current register values.
    pub fn registers(&self) -> (r: Registers)
        ensures
            r == self@,
            sixteen_bit_values(r),
    {
        proof {
            use_type_invariant(self);
        }
        self.regs
    }
}


/// Which of the four channels a pin set wires to an output.
#[derive(Clone, Copy, Debug, PartialEq, Eq, Structural)]
pub struct ActiveChannels {
    pub c1: bool,
    pub c2: bool,
    pub c3: bool,
    pub c4: bool,
}

/// One of the four capture/compare channels.
pub trait Channel {
    /// The channel's number, 1 to 4.
    spec fn spec_number() -> int;

    /// The channel's number, 1 to 4.
    fn number() -> (r: u32)
        ensures
            r as int == Self::spec_number(),
            1 <= r <= 4,
    ;
}

/// Channel 1.
pub struct C1;

/// Channel 2.
pub struct C2;

/// Channel 3.
pub struct C3;

/// Channel 4.
pub struct C4;

impl Channel for C1 {
    open spec fn spec_number() -> int {
        1
    }

    fn number() -> (r: u32) {
        1
    }
}

impl Channel for C2 {
    open spec fn spec_number() -> int {
        2
    }

    fn number() -> (r: u32) {
        2
    }
}

impl Channel for C3 {
    open spec fn spec_number() -> int {
        3
    }

    fn number() -> (r: u32) {
        3
    }
}

impl Channel for C4 {
    open spec fn spec_number() -> int {
        4
    }

    fn number() -> (r: u32) {
        4
    }
}

/// Handle of one PWM channel of a configured timer.
///
/// It holds no state: the registers it acts on are those of the timer passed
/// to each operation. Handles are only made by a successful initialization,
/// and only for the channels that the pin set wires.
pub struct Pwm<TIM, CHANNEL> {
    _channel: PhantomData<CHANNEL>,
    _tim: PhantomData<TIM>,
}

impl<TIM, CHANNEL> Pwm<TIM, CHANNEL> {
    fn new() -> Self {
        Pwm { _channel: PhantomData, _tim: PhantomData }
    }
}

impl<CH: Channel> Pwm<Tim2, CH> {
    /// Sets this channel's enable bit; no other bit changes.
    pub fn enable(&mut self, tim: &mut Tim2)
        ensures
            final(tim)@ == enable_channel(old(tim)@, CH::spec_number()),
    {
        proof {
            use_type_invariant(&*tim);
        }
        let n = CH::number();
        let mut ccer = tim.regs.ccer;
        bb::set(&mut ccer, 4 * (n - 1));
        tim.regs.ccer = ccer;
    }

    /// Clears this channel's enable bit; no other bit changes.
    pub fn disable(&mut self, tim: &mut Tim2)
        ensures
            final(tim)@ == disable_channel(old(tim)@, CH::spec_number()),
    {
        proof {
            use_type_invariant(&*tim);
        }
        let n = CH::number();
        let mut ccer = tim.regs.ccer;
        bb::clear(&mut ccer, 4 * (n - 1));
        tim.regs.ccer = ccer;
    }

    /// This channel's compare value.
    pub fn get_duty(&self, tim: &Tim2) -> (r: u16)
        ensures
            r as u32 == duty(tim@, CH::spec_number()),
    {
        proof {
            use_type_invariant(tim);
        }
        let n = CH::number();
        let raw: u32 = if n == 1 {
            tim.regs.ccr1
        } else if n == 2 {
            tim.regs.ccr2
        } else if n == 3 {
            tim.regs.ccr3
        } else {
            tim.regs.ccr4
        };
        checked_u16(raw).unwrap()
    }

    /// The reload value: the duty at which the output stays high for the
    /// whole period. The same on every channel of the timer.
    pub fn get_max_duty(&self, tim: &Tim2) -> (r: u16)
        ensures
            r as u32 == max_duty(tim@),
    {
        proof {
            use_type_invariant(tim);
        }
        checked_u16(tim.regs.arr).unwrap()
    }

    /// Writes this channel's compare value, unclamped: a value above the
    /// reload value keeps the output high for the whole period.
    pub fn set_duty(&mut self, tim: &mut Tim2, duty: u16)
        ensures
            final(tim)@ == with_duty(old(tim)@, CH::spec_number(), duty as u32),
    {
        proof {
            use_type_invariant(&*tim);
        }
        let n = CH::number();
        let v = widen_u16(duty);
        if n == 1 {
            tim.regs.ccr1 = v;
        } else if n == 2 {
            tim.regs.ccr2 = v;
        } else if n == 3 {
            tim.regs.ccr3 = v;
        } else {
            tim.regs.ccr4 = v;
        }
    }
}


/// Proof that the timer has just been configured for PWM; only
/// initialization makes one, and pin sets need one to hand out handles.
pub struct Configured<TIM> {
    _tim: PhantomData<TIM>,
}

/// A set of output pins of timer `TIM`, and the channels it wires.
pub trait Pins<TIM> {
    /// The handles that initialization returns for this pin set.
    type Channels;

    /// The channels this pin set wires.
    spec fn spec_active() -> ActiveChannels;

    /// The channels this pin set wires.
    fn active() -> (r: ActiveChannels)
        ensures
            r == Self::spec_active(),
    ;

    /// One handle per wired channel.
    fn channels(token: Configured<TIM>) -> Self::Channels;
}

/// Pin PA0 in alternate function 1: timer channel 1.
pub struct PA0;

/// Pin PA1 in alternate function 1: channel 2 alone with all four pins
/// wired, channel 1 in the three-pin set.
pub struct PA1;

/// Pin PA2 in alternate function 1: channel 3 with all four pins wired,
/// channel 2 in the three-pin set.
pub struct PA2;

/// Pin PA3 in alternate function 1: channel 4 with all four pins wired,
/// channel 3 in the three-pin set.
pub struct PA3;

impl Pins<Tim2> for (PA0, PA1, PA2, PA3) {
    type Channels = (Pwm<Tim2, C1>, Pwm<Tim2, C2>, Pwm<Tim2, C3>, Pwm<Tim2, C4>);

    open spec fn spec_active() -> ActiveChannels {
        ActiveChannels { c1: true, c2: true, c3: true, c4: true }
    }

    fn active() -> (r: ActiveChannels) {
        ActiveChannels { c1: true, c2: true, c3: true, c4: true }
    }

    fn channels(_token: Configured<Tim2>) -> Self::Channels {
        (Pwm::new(), Pwm::new(), Pwm::new(), Pwm::new())
    }
}

/// Three pins driving channels 1 to 3, e.g. for an RGB LED.
impl Pins<Tim2> for (PA1, PA2, PA3) {
    type Channels = (Pwm<Tim2, C1>, Pwm<Tim2, C2>, Pwm<Tim2, C3>);

    open spec fn spec_active() -> ActiveChannels {
        ActiveChannels { c1: true, c2: true, c3: true, c4: false }
    }

    fn active() -> (r: ActiveChannels) {
        ActiveChannels { c1: true, c2: true, c3: true, c4: false }
    }

    fn channels(_token: Configured<Tim2>) -> Self::Channels {
        (Pwm::new(), Pwm::new(), Pwm::new())
    }
}

impl Pins<Tim2> for PA0 {
    type Channels = Pwm<Tim2, C1>;

    open spec fn spec_active() -> ActiveChannels {
        ActiveChannels { c1: true, c2: false, c3: false, c4: false }
    }

    fn active() -> (r: ActiveChannels) {
        ActiveChannels { c1: true, c2: false, c3: false, c4: false }
    }

    fn channels(_token: Configured<Tim2>) -> Self::Channels {
        Pwm::new()
    }
}

/// PWM initialization of a timer.
pub trait PwmExt: Sized {
    /// Programs the channels that `pins` wires for PWM mode 1, derives the
    /// prescaler and reload value for `freq` from the timer's input clock,
    /// and starts the counter. Returns the running timer and one handle per
    /// wired channel, or `FrequencyOutOfRange` when `freq` cannot be met.
    fn pwm<PINS: Pins<Self>>(self, pins: PINS, freq: Hertz, clocks: Clocks) -> (r: Result<
        (Self, PINS::Channels),
        PwmError,
    >)
        ensures
            r is Err <==> timer_params(clocks.pclk1.0 as int, freq.0 as int) is None,
    ;
}

impl PwmExt for Tim2 {
    fn pwm<PINS: Pins<Tim2>>(self, _pins: PINS, freq: Hertz, clocks: Clocks) -> (r: Result<
        (Tim2, PINS::Channels),
        PwmError,
    >)
        ensures
            match r {
                Ok((t, _)) => timer_params(clocks.pclk1.0 as int, freq.0 as int) matches Some(
                    (psc, arr),
                ) && t@ == configured(self@, PINS::spec_active(), psc as u16, arr as u16),
                Err(e) => e == PwmError::FrequencyOutOfRange,
            },
    {
        proof {
            use_type_invariant(&self);
        }
        let params = match derive_timer_params(clocks.pclk1().0, freq.0) {
            Ok(p) => p,
            Err(e) => {
                return Err(e);
            },
        };
        let act = PINS::active();
        let mut tim = self;
        if act.c1 {
            tim.regs.ccmr1 = pwm_mode_word(tim.regs.ccmr1, 0);
        }
        if act.c2 {
            tim.regs.ccmr1 = pwm_mode_word(tim.regs.ccmr1, 8);
        }
        if act.c3 {
            tim.regs.ccmr2 = pwm_mode_word(tim.regs.ccmr2, 0);
        }
        if act.c4 {
            tim.regs.ccmr2 = pwm_mode_word(tim.regs.ccmr2, 8);
        }
        tim.regs.psc = params.psc;
        tim.regs.arr = widen_u16(params.arr);
        tim.regs.cr1 = CR1_CEN;
        Ok((tim, PINS::channels(Configured { _tim: PhantomData })))
    }
}


/// Writing a channel's duty and reading it back gives the value written.
pub proof fn lemma_duty_round_trip(s: Registers, ch: int, v: u16)
    requires
        1 <= ch <= 4,
    ensures
        duty(with_duty(s, ch, v as u32), ch) == v as u32,
{
}

/// Writing one channel's duty leaves every other channel's duty unchanged.
pub proof fn lemma_duty_independent(s: Registers, a: int, b: int, v: u16)
    requires
        1 <= a <= 4,
        1 <= b <= 4,
        a != b,
    ensures
        duty(with_duty(s, a, v as u32), b) == duty(s, b),
{
}

/// Enabling or disabling one channel leaves the enable bit of every other
/// channel as it was; in particular enabling `a` and then disabling a
/// different channel `b` leaves `a` enabled.
pub proof fn lemma_enable_bits_independent(s: Registers, a: int, b: int)
    requires
        1 <= a <= 4,
        1 <= b <= 4,
        a != b,
    ensures
        channel_enabled(enable_channel(s, a), a),
        !channel_enabled(disable_channel(s, a), a),
        channel_enabled(enable_channel(s, a), b) == channel_enabled(s, b),
        channel_enabled(disable_channel(s, a), b) == channel_enabled(s, b),
        channel_enabled(disable_channel(enable_channel(s, a), b), a),
{
    let e = enable_channel(s, a);
    bb::lemma_set_only_touches(s.ccer, ccer_bit(a), ccer_bit(b));
    bb::lemma_clear_only_touches(s.ccer, ccer_bit(a), ccer_bit(b));
    bb::lemma_clear_only_touches(e.ccer, ccer_bit(b), ccer_bit(a));
}

/// After initialization every channel sees as its maximum duty the reload
/// value derived from the clock and the target frequency, and enabling,
/// disabling or writing the duty of any channel does not change it.
pub proof fn lemma_max_duty_is_reload(
    s: Registers,
    act: ActiveChannels,
    clock_hz: int,
    target_hz: int,
    ch: int,
    v: u16,
)
    ensures
        timer_params(clock_hz, target_hz) matches Some((psc, arr)) ==> ({
            let c = configured(s, act, psc as u16, arr as u16);
            &&& max_duty(c) == arr
            &&& max_duty(enable_channel(c, ch)) == arr
            &&& max_duty(disable_channel(c, ch)) == arr
            &&& max_duty(with_duty(c, ch, v as u32)) == arr
        }),
{
}

} // verus!
