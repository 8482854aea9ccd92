//! Software timers, as far as their commands go: whether a timer runs, and
//! with which period. Every period is positive.
use crate::error::FreeRtosError;
use crate::isr::InterruptContext;
use crate::units::Duration;
use crate::units::TickType_t;
use vstd::prelude::*;

verus! {

/// What the kernel keeps of a software timer.
pub struct TimerModel {
    /// The name the timer was given, if any.
    pub name: Option<Seq<char>>,
    /// Ticks from a start to the expiry. Never zero.
    pub period: TickType_t,
    /// Whether the timer starts over when it expires.
    pub auto_reload: bool,
    /// Whether the timer is running.
    pub active: bool,
}

/// The commands of a software timer.
///
/// The kernel takes each command through a queue and gives up where the
/// queue stays full for [`block_time`](Self::block_time) ticks. With one
/// party at a time that queue is never full, so no command times out.
#[derive(Debug)]
pub struct TimerHandle {
    name: Option<String>,
    period: TickType_t,
    auto_reload: bool,
    active: bool,
}

impl View for TimerHandle {
    type V = TimerModel;

    closed spec fn view(&self) -> TimerModel {
        TimerModel {
            name: match self.name {
                Some(name) => Some(name@),
                None => None,
            },
            period: self.period,
            auto_reload: self.auto_reload,
            active: self.active,
        }
    }
}

/// Milliseconds a command may wait for room in the kernel's command queue.
pub const MS_TIMEOUT: TickType_t = 50;

impl TimerHandle {
    /// Returns the name the timer was given, if any.
    pub fn name(&self) -> (name: Option<&str>)
        ensures
            name is Some <==> self@.name is Some,
            name is Some ==> name->Some_0@ == self@.name->Some_0,
    {
        match &self.name {
            Some(name) => Some(name.as_str()),
            None => None,
        }
    }

    /// Returns the period of the timer.
    pub fn period(&self) -> (period: Duration)
        ensures
            period.spec_ticks() == self@.period,
    {
        Duration::from_ticks(self.period)
    }

    /// Returns whether the timer is running.
    pub fn is_active(&self) -> (active: bool)
        ensures
            active == self@.active,
    {
        self.active
    }

    /// Returns whether the timer starts over when it expires.
    pub fn is_periodic(&self) -> (periodic: bool)
        ensures
            periodic == self@.auto_reload,
    {
        self.auto_reload
    }

    /// Start the timer.
    pub fn start(&mut self) -> (started: Result<(), FreeRtosError>)
        ensures
            started == Ok::<(), FreeRtosError>(()),
            final(self)@ == (TimerModel { active: true, ..old(self)@ }),
    {
        self.active = true;
        Ok(())
    }

    /// Start the timer from an interrupt. The command wakes nobody, so the
    /// context stays as it was.
    pub fn start_from_isr(&mut self, context: &mut InterruptContext) -> (started: Result<
        (),
        FreeRtosError,
    >)
        ensures
            started == Ok::<(), FreeRtosError>(()),
            final(self)@ == (TimerModel { active: true, ..old(self)@ }),
            *final(context) == *old(context),
    {
        self.active = true;
        Ok(())
    }

    /// Stop the timer.
    pub fn stop(&mut self) -> (stopped: Result<(), FreeRtosError>)
        ensures
            stopped == Ok::<(), FreeRtosError>(()),
            final(self)@ == (TimerModel { active: false, ..old(self)@ }),
    {
        self.active = false;
        Ok(())
    }

    /// Change the period of the timer, which also starts it. A period of
    /// zero ticks is refused with `ZeroDuration` and changes nothing.
    pub fn change_period(&mut self, new_period: Duration) -> (changed: Result<(), FreeRtosError>)
        ensures
            new_period.spec_ticks() == 0 ==> changed == Err::<(), FreeRtosError>(
                FreeRtosError::ZeroDuration,
            ) && final(self)@ == old(self)@,
            new_period.spec_ticks() != 0 ==> changed == Ok::<(), FreeRtosError>(())
                && final(self)@ == (TimerModel {
                period: new_period.spec_ticks(),
                active: true,
                ..old(self)@
            }),
    {
        if new_period.ticks() == 0 {
            return Err(FreeRtosError::ZeroDuration);
        }
        self.period = new_period.ticks();
        self.active = true;
        Ok(())
    }

    /// Returns the ticks a command may wait for room in the command queue.
    pub fn block_time() -> (ticks: TickType_t)
        ensures
            ticks == Duration::from_ms_ticks(MS_TIMEOUT),
    {
        Duration::from_ms(MS_TIMEOUT).ticks()
    }
}

/// A software timer.
#[derive(Debug)]
pub struct Timer {
    handle: TimerHandle,
}

impl View for Timer {
    type V = TimerModel;

    closed spec fn view(&self) -> TimerModel {
        self.handle@
    }
}

impl Timer {
    /// The timer a creation with `period` gives, if any: dormant, with that
    /// period.
    pub open spec fn spec_spawn(
        name: Option<Seq<char>>,
        period: TickType_t,
        auto_reload: bool,
    ) -> Result<TimerModel, FreeRtosError> {
        if period == 0 {
            Err(FreeRtosError::ZeroDuration)
        } else {
            Ok(TimerModel { name, period, auto_reload, active: false })
        }
    }

    /// What a name that may be missing reads as.
    pub open spec fn spec_name(name: Option<&str>) -> Option<Seq<char>> {
        match name {
            Some(name) => Some(name@),
            None => None,
        }
    }

    /// Creates a new [`Timer`] which ticks periodically. It is created
    /// dormant. A period of zero ticks is refused with `ZeroDuration`.
    pub fn periodic(name: Option<&str>, period: Duration) -> (created: Result<
        Timer,
        FreeRtosError,
    >)
        ensures
            created is Ok <==> period.spec_ticks() != 0,
            created is Ok ==> Ok::<TimerModel, FreeRtosError>(created->Ok_0@) == Self::spec_spawn(
                Self::spec_name(name),
                period.spec_ticks(),
                true,
            ),
            created is Err ==> created->Err_0 == FreeRtosError::ZeroDuration,
    {
        Self::spawn(name, period.ticks(), true)
    }

    /// Creates a [`Timer`] that ticks once. It is created dormant. A period
    /// of zero ticks is refused with `ZeroDuration`.
    pub fn once(name: Option<&str>, period: Duration) -> (created: Result<Timer, FreeRtosError>)
        ensures
            created is Ok <==> period.spec_ticks() != 0,
            created is Ok ==> Ok::<TimerModel, FreeRtosError>(created->Ok_0@) == Self::spec_spawn(
                Self::spec_name(name),
                period.spec_ticks(),
                false,
            ),
            created is Err ==> created->Err_0 == FreeRtosError::ZeroDuration,
    {
        Self::spawn(name, period.ticks(), false)
    }

    /// Returns the [`TimerHandle`] of self, to read the timer by.
    pub fn state(&self) -> (handle: &TimerHandle)
        ensures
            handle@ == self@,
    {
        &self.handle
    }

    /// Lends out the [`TimerHandle`] of self, to command the timer with.
    pub fn handle(&mut self) -> (handle: &mut TimerHandle)
        ensures
            handle@ == old(self)@,
            final(self)@ == final(handle)@,
    {
        &mut self.handle
    }

    /// Tries to create a timer with the given strategy.
    fn spawn(name: Option<&str>, period: TickType_t, auto_reload: bool) -> (created: Result<
        Timer,
        FreeRtosError,
    >)
        ensures
            created is Ok <==> period != 0,
            created is Ok ==> Ok::<TimerModel, FreeRtosError>(created->Ok_0@) == Self::spec_spawn(
                Self::spec_name(name),
                period,
                auto_reload,
            ),
            created is Err ==> created->Err_0 == FreeRtosError::ZeroDuration,
    {
        if period == 0 {
            return Err(FreeRtosError::ZeroDuration);
        }
        let name = match name {
            Some(name) => Some(name.to_owned()),
            None => None,
        };
        Ok(Timer { handle: TimerHandle { name, period, auto_reload, active: false } })
    }
}

} // verus!
