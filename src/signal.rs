use vstd::prelude::*;

verus! {

/// The outcome of reading the shutdown signal: either read normally, or read
/// from a lock whose previous holder terminated while holding it.
#[derive(Debug, Clone, Copy, PartialEq, Eq, Structural)]
pub enum SignalResult {
    SignalOk(bool),
    SignalPoisoned(bool),
}

impl SignalResult {
    /// The signal value carried by either variant.
    pub open spec fn signal_value(&self) -> bool {
        match self {
            SignalResult::SignalOk(v) => *v,
            SignalResult::SignalPoisoned(v) => *v,
        }
    }

    pub fn is_signalled(&self) -> (r: bool)
        ensures
            r == self.signal_value(),
    {
        match self {
            SignalResult::SignalOk(v) => *v,
            SignalResult::SignalPoisoned(v) => *v,
        }
    }
}

/// A sticky shutdown flag. Waiting on it is released only by the flag being set,
/// or by the state behind it being poisoned.
pub trait Signal: Sized {
    /// The current value of the flag.
    spec fn signalled(&self) -> bool;

    /// Whether a holder of the state terminated abnormally while holding it.
    spec fn poisoned(&self) -> bool;

    /// Whether `other` equals `self` in everything but the flag.
    spec fn agrees_except_signal(&self, other: &Self) -> bool;

    fn is_signalled(&self) -> (r: bool)
        ensures
            r == self.signalled(),
    ;

    /// Waits for the flag. Without another party that could set it, a wait on a
    /// clear, healthy flag would never end, so that state is excluded.
    fn wait_for_signal(&self) -> (r: Result<(), SignalResult>)
        requires
            self.signalled() || self.poisoned(),
        ensures
            self.poisoned() ==> r == Err::<(), SignalResult>(
                SignalResult::SignalPoisoned(self.signalled()),
            ),
            !self.poisoned() ==> r == Ok::<(), SignalResult>(()),
    ;

    /// Sets the flag to `value` and returns its previous value.
    fn set_signal(&mut self, value: bool) -> (r: bool)
        ensures
            r == old(self).signalled(),
            final(self).signalled() == value,
            final(self).poisoned() == old(self).poisoned(),
            old(self).agrees_except_signal(&*final(self)),
    ;
}

/// A bare shutdown flag with no data behind it.
#[derive(Debug, Default)]
pub struct IdleSignal {
    state: bool,
}

impl IdleSignal {
    pub fn new() -> (r: Self)
        ensures
            !r.signalled(),
            !r.poisoned(),
    {
        IdleSignal { state: false }
    }
}

impl Signal for IdleSignal {
    closed spec fn signalled(&self) -> bool {
        self.state
    }

    closed spec fn poisoned(&self) -> bool {
        false
    }

    open spec fn agrees_except_signal(&self, other: &Self) -> bool {
        true
    }

    fn is_signalled(&self) -> (r: bool) {
        self.state
    }

    fn wait_for_signal(&self) -> (r: Result<(), SignalResult>) {
        Ok(())
    }

    fn set_signal(&mut self, value: bool) -> (r: bool) {
        let previous = self.state;
        self.state = value;
        previous
    }
}

/// Exclusive access to the data of a `SignallableData`, together with the
/// value the shutdown flag had when access was taken.
pub struct SignallableLock<'sd, T> {
    pub data: &'sd mut T,
    pub signal: bool,
}

impl<'sd, T> SignallableLock<'sd, T> {
    pub fn is_signalled(&self) -> (r: bool)
        ensures
            r == self.signal,
    {
        self.signal
    }
}

/// A value guarded together with a sticky shutdown flag.
///
/// Every wait on the value is a wait on a predicate over the value and the
/// flag. The state also records whether a holder terminated abnormally while
/// holding it (poisoning); the flag stays readable and settable even then.
pub struct SignallableData<T> {
    data: T,
    signal: bool,
    poisoned: bool,
}

impl<T> SignallableData<T> {
    /// The guarded value.
    pub closed spec fn value(&self) -> T {
        self.data
    }

    pub fn new(data: T) -> (r: Self)
        ensures
            r.value() == data,
            !r.signalled(),
            !r.poisoned(),
    {
        SignallableData { data, signal: false, poisoned: false }
    }

    /// Read access to the value, whatever the flag or poisoning.
    pub fn value_ref(&self) -> (r: &T)
        ensures
            *r == self.value(),
    {
        &self.data
    }

    /// Whether a holder terminated abnormally while holding the state.
    pub fn is_poisoned(&self) -> (r: bool)
        ensures
            r == self.poisoned(),
    {
        self.poisoned
    }

    /// Takes exclusive access whether or not the state is poisoned.
    pub fn lock_ignore_poison(&mut self) -> (g: SignallableLock<'_, T>)
        ensures
            *g.data == old(self).value(),
            g.signal == old(self).signalled(),
            final(self).value() == *final(g.data),
            final(self).signalled() == old(self).signalled(),
            final(self).poisoned() == old(self).poisoned(),
    {
        SignallableLock { data: &mut self.data, signal: self.signal }
    }

    /// Records that a holder terminated abnormally while holding the state.
    pub fn mark_poisoned(&mut self)
        ensures
            final(self).poisoned(),
            final(self).value() == old(self).value(),
            final(self).signalled() == old(self).signalled(),
    {
        self.poisoned = true;
    }

    /// Gives back the value and the flag; `Err` when the state is poisoned.
    pub fn into_inner(self) -> (r: Result<(T, bool), (T, bool)>)
        ensures
            !self.poisoned() ==> r == Ok::<(T, bool), (T, bool)>((self.value(), self.signalled())),
            self.poisoned() ==> r == Err::<(T, bool), (T, bool)>((self.value(), self.signalled())),
    {
        if self.poisoned {
            Err((self.data, self.signal))
        } else {
            Ok((self.data, self.signal))
        }
    }

    /// Takes exclusive access to the value; `Err` with the flag's value when
    /// the state is poisoned. Writes through the lock reach the value.
    pub fn lock(&mut self) -> (r: Result<SignallableLock<'_, T>, SignalResult>)
        ensures
            final(self).signalled() == old(self).signalled(),
            final(self).poisoned() == old(self).poisoned(),
            match r {
                Ok(g) => {
                    &&& !old(self).poisoned()
                    &&& *g.data == old(self).value()
                    &&& g.signal == old(self).signalled()
                    &&& final(self).value() == *final(g.data)
                },
                Err(e) => {
                    &&& old(self).poisoned()
                    &&& e == SignalResult::SignalPoisoned(old(self).signalled())
                    &&& final(self).value() == old(self).value()
                },
            },
    {
        if self.poisoned {
            Err(SignalResult::SignalPoisoned(self.signal))
        } else {
            Ok(SignallableLock { data: &mut self.data, signal: self.signal })
        }
    }

    /// Takes access without waiting. The state is held exclusively here, so
    /// access is never contended: the result is as for `lock`, in `Some`.
    pub fn try_lock(&mut self) -> (r: Result<Option<SignallableLock<'_, T>>, SignalResult>)
        ensures
            final(self).signalled() == old(self).signalled(),
            final(self).poisoned() == old(self).poisoned(),
            match r {
                Ok(Some(g)) => {
                    &&& !old(self).poisoned()
                    &&& *g.data == old(self).value()
                    &&& g.signal == old(self).signalled()
                    &&& final(self).value() == *final(g.data)
                },
                Ok(None) => false,
                Err(e) => {
                    &&& old(self).poisoned()
                    &&& e == SignalResult::SignalPoisoned(old(self).signalled())
                    &&& final(self).value() == old(self).value()
                },
            },
    {
        match self.lock() {
            Ok(g) => Ok(Some(g)),
            Err(e) => Err(e),
        }
    }

    /// Takes access once `condition(value, flag)` is false. Nothing else can
    /// change the state while it is held here, so a state on which the
    /// condition holds would wait forever, and is excluded.
    pub fn lock_wait_while<F: Fn(&T, &bool) -> bool>(&mut self, condition: F) -> (r: Result<
        SignallableLock<'_, T>,
        SignalResult,
    >)
        requires
            condition.requires((&old(self).value(), &old(self).signalled())),
            old(self).poisoned() || forall|b: bool|
                condition.ensures((&old(self).value(), &old(self).signalled()), b) ==> !b,
        ensures
            final(self).signalled() == old(self).signalled(),
            final(self).poisoned() == old(self).poisoned(),
            match r {
                Ok(g) => {
                    &&& !old(self).poisoned()
                    &&& *g.data == old(self).value()
                    &&& g.signal == old(self).signalled()
                    &&& final(self).value() == *final(g.data)
                },
                Err(e) => {
                    &&& old(self).poisoned()
                    &&& e == SignalResult::SignalPoisoned(old(self).signalled())
                    &&& final(self).value() == old(self).value()
                },
            },
    {
        if self.poisoned {
            return Err(SignalResult::SignalPoisoned(self.signal));
        }
        let waiting = condition(&self.data, &self.signal);
        assert(!waiting);
        Ok(SignallableLock { data: &mut self.data, signal: self.signal })
    }

    /// As `lock_wait_while`, bounded by `dur`. While the state is held here no
    /// other party can clear the condition, so where it holds the deadline
    /// passes and the result is `Ok(None)`.
    pub fn lock_wait_while_timeout<F: Fn(&T, &bool) -> bool>(
        &mut self,
        dur: std::time::Duration,
        condition: F,
    ) -> (r: Result<Option<SignallableLock<'_, T>>, SignalResult>)
        requires
            condition.requires((&old(self).value(), &old(self).signalled())),
        ensures
            final(self).signalled() == old(self).signalled(),
            final(self).poisoned() == old(self).poisoned(),
            match r {
                Ok(Some(g)) => {
                    &&& !old(self).poisoned()
                    &&& condition.ensures((&old(self).value(), &old(self).signalled()), false)
                    &&& *g.data == old(self).value()
                    &&& g.signal == old(self).signalled()
                    &&& final(self).value() == *final(g.data)
                },
                Ok(None) => {
                    &&& !old(self).poisoned()
                    &&& condition.ensures((&old(self).value(), &old(self).signalled()), true)
                    &&& final(self).value() == old(self).value()
                },
                Err(e) => {
                    &&& old(self).poisoned()
                    &&& e == SignalResult::SignalPoisoned(old(self).signalled())
                    &&& final(self).value() == old(self).value()
                },
            },
    {
        if self.poisoned {
            return Err(SignalResult::SignalPoisoned(self.signal));
        }
        if condition(&self.data, &self.signal) {
            Ok(None)
        } else {
            Ok(Some(SignallableLock { data: &mut self.data, signal: self.signal }))
        }
    }

    /// Takes access once the flag is set. A clear flag on a healthy state would
    /// wait forever here, and is excluded.
    pub fn lock_wait_for_signal(&mut self) -> (r: Result<SignallableLock<'_, T>, SignalResult>)
        requires
            old(self).signalled() || old(self).poisoned(),
        ensures
            final(self).signalled() == old(self).signalled(),
            final(self).poisoned() == old(self).poisoned(),
            match r {
                Ok(g) => {
                    &&& !old(self).poisoned()
                    &&& *g.data == old(self).value()
                    &&& g.signal
                    &&& final(self).value() == *final(g.data)
                },
                Err(e) => {
                    &&& old(self).poisoned()
                    &&& e == SignalResult::SignalPoisoned(old(self).signalled())
                    &&& final(self).value() == old(self).value()
                },
            },
    {
        self.lock()
    }
}

impl<T> Signal for SignallableData<T> {
    closed spec fn signalled(&self) -> bool {
        self.signal
    }

    closed spec fn poisoned(&self) -> bool {
        self.poisoned
    }

    open spec fn agrees_except_signal(&self, other: &Self) -> bool {
        self.value() == other.value() && self.poisoned() == other.poisoned()
    }

    fn is_signalled(&self) -> (r: bool) {
        self.signal
    }

    fn wait_for_signal(&self) -> (r: Result<(), SignalResult>) {
        if self.poisoned {
            Err(SignalResult::SignalPoisoned(self.signal))
        } else {
            Ok(())
        }
    }

    fn set_signal(&mut self, value: bool) -> (r: bool) {
        let previous = self.signal;
        self.signal = value;
        previous
    }
}

} // verus!
