//! A lock and a write-once cell for the manager's shared state.
use vstd::prelude::*;

verus! {

/// The lock is held by someone else.
#[derive(Clone, Copy, Debug, PartialEq, Eq, Structural)]
pub struct TryLockError;

/// A value behind a lock that is taken for the length of one closure.
pub struct Mutex<T> {
    locked: bool,
    value: T,
}

impl<T> Mutex<T> {
    /// The value the lock guards.
    pub closed spec fn value(&self) -> T {
        self.value
    }

    /// Whether the lock is held.
    pub closed spec fn is_locked(&self) -> bool {
        self.locked
    }

    /// A free lock around `value`.
    pub fn new(value: T) -> (r: Self)
        ensures
            r.value() == value,
            !r.is_locked(),
    {
        Mutex { locked: false, value }
    }

    /// Runs `f` on the guarded value if the lock is free, and frees it
    /// again: the value keeps what `f` left in it and `f`'s result is
    /// returned. `TryLockError`, with `f` not run, if it is held.
    pub fn try_lock<R, F: FnOnce(&mut T) -> R>(&mut self, f: F) -> (r: Result<R, TryLockError>)
        requires
            forall|a: (&mut T,)| f.requires(a),
        ensures
            final(self).is_locked() == old(self).is_locked(),
            old(self).is_locked() ==> r == Err::<R, TryLockError>(TryLockError) && final(self).value() == old(
                self,
            ).value(),
            !old(self).is_locked() ==> (r matches Ok(res) && exists|m: &mut T|
                *m == old(self).value() && *final(m) == final(self).value() && f.ensures((m,), res)),
    {
        if self.locked {
            return Err(TryLockError);
        }
        self.locked = true;
        let result = f(&mut self.value);
        self.locked = false;
        Ok(result)
    }
}

/// Where a write-once cell stands.
#[derive(Clone, Copy, Debug, PartialEq, Eq, Structural)]
pub enum OnceLockState {
    Uninitialized,
    Initializing,
    Initialized,
}

/// The abstract value of a write-once cell: its state and its value.
pub struct OnceLockModel<T> {
    pub state: OnceLockState,
    pub value: Option<T>,
}

/// What reading a cell gives: its value once initialised, else the state
/// it is in.
pub open spec fn spec_try_get<T>(m: OnceLockModel<T>) -> Result<T, OnceLockState> {
    match m.state {
        OnceLockState::Initialized => Ok(m.value->0),
        OnceLockState::Initializing => Err(OnceLockState::Initializing),
        OnceLockState::Uninitialized => Err(OnceLockState::Uninitialized),
    }
}

/// The cell after setting it to `v`: only an uninitialised cell takes a
/// value.
pub open spec fn spec_try_set<T>(m: OnceLockModel<T>, v: T) -> OnceLockModel<T> {
    if m.state == OnceLockState::Uninitialized {
        OnceLockModel { state: OnceLockState::Initialized, value: Some(v) }
    } else {
        m
    }
}

/// A value that is set once and read many times.
pub struct OnceLock<T> {
    state: OnceLockState,
    value: Option<T>,
}

impl<T> View for OnceLock<T> {
    type V = OnceLockModel<T>;

    closed spec fn view(&self) -> OnceLockModel<T> {
        OnceLockModel { state: self.state, value: self.value }
    }
}

impl<T> OnceLock<T> {
    /// A value is held exactly when the cell is initialised.
    pub closed spec fn wf(&self) -> bool {
        (self.state == OnceLockState::Initialized) == (self.value is Some)
    }

    /// An uninitialised cell.
    pub fn new() -> (r: Self)
        ensures
            r.wf(),
            r@.state == OnceLockState::Uninitialized,
    {
        OnceLock { state: OnceLockState::Uninitialized, value: None }
    }

    /// The value, once set; otherwise the state the cell is in.
    pub fn try_get(&self) -> (r: Result<&T, OnceLockState>)
        requires
            self.wf(),
        ensures
            match r {
                Ok(v) => spec_try_get(self@) == Ok::<T, OnceLockState>(*v),
                Err(s) => spec_try_get(self@) == Err::<T, OnceLockState>(s),
            },
    {
        match self.state {
            OnceLockState::Initializing => Err(OnceLockState::Initializing),
            OnceLockState::Initialized => match &self.value {
                Some(v) => Ok(v),
                None => Err(OnceLockState::Uninitialized),
            },
            OnceLockState::Uninitialized => Err(OnceLockState::Uninitialized),
        }
    }

    /// Sets the value of an uninitialised cell; otherwise gives `value`
    /// back and leaves the cell as it was.
    pub fn try_set(&mut self, value: T) -> (r: Result<(), T>)
        requires
            old(self).wf(),
        ensures
            final(self).wf(),
            final(self)@ == spec_try_set(old(self)@, value),
            old(self)@.state == OnceLockState::Uninitialized ==> r is Ok,
            old(self)@.state != OnceLockState::Uninitialized ==> r == Err::<(), T>(value),
    {
        if self.state == OnceLockState::Uninitialized {
            self.value = Some(value);
            self.state = OnceLockState::Initialized;
            Ok(())
        } else {
            Err(value)
        }
    }
}

/// A read after a successful write gives back the value written.
pub proof fn law_once_lock_set_then_get<T>(m: OnceLockModel<T>, v: T)
    requires
        m.state == OnceLockState::Uninitialized,
    ensures
        spec_try_get(spec_try_set(m, v)) == Ok::<T, OnceLockState>(v),
{
}

/// A cell takes one value only: once written, further writes change
/// nothing and reads keep giving the first value.
pub proof fn law_once_lock_written_once<T>(m: OnceLockModel<T>, v: T, w: T)
    requires
        m.state == OnceLockState::Uninitialized,
    ensures
        spec_try_set(spec_try_set(m, v), w) == spec_try_set(m, v),
        spec_try_get(spec_try_set(spec_try_set(m, v), w)) == Ok::<T, OnceLockState>(v),
{
}

/// The cell after the writes `vs`, in order.
pub open spec fn spec_try_set_all<T>(m: OnceLockModel<T>, vs: Seq<T>) -> OnceLockModel<T>
    decreases vs.len(),
{
    if vs.len() == 0 {
        m
    } else {
        spec_try_set(spec_try_set_all(m, vs.drop_last()), vs.last())
    }
}

/// Any run of writes on a new cell: before the first write a read reports
/// `Uninitialized`; after it the cell holds the first value written, and
/// every read gives that value, whatever was written later. Reads change
/// nothing, so this covers reads placed anywhere in the run.
pub proof fn law_once_lock_first_write_wins<T>(m: OnceLockModel<T>, vs: Seq<T>)
    requires
        m.state == OnceLockState::Uninitialized,
    ensures
        vs.len() == 0 ==> spec_try_get(spec_try_set_all(m, vs)) == Err::<T, OnceLockState>(
            OnceLockState::Uninitialized,
        ),
        vs.len() > 0 ==> spec_try_set_all(m, vs) == spec_try_set(m, vs[0]),
        vs.len() > 0 ==> spec_try_get(spec_try_set_all(m, vs)) == Ok::<T, OnceLockState>(vs[0]),
    decreases vs.len(),
{
    if vs.len() > 0 {
        let before = spec_try_set_all(m, vs.drop_last());
        assert(spec_try_set_all(m, vs) == spec_try_set(before, vs.last()));
        if vs.len() > 1 {
            law_once_lock_first_write_wins(m, vs.drop_last());
            assert(vs.drop_last()[0] == vs[0]);
            assert(before == spec_try_set(m, vs[0]));
            assert(before.state == OnceLockState::Initialized);
        } else {
            assert(before == m);
            assert(vs.last() == vs[0]);
        }
    }
}

} // verus!
