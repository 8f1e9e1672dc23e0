//! The lifecycle of the speech model: loaded when first needed, shared by
//! the sessions that follow each other, unloaded when it has been idle for
//! the configured time and nobody uses it.

use crate::options::ModelUnloadTimeout;
use crate::text::{owned, same};
use vstd::prelude::*;

verus! {

/// Whether the model is in memory.
#[derive(Clone, Copy, Debug, PartialEq, Eq, Structural)]
pub enum ModelState {
    Unloaded,
    /// Somebody loads it; whoever else needs it waits.
    Loading,
    Loaded,
}

/// What a caller who needs the model has to do.
#[derive(Clone, Copy, Debug, PartialEq, Eq, Structural)]
pub enum Acquire {
    /// The model is in memory: go on.
    Ready,
    /// Load the model, then report with
    /// [`ModelHandle::load_finished`].
    Load,
    /// Somebody else loads the model: wait for it.
    Wait,
}

/// The book-keeping for the loaded model. Times are in milliseconds.
#[derive(Clone, Copy, Debug, PartialEq, Eq, Structural)]
pub struct ModelHandle {
    state: ModelState,
    last_used: u64,
    timeout: ModelUnloadTimeout,
    users: u64,
}

/// The mathematical value of a [`ModelHandle`].
pub struct ModelHandleView {
    pub state: ModelState,
    /// When the model was last acquired, loaded or released.
    pub last_used: u64,
    pub timeout: ModelUnloadTimeout,
    /// How many callers hold the model.
    pub users: u64,
}

impl View for ModelHandle {
    type V = ModelHandleView;

    closed spec fn view(&self) -> ModelHandleView {
        ModelHandleView {
            state: self.state,
            last_used: self.last_used,
            timeout: self.timeout,
            users: self.users,
        }
    }
}

impl ModelHandleView {
    /// How long the model has been idle at the time `now`; a clock that
    /// went back counts as no time.
    pub open spec fn idle_for(self, now: u64) -> int {
        if now >= self.last_used {
            now - self.last_used
        } else {
            0
        }
    }

    /// Whether the model is to be unloaded at the time `now`: it is in
    /// memory, nobody holds it, and it has been idle for the configured
    /// time. With the timeout `Never` it is never unloaded.
    pub open spec fn evictable(self, now: u64) -> bool {
        &&& self.state == ModelState::Loaded
        &&& self.users == 0
        &&& self.timeout.seconds() matches Some(seconds) && self.idle_for(now) >= seconds * 1000
    }

    /// The handle after a caller has asked for the model.
    pub open spec fn acquired(self, now: u64) -> ModelHandleView {
        ModelHandleView {
            state: if self.state == ModelState::Unloaded {
                ModelState::Loading
            } else {
                self.state
            },
            last_used: if self.state == ModelState::Loaded {
                now
            } else {
                self.last_used
            },
            users: (self.users + 1) as u64,
            ..self
        }
    }

    /// What a caller who asks for the model is told.
    pub open spec fn acquire_answer(self) -> Acquire {
        match self.state {
            ModelState::Loaded => Acquire::Ready,
            ModelState::Unloaded => Acquire::Load,
            ModelState::Loading => Acquire::Wait,
        }
    }

    /// The handle after the loading has ended, well or not. Only a handle
    /// that is loading takes notice.
    pub open spec fn load_ended(self, loaded: bool, now: u64) -> ModelHandleView {
        if self.state != ModelState::Loading {
            self
        } else if loaded {
            ModelHandleView { state: ModelState::Loaded, last_used: now, ..self }
        } else {
            ModelHandleView { state: ModelState::Unloaded, ..self }
        }
    }

    /// The handle after a caller has given the model back.
    pub open spec fn let_go(self, now: u64) -> ModelHandleView {
        ModelHandleView {
            users: if self.users > 0 {
                (self.users - 1) as u64
            } else {
                0
            },
            last_used: now,
            ..self
        }
    }

    /// The handle after the idle check at the time `now`.
    pub open spec fn checked(self, now: u64) -> ModelHandleView {
        if self.evictable(now) {
            ModelHandleView { state: ModelState::Unloaded, ..self }
        } else {
            self
        }
    }
}

impl ModelHandle {
    /// The handle of a model that is not loaded yet.
    pub fn new(timeout: ModelUnloadTimeout) -> (r: Self)
        ensures
            r@ == (ModelHandleView {
                state: ModelState::Unloaded,
                last_used: 0,
                timeout,
                users: 0,
            }),
    {
        ModelHandle { state: ModelState::Unloaded, last_used: 0, timeout, users: 0 }
    }

    pub fn state(&self) -> (r: ModelState)
        ensures
            r == self@.state,
    {
        self.state
    }

    /// How many callers hold the model.
    pub fn users(&self) -> (r: u64)
        ensures
            r == self@.users,
    {
        self.users
    }

    pub fn last_used(&self) -> (r: u64)
        ensures
            r == self@.last_used,
    {
        self.last_used
    }

    pub fn timeout(&self) -> (r: ModelUnloadTimeout)
        ensures
            r == self@.timeout,
    {
        self.timeout
    }

    /// Takes over a changed setting.
    pub fn set_timeout(&mut self, timeout: ModelUnloadTimeout)
        ensures
            final(self)@ == (ModelHandleView { timeout, ..old(self)@ }),
    {
        self.timeout = timeout;
    }

    /// Counts a caller who needs the model and says what the caller has to
    /// do. A model that is not in memory is never a failure: the first
    /// caller loads it and the others wait. The count must have room for
    /// one more.
    pub fn acquire(&mut self, now: u64) -> (r: Acquire)
        requires
            old(self)@.users < u64::MAX,
        ensures
            final(self)@ == old(self)@.acquired(now),
            r == old(self)@.acquire_answer(),
    {
        self.users = self.users + 1;
        match self.state {
            ModelState::Loaded => {
                self.last_used = now;
                Acquire::Ready
            },
            ModelState::Unloaded => {
                self.state = ModelState::Loading;
                Acquire::Load
            },
            ModelState::Loading => Acquire::Wait,
        }
    }

    /// Takes the end of the loading.
    pub fn load_finished(&mut self, loaded: bool, now: u64)
        ensures
            final(self)@ == old(self)@.load_ended(loaded, now),
    {
        if self.state == ModelState::Loading {
            if loaded {
                self.state = ModelState::Loaded;
                self.last_used = now;
            } else {
                self.state = ModelState::Unloaded;
            }
        }
    }

    /// Counts a caller who is done with the model, and takes the time.
    pub fn release(&mut self, now: u64)
        ensures
            final(self)@ == old(self)@.let_go(now),
    {
        if self.users > 0 {
            self.users = self.users - 1;
        }
        self.last_used = now;
    }

    /// Whether the model is to be unloaded at the time `now`.
    pub fn should_evict(&self, now: u64) -> (r: bool)
        ensures
            r == self@.evictable(now),
    {
        if self.state != ModelState::Loaded || self.users != 0 {
            return false;
        }
        match self.timeout.to_seconds() {
            Some(seconds) => {
                let idle = if now >= self.last_used {
                    now - self.last_used
                } else {
                    0
                };
                idle >= seconds * 1000
            },
            None => false,
        }
    }

    /// The idle check of the eviction timer: marks the model as unloaded
    /// where it is to be unloaded, and says whether it did. A model that
    /// somebody holds is never touched.
    pub fn evict_if_idle(&mut self, now: u64) -> (r: bool)
        ensures
            final(self)@ == old(self)@.checked(now),
            r == old(self)@.evictable(now),
    {
        if self.should_evict(now) {
            self.state = ModelState::Unloaded;
            true
        } else {
            false
        }
    }
}

/// A model is unloaded only when nobody holds it and it has been idle for
/// its configured time; while somebody holds it, the idle check changes
/// nothing.
pub proof fn law_eviction_spares_users(handle: ModelHandleView, now: u64)
    ensures
        handle.users > 0 ==> handle.checked(now) == handle,
        handle.timeout == ModelUnloadTimeout::Never ==> handle.checked(now) == handle,
        handle.checked(now) != handle ==> handle.users == 0 && handle.timeout.seconds() is Some
            && handle.idle_for(now) >= handle.timeout.seconds()->0 * 1000,
{
}

/// With the five-second timeout a loaded model that nobody holds and that
/// was not used for five seconds or more is unloaded by the idle check.
/// The next caller is not refused: it is told to load the model, and once
/// that is done the model is in memory and held by that caller.
pub proof fn law_eviction_and_reload(handle: ModelHandleView, now: u64, later: u64, loaded_at: u64)
    requires
        handle.timeout == ModelUnloadTimeout::Sec5,
        handle.state == ModelState::Loaded,
        handle.users == 0,
        now >= handle.last_used + 5000,
    ensures
        handle.evictable(now),
        handle.checked(now).state == ModelState::Unloaded,
        handle.checked(now).acquire_answer() == Acquire::Load,
        handle.checked(now).acquired(later).load_ended(true, loaded_at).state
            == ModelState::Loaded,
        handle.checked(now).acquired(later).load_ended(true, loaded_at).users == 1,
{
}

/// The language to tell the speech model: none where the configured
/// language is `auto`, which asks it to detect the language.
pub open spec fn language_hint_of(selected: Seq<char>) -> Option<Seq<char>> {
    if selected == "auto"@ {
        None
    } else {
        Some(selected)
    }
}

/// The language to tell the speech model.
pub fn language_hint(selected: &str) -> (r: Option<String>)
    ensures
        r.deep_view() == language_hint_of(selected@),
{
    if same(selected, "auto") {
        None
    } else {
        Some(owned(selected))
    }
}

} // verus!
