//! Window event types and the registry of per-application observers.
//!
//! Each running application gets its own accessibility observer. The
//! registry remembers which process IDs are observed and owns their
//! observer handles; the application creates and releases the handles.

pub mod notifications;

use vstd::prelude::*;

use crate::keyed::{
    key_in, keyed_map, lemma_keyed_map_empty, lemma_keyed_map_index, lemma_keyed_map_len,
    lemma_keyed_map_push, lemma_keyed_map_remove, unique_keys,
};
use crate::text::str_equal;

verus! {

/// Types of window events that can be observed.
#[derive(Debug, Clone, Copy, PartialEq, Eq, Hash, Structural)]
pub enum WindowEventType {
    /// A new window was created.
    Created,
    /// A window was closed/destroyed.
    Destroyed,
    /// A window gained focus.
    Focused,
    /// A window lost focus.
    Unfocused,
    /// A window was moved to a new position.
    Moved,
    /// A window was resized.
    Resized,
    /// A window was minimized.
    Minimized,
    /// A window was restored from minimized state.
    Unminimized,
    /// A window's title changed.
    TitleChanged,
    /// An application was activated (brought to front).
    AppActivated,
    /// An application was deactivated (moved to background).
    AppDeactivated,
    /// An application was hidden.
    AppHidden,
    /// An application was shown.
    AppShown,
}

/// The accessibility notification name of an event type.
pub open spec fn notification_name_spec(e: WindowEventType) -> Seq<char> {
    match e {
        WindowEventType::Created => "AXWindowCreated"@,
        WindowEventType::Destroyed => "AXUIElementDestroyed"@,
        WindowEventType::Focused => "AXFocusedWindowChanged"@,
        WindowEventType::Unfocused => "AXFocusedUIElementChanged"@,
        WindowEventType::Moved => "AXWindowMoved"@,
        WindowEventType::Resized => "AXWindowResized"@,
        WindowEventType::Minimized => "AXWindowMiniaturized"@,
        WindowEventType::Unminimized => "AXWindowDeminiaturized"@,
        WindowEventType::TitleChanged => "AXTitleChanged"@,
        WindowEventType::AppActivated => "AXApplicationActivated"@,
        WindowEventType::AppDeactivated => "AXApplicationDeactivated"@,
        WindowEventType::AppHidden => "AXApplicationHidden"@,
        WindowEventType::AppShown => "AXApplicationShown"@,
    }
}

/// The event type whose notification is named `n`, if any.
pub open spec fn from_notification_spec(n: Seq<char>) -> Option<WindowEventType> {
    if n == "AXWindowCreated"@ {
        Some(WindowEventType::Created)
    } else if n == "AXUIElementDestroyed"@ {
        Some(WindowEventType::Destroyed)
    } else if n == "AXFocusedWindowChanged"@ {
        Some(WindowEventType::Focused)
    } else if n == "AXFocusedUIElementChanged"@ {
        Some(WindowEventType::Unfocused)
    } else if n == "AXWindowMoved"@ {
        Some(WindowEventType::Moved)
    } else if n == "AXWindowResized"@ {
        Some(WindowEventType::Resized)
    } else if n == "AXWindowMiniaturized"@ {
        Some(WindowEventType::Minimized)
    } else if n == "AXWindowDeminiaturized"@ {
        Some(WindowEventType::Unminimized)
    } else if n == "AXTitleChanged"@ {
        Some(WindowEventType::TitleChanged)
    } else if n == "AXApplicationActivated"@ {
        Some(WindowEventType::AppActivated)
    } else if n == "AXApplicationDeactivated"@ {
        Some(WindowEventType::AppDeactivated)
    } else if n == "AXApplicationHidden"@ {
        Some(WindowEventType::AppHidden)
    } else if n == "AXApplicationShown"@ {
        Some(WindowEventType::AppShown)
    } else {
        None
    }
}

/// The event types that are observed: every type but `Unfocused`.
pub open spec fn observed_types() -> Seq<WindowEventType> {
    seq![
        WindowEventType::Created,
        WindowEventType::Destroyed,
        WindowEventType::Focused,
        WindowEventType::Moved,
        WindowEventType::Resized,
        WindowEventType::Minimized,
        WindowEventType::Unminimized,
        WindowEventType::TitleChanged,
        WindowEventType::AppActivated,
        WindowEventType::AppDeactivated,
        WindowEventType::AppHidden,
        WindowEventType::AppShown,
    ]
}

impl WindowEventType {
    /// Returns the accessibility notification name for this event type.
    pub fn notification_name(self) -> (r: &'static str)
        ensures
            r@ == notification_name_spec(self),
    {
        match self {
            WindowEventType::Created => "AXWindowCreated",
            WindowEventType::Destroyed => "AXUIElementDestroyed",
            WindowEventType::Focused => "AXFocusedWindowChanged",
            WindowEventType::Unfocused => "AXFocusedUIElementChanged",
            WindowEventType::Moved => "AXWindowMoved",
            WindowEventType::Resized => "AXWindowResized",
            WindowEventType::Minimized => "AXWindowMiniaturized",
            WindowEventType::Unminimized => "AXWindowDeminiaturized",
            WindowEventType::TitleChanged => "AXTitleChanged",
            WindowEventType::AppActivated => "AXApplicationActivated",
            WindowEventType::AppDeactivated => "AXApplicationDeactivated",
            WindowEventType::AppHidden => "AXApplicationHidden",
            WindowEventType::AppShown => "AXApplicationShown",
        }
    }

    /// Parses a notification name string into an event type.
    pub fn from_notification(name: &str) -> (r: Option<Self>)
        ensures
            r == from_notification_spec(name@),
    {
        if str_equal(name, "AXWindowCreated") {
            Some(WindowEventType::Created)
        } else if str_equal(name, "AXUIElementDestroyed") {
            Some(WindowEventType::Destroyed)
        } else if str_equal(name, "AXFocusedWindowChanged") {
            Some(WindowEventType::Focused)
        } else if str_equal(name, "AXFocusedUIElementChanged") {
            Some(WindowEventType::Unfocused)
        } else if str_equal(name, "AXWindowMoved") {
            Some(WindowEventType::Moved)
        } else if str_equal(name, "AXWindowResized") {
            Some(WindowEventType::Resized)
        } else if str_equal(name, "AXWindowMiniaturized") {
            Some(WindowEventType::Minimized)
        } else if str_equal(name, "AXWindowDeminiaturized") {
            Some(WindowEventType::Unminimized)
        } else if str_equal(name, "AXTitleChanged") {
            Some(WindowEventType::TitleChanged)
        } else if str_equal(name, "AXApplicationActivated") {
            Some(WindowEventType::AppActivated)
        } else if str_equal(name, "AXApplicationDeactivated") {
            Some(WindowEventType::AppDeactivated)
        } else if str_equal(name, "AXApplicationHidden") {
            Some(WindowEventType::AppHidden)
        } else if str_equal(name, "AXApplicationShown") {
            Some(WindowEventType::AppShown)
        } else {
            None
        }
    }

    /// Returns all event types that should be observed.
    pub fn all() -> (r: Vec<Self>)
        ensures
            r@ == observed_types(),
    {
        let r = vec![
            WindowEventType::Created,
            WindowEventType::Destroyed,
            WindowEventType::Focused,
            WindowEventType::Moved,
            WindowEventType::Resized,
            WindowEventType::Minimized,
            WindowEventType::Unminimized,
            WindowEventType::TitleChanged,
            WindowEventType::AppActivated,
            WindowEventType::AppDeactivated,
            WindowEventType::AppHidden,
            WindowEventType::AppShown,
        ];
        assert(r@ =~= observed_types());
        r
    }
}

/// Parsing the notification name of an event type gives back that event type.
pub proof fn law_notification_round_trip(e: WindowEventType)
    ensures
        from_notification_spec(notification_name_spec(e)) == Some(e),
{
    match e {
        WindowEventType::Created => {
            reveal_strlit("AXWindowCreated");
        },
        WindowEventType::Destroyed => {
            reveal_strlit("AXUIElementDestroyed");
            reveal_strlit("AXWindowCreated");
            assert("AXUIElementDestroyed"@.len() != "AXWindowCreated"@.len());
        },
        WindowEventType::Focused => {
            reveal_strlit("AXFocusedWindowChanged");
            reveal_strlit("AXWindowCreated");
            assert("AXFocusedWindowChanged"@.len() != "AXWindowCreated"@.len());
            reveal_strlit("AXUIElementDestroyed");
            assert("AXFocusedWindowChanged"@.len() != "AXUIElementDestroyed"@.len());
        },
        WindowEventType::Unfocused => {
            reveal_strlit("AXFocusedUIElementChanged");
            reveal_strlit("AXWindowCreated");
            assert("AXFocusedUIElementChanged"@.len() != "AXWindowCreated"@.len());
            reveal_strlit("AXUIElementDestroyed");
            assert("AXFocusedUIElementChanged"@.len() != "AXUIElementDestroyed"@.len());
            reveal_strlit("AXFocusedWindowChanged");
            assert("AXFocusedUIElementChanged"@.len() != "AXFocusedWindowChanged"@.len());
        },
        WindowEventType::Moved => {
            reveal_strlit("AXWindowMoved");
            reveal_strlit("AXWindowCreated");
            assert("AXWindowMoved"@.len() != "AXWindowCreated"@.len());
            reveal_strlit("AXUIElementDestroyed");
            assert("AXWindowMoved"@.len() != "AXUIElementDestroyed"@.len());
            reveal_strlit("AXFocusedWindowChanged");
            assert("AXWindowMoved"@.len() != "AXFocusedWindowChanged"@.len());
            reveal_strlit("AXFocusedUIElementChanged");
            assert("AXWindowMoved"@.len() != "AXFocusedUIElementChanged"@.len());
        },
        WindowEventType::Resized => {
            reveal_strlit("AXWindowResized");
            reveal_strlit("AXWindowCreated");
            assert("AXWindowResized"@[8] != "AXWindowCreated"@[8]);
            reveal_strlit("AXUIElementDestroyed");
            assert("AXWindowResized"@.len() != "AXUIElementDestroyed"@.len());
            reveal_strlit("AXFocusedWindowChanged");
            assert("AXWindowResized"@.len() != "AXFocusedWindowChanged"@.len());
            reveal_strlit("AXFocusedUIElementChanged");
            assert("AXWindowResized"@.len() != "AXFocusedUIElementChanged"@.len());
            reveal_strlit("AXWindowMoved");
            assert("AXWindowResized"@.len() != "AXWindowMoved"@.len());
        },
        WindowEventType::Minimized => {
            reveal_strlit("AXWindowMiniaturized");
            reveal_strlit("AXWindowCreated");
            assert("AXWindowMiniaturized"@.len() != "AXWindowCreated"@.len());
            reveal_strlit("AXUIElementDestroyed");
            assert("AXWindowMiniaturized"@[2] != "AXUIElementDestroyed"@[2]);
            reveal_strlit("AXFocusedWindowChanged");
            assert("AXWindowMiniaturized"@.len() != "AXFocusedWindowChanged"@.len());
            reveal_strlit("AXFocusedUIElementChanged");
            assert("AXWindowMiniaturized"@.len() != "AXFocusedUIElementChanged"@.len());
            reveal_strlit("AXWindowMoved");
            assert("AXWindowMiniaturized"@.len() != "AXWindowMoved"@.len());
            reveal_strlit("AXWindowResized");
            assert("AXWindowMiniaturized"@.len() != "AXWindowResized"@.len());
        },
        WindowEventType::Unminimized => {
            reveal_strlit("AXWindowDeminiaturized");
            reveal_strlit("AXWindowCreated");
            assert("AXWindowDeminiaturized"@.len() != "AXWindowCreated"@.len());
            reveal_strlit("AXUIElementDestroyed");
            assert("AXWindowDeminiaturized"@.len() != "AXUIElementDestroyed"@.len());
            reveal_strlit("AXFocusedWindowChanged");
            assert("AXWindowDeminiaturized"@[2] != "AXFocusedWindowChanged"@[2]);
            reveal_strlit("AXFocusedUIElementChanged");
            assert("AXWindowDeminiaturized"@.len() != "AXFocusedUIElementChanged"@.len());
            reveal_strlit("AXWindowMoved");
            assert("AXWindowDeminiaturized"@.len() != "AXWindowMoved"@.len());
            reveal_strlit("AXWindowResized");
            assert("AXWindowDeminiaturized"@.len() != "AXWindowResized"@.len());
            reveal_strlit("AXWindowMiniaturized");
            assert("AXWindowDeminiaturized"@.len() != "AXWindowMiniaturized"@.len());
        },
        WindowEventType::TitleChanged => {
            reveal_strlit("AXTitleChanged");
            reveal_strlit("AXWindowCreated");
            assert("AXTitleChanged"@.len() != "AXWindowCreated"@.len());
            reveal_strlit("AXUIElementDestroyed");
            assert("AXTitleChanged"@.len() != "AXUIElementDestroyed"@.len());
            reveal_strlit("AXFocusedWindowChanged");
            assert("AXTitleChanged"@.len() != "AXFocusedWindowChanged"@.len());
            reveal_strlit("AXFocusedUIElementChanged");
            assert("AXTitleChanged"@.len() != "AXFocusedUIElementChanged"@.len());
            reveal_strlit("AXWindowMoved");
            assert("AXTitleChanged"@.len() != "AXWindowMoved"@.len());
            reveal_strlit("AXWindowResized");
            assert("AXTitleChanged"@.len() != "AXWindowResized"@.len());
            reveal_strlit("AXWindowMiniaturized");
            assert("AXTitleChanged"@.len() != "AXWindowMiniaturized"@.len());
            reveal_strlit("AXWindowDeminiaturized");
            assert("AXTitleChanged"@.len() != "AXWindowDeminiaturized"@.len());
        },
        WindowEventType::AppActivated => {
            reveal_strlit("AXApplicationActivated");
            reveal_strlit("AXWindowCreated");
            assert("AXApplicationActivated"@.len() != "AXWindowCreated"@.len());
            reveal_strlit("AXUIElementDestroyed");
            assert("AXApplicationActivated"@.len() != "AXUIElementDestroyed"@.len());
            reveal_strlit("AXFocusedWindowChanged");
            assert("AXApplicationActivated"@[2] != "AXFocusedWindowChanged"@[2]);
            reveal_strlit("AXFocusedUIElementChanged");
            assert("AXApplicationActivated"@.len() != "AXFocusedUIElementChanged"@.len());
            reveal_strlit("AXWindowMoved");
            assert("AXApplicationActivated"@.len() != "AXWindowMoved"@.len());
            reveal_strlit("AXWindowResized");
            assert("AXApplicationActivated"@.len() != "AXWindowResized"@.len());
            reveal_strlit("AXWindowMiniaturized");
            assert("AXApplicationActivated"@.len() != "AXWindowMiniaturized"@.len());
            reveal_strlit("AXWindowDeminiaturized");
            assert("AXApplicationActivated"@[2] != "AXWindowDeminiaturized"@[2]);
            reveal_strlit("AXTitleChanged");
            assert("AXApplicationActivated"@.len() != "AXTitleChanged"@.len());
        },
        WindowEventType::AppDeactivated => {
            reveal_strlit("AXApplicationDeactivated");
            reveal_strlit("AXWindowCreated");
            assert("AXApplicationDeactivated"@.len() != "AXWindowCreated"@.len());
            reveal_strlit("AXUIElementDestroyed");
            assert("AXApplicationDeactivated"@.len() != "AXUIElementDestroyed"@.len());
            reveal_strlit("AXFocusedWindowChanged");
            assert("AXApplicationDeactivated"@.len() != "AXFocusedWindowChanged"@.len());
            reveal_strlit("AXFocusedUIElementChanged");
            assert("AXApplicationDeactivated"@.len() != "AXFocusedUIElementChanged"@.len());
            reveal_strlit("AXWindowMoved");
            assert("AXApplicationDeactivated"@.len() != "AXWindowMoved"@.len());
            reveal_strlit("AXWindowResized");
            assert("AXApplicationDeactivated"@.len() != "AXWindowResized"@.len());
            reveal_strlit("AXWindowMiniaturized");
            assert("AXApplicationDeactivated"@.len() != "AXWindowMiniaturized"@.len());
            reveal_strlit("AXWindowDeminiaturized");
            assert("AXApplicationDeactivated"@.len() != "AXWindowDeminiaturized"@.len());
            reveal_strlit("AXTitleChanged");
            assert("AXApplicationDeactivated"@.len() != "AXTitleChanged"@.len());
            reveal_strlit("AXApplicationActivated");
            assert("AXApplicationDeactivated"@.len() != "AXApplicationActivated"@.len());
        },
        WindowEventType::AppHidden => {
            reveal_strlit("AXApplicationHidden");
            reveal_strlit("AXWindowCreated");
            assert("AXApplicationHidden"@.len() != "AXWindowCreated"@.len());
            reveal_strlit("AXUIElementDestroyed");
            assert("AXApplicationHidden"@.len() != "AXUIElementDestroyed"@.len());
            reveal_strlit("AXFocusedWindowChanged");
            assert("AXApplicationHidden"@.len() != "AXFocusedWindowChanged"@.len());
            reveal_strlit("AXFocusedUIElementChanged");
            assert("AXApplicationHidden"@.len() != "AXFocusedUIElementChanged"@.len());
            reveal_strlit("AXWindowMoved");
            assert("AXApplicationHidden"@.len() != "AXWindowMoved"@.len());
            reveal_strlit("AXWindowResized");
            assert("AXApplicationHidden"@.len() != "AXWindowResized"@.len());
            reveal_strlit("AXWindowMiniaturized");
            assert("AXApplicationHidden"@.len() != "AXWindowMiniaturized"@.len());
            reveal_strlit("AXWindowDeminiaturized");
            assert("AXApplicationHidden"@.len() != "AXWindowDeminiaturized"@.len());
            reveal_strlit("AXTitleChanged");
            assert("AXApplicationHidden"@.len() != "AXTitleChanged"@.len());
            reveal_strlit("AXApplicationActivated");
            assert("AXApplicationHidden"@.len() != "AXApplicationActivated"@.len());
            reveal_strlit("AXApplicationDeactivated");
            assert("AXApplicationHidden"@.len() != "AXApplicationDeactivated"@.len());
        },
        WindowEventType::AppShown => {
            reveal_strlit("AXApplicationShown");
            reveal_strlit("AXWindowCreated");
            assert("AXApplicationShown"@.len() != "AXWindowCreated"@.len());
            reveal_strlit("AXUIElementDestroyed");
            assert("AXApplicationShown"@.len() != "AXUIElementDestroyed"@.len());
            reveal_strlit("AXFocusedWindowChanged");
            assert("AXApplicationShown"@.len() != "AXFocusedWindowChanged"@.len());
            reveal_strlit("AXFocusedUIElementChanged");
            assert("AXApplicationShown"@.len() != "AXFocusedUIElementChanged"@.len());
            reveal_strlit("AXWindowMoved");
            assert("AXApplicationShown"@.len() != "AXWindowMoved"@.len());
            reveal_strlit("AXWindowResized");
            assert("AXApplicationShown"@.len() != "AXWindowResized"@.len());
            reveal_strlit("AXWindowMiniaturized");
            assert("AXApplicationShown"@.len() != "AXWindowMiniaturized"@.len());
            reveal_strlit("AXWindowDeminiaturized");
            assert("AXApplicationShown"@.len() != "AXWindowDeminiaturized"@.len());
            reveal_strlit("AXTitleChanged");
            assert("AXApplicationShown"@.len() != "AXTitleChanged"@.len());
            reveal_strlit("AXApplicationActivated");
            assert("AXApplicationShown"@.len() != "AXApplicationActivated"@.len());
            reveal_strlit("AXApplicationDeactivated");
            assert("AXApplicationShown"@.len() != "AXApplicationDeactivated"@.len());
            reveal_strlit("AXApplicationHidden");
            assert("AXApplicationShown"@.len() != "AXApplicationHidden"@.len());
        },
    }
}

/// A window event received from the accessibility system.
#[derive(Debug, Clone, Copy)]
pub struct WindowEvent {
    /// The type of event.
    pub event_type: WindowEventType,
    /// The process ID of the application that owns the element.
    pub pid: i32,
    /// The accessibility element that triggered the event, as an opaque address.
    pub element: usize,
}

impl WindowEvent {
    /// Creates a new window event.
    pub fn new(event_type: WindowEventType, pid: i32, element: usize) -> (r: Self)
        ensures
            r.event_type == event_type,
            r.pid == pid,
            r.element == element,
    {
        WindowEvent { event_type, pid, element }
    }
}

/// The observed applications and their observer handles.
pub struct ObserverRegistry<T> {
    initialized: bool,
    observers: Vec<(i32, T)>,
}

impl<T> ObserverRegistry<T> {
    /// The observers by process ID.
    pub closed spec fn view(&self) -> Map<i32, T> {
        keyed_map(self.observers@)
    }

    /// Whether the observer system is running.
    pub closed spec fn running(&self) -> bool {
        self.initialized
    }

    /// Whether no process is observed twice.
    pub closed spec fn wf(&self) -> bool {
        unique_keys(self.observers@)
    }

    /// A registry that has not been initialized.
    pub fn new() -> (r: Self)
        ensures
            r.wf(),
            !r.running(),
            r.view() == Map::<i32, T>::empty(),
    {
        let r = ObserverRegistry { initialized: false, observers: Vec::new() };
        proof {
            lemma_keyed_map_empty(r.observers@);
        }
        r
    }

    /// Starts the observer system.
    ///
    /// Returns `true` when this call started it; an already running system is
    /// left as it is.
    pub fn start(&mut self) -> (r: bool)
        requires
            old(self).wf(),
        ensures
            final(self).wf(),
            r == !old(self).running(),
            final(self).running(),
            final(self).view() == if r {
                Map::<i32, T>::empty()
            } else {
                old(self).view()
            },
    {
        if self.initialized {
            return false;
        }
        self.initialized = true;
        self.observers = Vec::new();
        proof {
            lemma_keyed_map_empty(self.observers@);
        }
        true
    }

    /// Whether the application with `pid` is observed.
    pub fn is_observing(&self, pid: i32) -> (r: bool)
        requires
            self.wf(),
        ensures
            r == self.view().contains_key(pid),
    {
        self.find(pid).is_some()
    }

    fn find(&self, pid: i32) -> (r: Option<usize>)
        requires
            self.wf(),
        ensures
            r matches Some(i) ==> i < self.observers@.len() && self.observers@[i as int].0 == pid,
            r is None ==> !key_in(self.observers@, pid),
            r is Some == self.view().contains_key(pid),
    {
        let mut i: usize = 0;
        while i < self.observers.len()
            invariant
                self.wf(),
                i <= self.observers@.len(),
                forall|j: int| 0 <= j < i ==> self.observers@[j].0 != pid,
            decreases self.observers@.len() - i,
        {
            if self.observers[i].0 == pid {
                proof {
                    lemma_keyed_map_index(self.observers@, i as int);
                }
                return Some(i);
            }
            i = i + 1;
        }
        None
    }

    /// Records the observer created for `pid`.
    ///
    /// Gives the observer back when the system is not running or `pid` is
    /// already observed.
    pub fn insert(&mut self, pid: i32, observer: T) -> (r: Result<(), T>)
        requires
            old(self).wf(),
        ensures
            final(self).wf(),
            final(self).running() == old(self).running(),
            r is Ok == (old(self).running() && !old(self).view().contains_key(pid)),
            r matches Err(o) ==> o == observer,
            final(self).view() == if r is Ok {
                old(self).view().insert(pid, observer)
            } else {
                old(self).view()
            },
            final(self).view().dom().finite(),
            final(self).view().len() == old(self).view().len() + if r is Ok {
                1int
            } else {
                0int
            },
    {
        proof {
            lemma_keyed_map_len(self.observers@);
        }
        if !self.initialized || self.find(pid).is_some() {
            return Err(observer);
        }
        let ghost old_obs = self.observers@;
        self.observers.push((pid, observer));
        proof {
            lemma_keyed_map_push(old_obs, pid, observer);
        }
        Ok(())
    }
}

/// Removes the observer for an application.
///
/// Gives back the removed observer so that it can be released; nothing is
/// removed while the system is not running.
pub fn remove_observer<T>(registry: &mut ObserverRegistry<T>, pid: i32) -> (r: Option<T>)
    requires
        old(registry).wf(),
    ensures
        final(registry).wf(),
        final(registry).running() == old(registry).running(),
        r is Some == (old(registry).running() && old(registry).view().contains_key(pid)),
        r matches Some(o) ==> o == old(registry).view()[pid],
        final(registry).view() == if old(registry).running() {
            old(registry).view().remove(pid)
        } else {
            old(registry).view()
        },
        final(registry).view().dom().finite(),
        final(registry).view().len() == old(registry).view().len() - if r is Some {
            1int
        } else {
            0int
        },
{
    proof {
        lemma_keyed_map_len(registry.observers@);
    }
    if !registry.initialized {
        return None;
    }
    match registry.find(pid) {
        Some(i) => {
            let ghost old_obs = registry.observers@;
            proof {
                lemma_keyed_map_index(old_obs, i as int);
            }
            let (_, o) = registry.observers.remove(i);
            proof {
                lemma_keyed_map_remove(old_obs, i as int);
            }
            Some(o)
        },
        None => {
            assert(registry.view() =~= registry.view().remove(pid));
            None
        },
    }
}

/// Shuts down the observer system.
///
/// Gives back every observer so that it can be released.
pub fn shutdown<T>(registry: &mut ObserverRegistry<T>) -> (r: Vec<(i32, T)>)
    requires
        old(registry).wf(),
    ensures
        final(registry).wf(),
        !final(registry).running(),
        final(registry).view() == if old(registry).running() {
            Map::<i32, T>::empty()
        } else {
            old(registry).view()
        },
        old(registry).running() ==> keyed_map(r@) == old(registry).view(),
        !old(registry).running() ==> r@.len() == 0,
{
    if !registry.initialized {
        return Vec::new();
    }
    registry.initialized = false;
    let mut taken: Vec<(i32, T)> = Vec::new();
    std::mem::swap(&mut taken, &mut registry.observers);
    proof {
        lemma_keyed_map_empty(registry.observers@);
    }
    taken
}

/// Checks if the observer system is initialized.
pub fn is_initialized<T>(registry: &ObserverRegistry<T>) -> (r: bool)
    ensures
        r == registry.running(),
{
    registry.initialized
}

/// Returns the number of applications being observed (zero when not running).
pub fn observer_count<T>(registry: &ObserverRegistry<T>) -> (r: usize)
    requires
        registry.wf(),
    ensures
        r == if registry.running() {
            registry.view().len()
        } else {
            0
        },
{
    if !registry.initialized {
        return 0;
    }
    proof {
        lemma_keyed_map_len(registry.observers@);
    }
    registry.observers.len()
}

} // verus!
