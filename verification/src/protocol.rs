//! The wire vocabulary shared by Core and its outposts: focus facts as the
//! listener captures them and as an outpost receives them, and the
//! object-navigation directions and outcomes.
//!
//! A UIA focus fact carries the element's cached snapshot parts; that payload
//! is carried through unchanged and is a type parameter here.

use vstd::prelude::*;

verus! {

/// A focus fact the listener forwards to Core, tagged with the pid Core routes
/// it to.
#[derive(Clone, Debug, PartialEq)]
pub enum ListenerFact<S> {
    /// A UIA focus change: the owning pid, the element's cached native window
    /// handle (0 when the element is not itself a window), and its cached
    /// snapshot parts.
    UiaFocus { pid: u32, hwnd: isize, snapshot: S },
    /// An MSAA focus change: the owning pid and the raw `WinEvent` address.
    MsaaFocus { pid: u32, hwnd: isize, id_object: i32, id_child: i32 },
    /// A foreground change: the owning pid and the new foreground window.
    Foreground { pid: u32, hwnd: isize },
    /// A popup menu opening: the owning pid and the raw `WinEvent` address.
    MenuPopup { pid: u32, hwnd: isize, id_object: i32, id_child: i32 },
}

/// A focus fact delivered to a target outpost: the address a
/// [`ListenerFact`] carries, minus the pid.
#[derive(Clone, Debug, PartialEq)]
pub enum DeliveredFact<S> {
    /// A UIA focus change (see [`ListenerFact::UiaFocus`]).
    UiaFocus { hwnd: isize, snapshot: S },
    /// An MSAA focus change (see [`ListenerFact::MsaaFocus`]).
    MsaaFocus { hwnd: isize, id_object: i32, id_child: i32 },
    /// A foreground change (see [`ListenerFact::Foreground`]).
    Foreground { hwnd: isize },
    /// A popup menu opening (see [`ListenerFact::MenuPopup`]).
    MenuPopup { hwnd: isize, id_object: i32, id_child: i32 },
}

/// The pid a listener fact is routed to.
pub open spec fn fact_pid<S>(fact: ListenerFact<S>) -> u32 {
    match fact {
        ListenerFact::UiaFocus { pid, .. } => pid,
        ListenerFact::MsaaFocus { pid, .. } => pid,
        ListenerFact::Foreground { pid, .. } => pid,
        ListenerFact::MenuPopup { pid, .. } => pid,
    }
}

/// A listener fact with its pid stripped.
pub open spec fn delivered_of<S>(fact: ListenerFact<S>) -> DeliveredFact<S> {
    match fact {
        ListenerFact::UiaFocus { hwnd, snapshot, .. } => DeliveredFact::UiaFocus { hwnd, snapshot },
        ListenerFact::MsaaFocus { hwnd, id_object, id_child, .. } => DeliveredFact::MsaaFocus {
            hwnd,
            id_object,
            id_child,
        },
        ListenerFact::Foreground { hwnd, .. } => DeliveredFact::Foreground { hwnd },
        ListenerFact::MenuPopup { hwnd, id_object, id_child, .. } => DeliveredFact::MenuPopup {
            hwnd,
            id_object,
            id_child,
        },
    }
}

impl<S> ListenerFact<S> {
    /// The pid the supervisor routes this fact to.
    pub fn pid(&self) -> (r: u32)
        ensures
            r == fact_pid(*self),
    {
        match self {
            ListenerFact::UiaFocus { pid, .. } => *pid,
            ListenerFact::MsaaFocus { pid, .. } => *pid,
            ListenerFact::Foreground { pid, .. } => *pid,
            ListenerFact::MenuPopup { pid, .. } => *pid,
        }
    }

    /// Strips the pid, yielding the [`DeliveredFact`] the supervisor hands to
    /// the target outpost once routing is done.
    pub fn into_delivered(self) -> (r: DeliveredFact<S>)
        ensures
            r == delivered_of(self),
    {
        match self {
            ListenerFact::UiaFocus { hwnd, snapshot, .. } => DeliveredFact::UiaFocus { hwnd, snapshot },
            ListenerFact::MsaaFocus { hwnd, id_object, id_child, .. } => DeliveredFact::MsaaFocus {
                hwnd,
                id_object,
                id_child,
            },
            ListenerFact::Foreground { hwnd, .. } => DeliveredFact::Foreground { hwnd },
            ListenerFact::MenuPopup { hwnd, id_object, id_child, .. } => DeliveredFact::MenuPopup {
                hwnd,
                id_object,
                id_child,
            },
        }
    }
}

/// The kind of a `WinEvent` the event thread observed.
#[derive(Clone, Copy, Debug, PartialEq, Eq)]
pub enum WinEventKind {
    /// `EVENT_OBJECT_FOCUS`.
    Focus,
    /// `EVENT_SYSTEM_FOREGROUND`.
    Foreground,
    /// `EVENT_SYSTEM_MENUPOPUPSTART`.
    MenuPopupStart,
    /// `EVENT_OBJECT_VALUECHANGE`.
    ValueChange,
    /// `EVENT_OBJECT_STATECHANGE`.
    StateChange,
    /// `EVENT_OBJECT_NAMECHANGE`.
    NameChange,
    /// `EVENT_OBJECT_SELECTION`.
    Selection,
}

/// The fact the listener forwards for a `WinEvent` on window `hwnd` owned by
/// `pid`: focus, foreground and menu-popup events become facts; events with
/// no window or no owning process, and every other kind, are dropped.
pub open spec fn msaa_fact_spec<S>(kind: WinEventKind, hwnd: isize, pid: u32, id_object: i32, id_child: i32) -> Option<
    ListenerFact<S>,
> {
    if hwnd == 0 || pid == 0 {
        None
    } else {
        match kind {
            WinEventKind::Focus => Some(ListenerFact::MsaaFocus { pid, hwnd, id_object, id_child }),
            WinEventKind::Foreground => Some(ListenerFact::Foreground { pid, hwnd }),
            WinEventKind::MenuPopupStart => Some(ListenerFact::MenuPopup { pid, hwnd, id_object, id_child }),
            _ => None,
        }
    }
}

/// Builds the fact the listener forwards for a `WinEvent`, if any; `pid` is
/// the window's owning process (0 when it could not be read).
pub fn msaa_listener_fact<S>(kind: WinEventKind, hwnd: isize, pid: u32, id_object: i32, id_child: i32) -> (r: Option<
    ListenerFact<S>,
>)
    ensures
        r == msaa_fact_spec::<S>(kind, hwnd, pid, id_object, id_child),
{
    if hwnd == 0 || pid == 0 {
        return None;
    }
    match kind {
        WinEventKind::Focus => Some(ListenerFact::MsaaFocus { pid, hwnd, id_object, id_child }),
        WinEventKind::Foreground => Some(ListenerFact::Foreground { pid, hwnd }),
        WinEventKind::MenuPopupStart => Some(ListenerFact::MenuPopup { pid, hwnd, id_object, id_child }),
        _ => None,
    }
}

/// Builds the fact the listener forwards for a UIA focus change, if any: an
/// element whose owning process could not be read, or reads as 0, is
/// dropped.
pub fn uia_listener_fact<S>(pid: Option<u32>, hwnd: isize, snapshot: S) -> (r: Option<ListenerFact<S>>)
    ensures
        match pid {
            Some(p) => if p != 0 {
                r == Some(ListenerFact::UiaFocus { pid: p, hwnd, snapshot })
            } else {
                r is None
            },
            None => r is None,
        },
{
    match pid {
        Some(p) => if p != 0 {
            Some(ListenerFact::UiaFocus { pid: p, hwnd, snapshot })
        } else {
            None
        },
        None => None,
    }
}

/// A direction to navigate from a node.
#[derive(Clone, Copy, Debug, PartialEq, Eq)]
pub enum NavigateDirection {
    /// The node's parent.
    Parent,
    /// The next sibling in tree order.
    NextSibling,
    /// The previous sibling in tree order.
    PreviousSibling,
    /// The first child.
    FirstChild,
}

/// The answer to a navigation: a found node, or a first-class "no such
/// neighbor" that is not an error.
#[derive(Clone, Debug, PartialEq)]
pub enum NavigateOutcome<N> {
    /// A node was found in that direction.
    Found(N),
    /// There is no neighbor in that direction (not an error).
    NoNeighbor,
}

/// Routing keeps every field of a fact but its pid, whichever variant it is.
pub proof fn law_routing_strips_only_the_pid<S>(fact: ListenerFact<S>)
    ensures
        match (fact, delivered_of(fact)) {
            (ListenerFact::UiaFocus { hwnd, snapshot, .. }, DeliveredFact::UiaFocus { hwnd: h, snapshot: s }) =>
                h == hwnd && s == snapshot,
            (ListenerFact::MsaaFocus { hwnd, id_object, id_child, .. }, DeliveredFact::MsaaFocus { hwnd: h, id_object: o, id_child: c }) =>
                h == hwnd && o == id_object && c == id_child,
            (ListenerFact::Foreground { hwnd, .. }, DeliveredFact::Foreground { hwnd: h }) => h == hwnd,
            (ListenerFact::MenuPopup { hwnd, id_object, id_child, .. }, DeliveredFact::MenuPopup { hwnd: h, id_object: o, id_child: c }) =>
                h == hwnd && o == id_object && c == id_child,
            _ => false,
        },
{
}

} // verus!
