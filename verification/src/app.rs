//! The windows of the shell, and what the shell does about each event.

use crate::error::{CreateWindowError, WindowError};
use crate::event::{classify, fault, fault_of, key_of, signal_of, window_key, Signal, SurfaceFault};
use crate::surface::{PhysicalSize, SurfaceCapabilities};
use crate::window::Window;
use std::collections::HashMap;
use vstd::prelude::*;
use winit::event::Event;
use winit::window::WindowId;

verus! {

broadcast use vstd::std_specs::hash::group_hash_axioms;

/// What the shell is to do next.
#[derive(Clone, Copy, Debug, PartialEq, Eq)]
pub enum Action {
    /// Nothing.
    Idle,
    /// Configure the surface of this window by the window's settings.
    Configure(WindowId),
    /// Ask for the next redraw of this window, draw a frame on it, and report how the
    /// frame went.
    Draw(WindowId),
    /// Leave the event loop.
    Exit,
}

/// The windows that are open, each under the key of its id.
pub struct App<S> {
    pub windows: HashMap<u64, Window<S>>,
}

impl<S> View for App<S> {
    type V = Map<u64, Window<S>>;

    open spec fn view(&self) -> Map<u64, Window<S>> {
        self.windows@
    }
}

/// The windows that are open once `signal` has been handled: a close request takes the
/// window out, a new size is taken up by the window it is for, and nothing else changes
/// anything.
pub open spec fn windows_after<S>(windows: Map<u64, Window<S>>, signal: Signal) -> Map<
    u64,
    Window<S>,
> {
    match signal {
        Signal::CloseRequested(id) => windows.remove(window_key(id)),
        Signal::Resized(id, size) => if windows.contains_key(window_key(id)) {
            windows.insert(window_key(id), windows[window_key(id)].resized(size))
        } else {
            windows
        },
        Signal::RedrawRequested(_) => windows,
        Signal::Ignored => windows,
    }
}

/// What the shell does about `signal`: it leaves when a close request leaves no window
/// open, configures the surface of an open window that took up a new size, draws on an
/// open window that asks for it, and does nothing otherwise.
pub open spec fn action_for<S>(windows: Map<u64, Window<S>>, signal: Signal) -> Action {
    match signal {
        Signal::CloseRequested(id) => if windows.remove(window_key(id)).is_empty() {
            Action::Exit
        } else {
            Action::Idle
        },
        Signal::Resized(id, size) => if windows.contains_key(window_key(id))
            && size.is_drawable() {
            Action::Configure(id)
        } else {
            Action::Idle
        },
        Signal::RedrawRequested(id) => if windows.contains_key(window_key(id)) {
            Action::Draw(id)
        } else {
            Action::Idle
        },
        Signal::Ignored => Action::Idle,
    }
}

/// The windows that are open once a frame on window `id` ended in `outcome`: a surface
/// that is lost or outdated has its window take up its own size again, and nothing else
/// changes anything.
pub open spec fn windows_after_frame<S>(
    windows: Map<u64, Window<S>>,
    id: WindowId,
    outcome: Result<(), SurfaceFault>,
) -> Map<u64, Window<S>> {
    if windows.contains_key(window_key(id)) && (outcome == Err::<(), SurfaceFault>(
        SurfaceFault::Lost,
    ) || outcome == Err::<(), SurfaceFault>(SurfaceFault::Outdated)) {
        windows.insert(
            window_key(id),
            windows[window_key(id)].resized(windows[window_key(id)].size),
        )
    } else {
        windows
    }
}

/// What the shell does once a frame on window `id` ended in `outcome`: nothing after a
/// frame that was presented or timed out, configure the surface again when it was lost
/// or outdated and the window has a drawable size, and leave when memory ran out.
pub open spec fn action_after_frame<S>(
    windows: Map<u64, Window<S>>,
    id: WindowId,
    outcome: Result<(), SurfaceFault>,
) -> Action {
    if !windows.contains_key(window_key(id)) {
        Action::Idle
    } else {
        match outcome {
            Ok(_) => Action::Idle,
            Err(SurfaceFault::Timeout) => Action::Idle,
            Err(SurfaceFault::Lost) | Err(SurfaceFault::Outdated) => if windows[window_key(
                id,
            )].size.is_drawable() {
                Action::Configure(id)
            } else {
                Action::Idle
            },
            Err(SurfaceFault::OutOfMemory) => Action::Exit,
        }
    }
}

/// The outcome of a frame, with the error reduced to its kind.
pub open spec fn outcome_of(result: Result<(), wgpu::SurfaceError>) -> Result<(), SurfaceFault> {
    match result {
        Ok(_) => Ok(()),
        Err(error) => Err(fault_of(error)),
    }
}

/// The shell is told to configure a surface only for a window that is open and whose
/// settings then span its size, with neither side zero.
pub proof fn lemma_configure_is_drawable<S>(
    windows: Map<u64, Window<S>>,
    signal: Signal,
    id: WindowId,
)
    requires
        action_for(windows, signal) == Action::Configure(id),
    ensures
        windows_after(windows, signal).contains_key(window_key(id)),
        windows_after(windows, signal)[window_key(id)].is_fitted(),
        windows_after(windows, signal)[window_key(id)].size.is_drawable(),
{
}

/// After a frame, too, the shell is told to configure a surface only for the window
/// that the frame was drawn on, which is open and whose settings then span its size,
/// with neither side zero.
pub proof fn lemma_recovery_is_drawable<S>(
    windows: Map<u64, Window<S>>,
    id: WindowId,
    outcome: Result<(), SurfaceFault>,
    target: WindowId,
)
    requires
        action_after_frame(windows, id, outcome) == Action::Configure(target),
    ensures
        target == id,
        windows_after_frame(windows, id, outcome).contains_key(window_key(id)),
        windows_after_frame(windows, id, outcome)[window_key(id)].is_fitted(),
        windows_after_frame(windows, id, outcome)[window_key(id)].size.is_drawable(),
{
}

/// The settings of every open window span the window's size.
pub open spec fn all_fitted<S>(windows: Map<u64, Window<S>>) -> bool {
    forall|key: u64| windows.contains_key(key) ==> (#[trigger] windows[key]).is_fitted()
}

/// Where the settings of every open window span its size, they still do after any
/// signal and after any frame.
pub proof fn lemma_windows_stay_fitted<S>(
    windows: Map<u64, Window<S>>,
    signal: Signal,
    id: WindowId,
    outcome: Result<(), SurfaceFault>,
)
    requires
        all_fitted(windows),
    ensures
        all_fitted(windows_after(windows, signal)),
        all_fitted(windows_after_frame(windows, id, outcome)),
{
    assert forall|key: u64| windows_after(windows, signal).contains_key(key) implies (
    #[trigger] windows_after(windows, signal)[key]).is_fitted() by {
        assert(windows[key].is_fitted());
    }
    assert forall|key: u64| windows_after_frame(windows, id, outcome).contains_key(
        key,
    ) implies (#[trigger] windows_after_frame(windows, id, outcome)[key]).is_fitted() by {
        assert(windows[key].is_fitted());
    }
}

/// A signal makes the shell leave only when it leaves no window open, and it never
/// opens a window.
pub proof fn lemma_exit_leaves_none<S>(windows: Map<u64, Window<S>>, signal: Signal)
    ensures
        action_for(windows, signal) == Action::Exit ==> windows_after(windows, signal).is_empty(),
        windows_after(windows, signal).dom().subset_of(windows.dom()),
{
}

impl<S> App<S> {
    /// An application with no window open.
    pub fn new() -> (r: Self)
        ensures
            r@ == Map::<u64, Window<S>>::empty(),
    {
        App { windows: HashMap::new() }
    }

    /// The window that is open under `id`, if there is one.
    pub fn window(&self, id: WindowId) -> (r: Option<&Window<S>>)
        ensures
            r is Some == self@.contains_key(window_key(id)),
            r matches Some(window) ==> *window == self@[window_key(id)],
    {
        let key: u64 = key_of(id);
        self.windows.get(&key)
    }

    /// Opens a window under `id` around `surface`, set up as `Window::new` sets it up,
    /// and returns the id. Where the adapter cannot present to the surface, no window is
    /// opened.
    pub fn create_window(
        &mut self,
        id: WindowId,
        surface: S,
        size: PhysicalSize,
        supported: bool,
        capabilities: &SurfaceCapabilities,
    ) -> (r: Result<WindowId, CreateWindowError>)
        requires
            supported ==> capabilities.is_usable(),
        ensures
            !supported ==> final(self)@ == old(self)@ && r == Err::<WindowId, CreateWindowError>(
                CreateWindowError::WindowError(WindowError::SurfaceNotSupported),
            ),
            supported ==> {
                &&& r == Ok::<WindowId, CreateWindowError>(id)
                &&& final(self)@.contains_key(window_key(id))
                &&& final(self)@ == old(self)@.insert(window_key(id), final(self)@[window_key(id)])
                &&& final(self)@[window_key(id)].surface == surface
                &&& final(self)@[window_key(id)].size == size
                &&& final(self)@[window_key(id)].config.is_negotiated(*capabilities, size)
                &&& final(self)@[window_key(id)].is_fitted()
            },
    {
        match Window::new(surface, size, supported, capabilities) {
            Ok(window) => {
                let key: u64 = key_of(id);
                self.windows.insert(key, window);
                Ok(id)
            },
            Err(error) => Err(CreateWindowError::WindowError(error)),
        }
    }

    /// Handles an event of the event loop: reads its signal and dispatches it.
    pub fn handle_event(&mut self, event: &Event<()>) -> (r: Action)
        ensures
            final(self)@ == windows_after(old(self)@, signal_of(*event)),
            r == action_for(old(self)@, signal_of(*event)),
    {
        let signal = classify(event);
        self.dispatch(signal)
    }

    /// Handles a signal: changes the open windows as it asks, and says what the shell
    /// is to do.
    pub fn dispatch(&mut self, signal: Signal) -> (r: Action)
        ensures
            final(self)@ == windows_after(old(self)@, signal),
            r == action_for(old(self)@, signal),
    {
        match signal {
            Signal::CloseRequested(id) => {
                let key: u64 = key_of(id);
                self.windows.remove(&key);
                if self.windows.is_empty() {
                    Action::Exit
                } else {
                    Action::Idle
                }
            },
            Signal::Resized(id, size) => {
                let key: u64 = key_of(id);
                match self.windows.remove(&key) {
                    Some(mut window) => {
                        let reconfigure = window.resize(size);
                        self.windows.insert(key, window);
                        assert(self@ =~= windows_after(old(self)@, signal));
                        if reconfigure {
                            Action::Configure(id)
                        } else {
                            Action::Idle
                        }
                    },
                    None => {
                        assert(self@ =~= old(self)@);
                        Action::Idle
                    },
                }
            },
            Signal::RedrawRequested(id) => {
                let key: u64 = key_of(id);
                if self.windows.contains_key(&key) {
                    Action::Draw(id)
                } else {
                    Action::Idle
                }
            },
            Signal::Ignored => Action::Idle,
        }
    }

    /// Takes the result of drawing a frame on window `id`: reads the kind of the
    /// error, if there is one, and settles the frame.
    pub fn frame_finished(&mut self, id: WindowId, result: &Result<(), wgpu::SurfaceError>) -> (r:
        Action)
        ensures
            final(self)@ == windows_after_frame(old(self)@, id, outcome_of(*result)),
            r == action_after_frame(old(self)@, id, outcome_of(*result)),
    {
        let outcome = match result {
            Ok(_) => Ok(()),
            Err(error) => Err(fault(error)),
        };
        self.settle(id, outcome)
    }

    /// Settles a frame on window `id` that ended in `outcome`, and says what the shell
    /// is to do.
    pub fn settle(&mut self, id: WindowId, outcome: Result<(), SurfaceFault>) -> (r: Action)
        ensures
            final(self)@ == windows_after_frame(old(self)@, id, outcome),
            r == action_after_frame(old(self)@, id, outcome),
    {
        let key: u64 = key_of(id);
        match self.windows.remove(&key) {
            Some(mut window) => {
                let action = match outcome {
                    Ok(_) => Action::Idle,
                    Err(SurfaceFault::Timeout) => Action::Idle,
                    Err(SurfaceFault::Lost) | Err(SurfaceFault::Outdated) => {
                        let size = window.size;
                        if window.resize(size) {
                            Action::Configure(id)
                        } else {
                            Action::Idle
                        }
                    },
                    Err(SurfaceFault::OutOfMemory) => Action::Exit,
                };
                self.windows.insert(key, window);
                assert(self@ =~= windows_after_frame(old(self)@, id, outcome));
                action
            },
            None => {
                assert(self@ =~= old(self)@);
                Action::Idle
            },
        }
    }
}

} // verus!
