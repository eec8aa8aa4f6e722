use vstd::prelude::*;

use crate::element::{
    next_toggle, open_name, AttributeMutation, DetailsState, HTMLDetailsElement,
};

verus! {

/// A queued notification: the element it targets and the counter value
/// captured when it was scheduled.
pub struct PendingNotification {
    pub target: usize,
    pub captured_sequence: u32,
}

/// The abstract state of a window: its elements (`None` once destroyed), the
/// notifications queued on its task source, the notifications that fired a
/// `toggle` event, in firing order, and whether the task source was shut.
pub struct WindowState {
    pub elements: Seq<Option<DetailsState>>,
    pub tasks: Seq<PendingNotification>,
    pub fired: Seq<PendingNotification>,
    pub task_source_closed: bool,
}

impl WindowState {
    /// Whether the element behind handle `t` still exists.
    pub open spec fn is_live(self, t: usize) -> bool {
        t < self.elements.len() && self.elements[t as int].is_some()
    }

    /// The counter of the element behind handle `t`.
    pub open spec fn counter(self, t: usize) -> u32 {
        self.elements[t as int].unwrap().toggle_counter
    }

    /// Whether `n` would fire now: its target exists and its captured value
    /// is the target's counter.
    pub open spec fn is_current(self, n: PendingNotification) -> bool {
        self.is_live(n.target) && self.counter(n.target) == n.captured_sequence
    }

    /// A new element is added under the next handle.
    pub open spec fn created(self) -> WindowState {
        WindowState {
            elements: self.elements.push(Some(DetailsState { open: false, toggle_counter: 0 })),
            ..self
        }
    }

    /// The element behind `t` is destroyed.
    pub open spec fn destroyed(self, t: usize) -> WindowState {
        if t < self.elements.len() {
            WindowState { elements: self.elements.update(t as int, None), ..self }
        } else {
            self
        }
    }

    /// A notification for `t` with `sequence` is queued, unless the task
    /// source is shut, in which case it is lost.
    pub open spec fn scheduled(self, t: usize, sequence: u32) -> WindowState {
        if self.task_source_closed {
            self
        } else {
            WindowState {
                tasks: self.tasks.push(PendingNotification { target: t, captured_sequence: sequence }),
                ..self
            }
        }
    }

    /// The watched attribute of `t` was mutated: its counter advances and a
    /// notification with the new value is scheduled.
    pub open spec fn toggled(self, t: usize) -> WindowState {
        if self.is_live(t) {
            let old_state = self.elements[t as int].unwrap();
            let c = next_toggle(old_state.toggle_counter);
            WindowState {
                elements: self.elements.update(
                    t as int,
                    Some(DetailsState { toggle_counter: c, ..old_state }),
                ),
                ..self
            }.scheduled(t, c)
        } else {
            self
        }
    }

    /// `n` mutations of the watched attribute of `t` in a row.
    pub open spec fn toggled_times(self, t: usize, n: nat) -> WindowState
        decreases n,
    {
        if n == 0 {
            self
        } else {
            self.toggled_times(t, (n - 1) as nat).toggled(t)
        }
    }

    /// The attribute `name` of `t` was mutated.
    pub open spec fn mutated(self, t: usize, name: Seq<char>) -> WindowState {
        if name == open_name() {
            self.toggled(t)
        } else {
            self
        }
    }

    /// The `open` attribute of `t` is set to `value`, which counts as a
    /// mutation whether or not the value changes.
    pub open spec fn opened(self, t: usize, value: bool) -> WindowState {
        if self.is_live(t) {
            WindowState {
                elements: self.elements.update(
                    t as int,
                    Some(DetailsState { open: value, ..self.elements[t as int].unwrap() }),
                ),
                ..self
            }.toggled(t)
        } else {
            self
        }
    }

    /// Those of `tasks` that fire in this state, in order.
    pub open spec fn delivered(self, tasks: Seq<PendingNotification>) -> Seq<
        PendingNotification,
    > {
        tasks.filter(|n: PendingNotification| self.is_current(n))
    }

    /// The queued tasks are run: the current ones fire, the rest are dropped.
    pub open spec fn ran(self) -> WindowState {
        WindowState {
            tasks: Seq::empty(),
            fired: self.fired + self.delivered(self.tasks),
            ..self
        }
    }
}

/// A handle to an element of a window. It does not keep the element alive:
/// resolving it fails once the element is destroyed.
#[derive(Clone, Copy, PartialEq, Eq, Structural, Debug)]
pub struct Trusted {
    index: usize,
}

impl View for Trusted {
    type V = usize;

    closed spec fn view(&self) -> usize {
        self.index
    }
}

/// A queued task that fires the `toggle` event on its element if the element
/// still exists and has not been mutated since.
#[derive(Clone, Copy, PartialEq, Eq, Structural, Debug)]
pub struct ToggleEventRunnable {
    element: Trusted,
    toggle_number: u32,
}

impl View for ToggleEventRunnable {
    type V = PendingNotification;

    closed spec fn view(&self) -> PendingNotification {
        PendingNotification { target: self.element@, captured_sequence: self.toggle_number }
    }
}

/// The owner of details elements: it holds them, queues their notifications
/// and runs the queue.
pub struct Window {
    elements: Vec<Option<HTMLDetailsElement>>,
    task_queue: Vec<ToggleEventRunnable>,
    fired: Vec<ToggleEventRunnable>,
    task_source_closed: bool,
}

/// The abstract state of a slot of a window: `None` once its element is destroyed.
pub open spec fn slot_view(slot: Option<HTMLDetailsElement>) -> Option<DetailsState> {
    match slot {
        Some(e) => Some(e@),
        None => None,
    }
}

impl View for Window {
    type V = WindowState;

    closed spec fn view(&self) -> WindowState {
        WindowState {
            elements: self.elements@.map_values(|s: Option<HTMLDetailsElement>| slot_view(s)),
            tasks: self.task_queue@.map_values(|r: ToggleEventRunnable| r@),
            fired: self.fired@.map_values(|r: ToggleEventRunnable| r@),
            task_source_closed: self.task_source_closed,
        }
    }
}

impl Window {
    /// An empty window with an open task source.
    pub fn new() -> (r: Window)
        ensures
            r@ == (WindowState {
                elements: Seq::empty(),
                tasks: Seq::empty(),
                fired: Seq::empty(),
                task_source_closed: false,
            }),
    {
        let r = Window {
            elements: Vec::new(),
            task_queue: Vec::new(),
            fired: Vec::new(),
            task_source_closed: false,
        };
        assert(r@.elements =~= Seq::empty());
        assert(r@.tasks =~= Seq::empty());
        assert(r@.fired =~= Seq::empty());
        r
    }

    /// Shuts the task source: notifications scheduled from now on are lost.
    pub fn close_task_source(&mut self)
        ensures
            final(self)@ == (WindowState { task_source_closed: true, ..old(self)@ }),
    {
        self.task_source_closed = true;
    }

    /// Destroys the element behind `target`; its handles no longer resolve.
    pub fn destroy(&mut self, target: Trusted)
        ensures
            final(self)@ == old(self)@.destroyed(target@),
    {
        if target.index < self.elements.len() {
            self.elements[target.index] = None;
            assert(self@.elements =~= old(self)@.destroyed(target@).elements);
        }
    }

    /// The mutation hook: a mutation of the attribute `local_name` of the
    /// element behind `target`. For the watched attribute the element's
    /// counter advances and a notification with the new value is scheduled.
    pub fn attribute_mutated(&mut self, target: Trusted, local_name: &str, mutation: AttributeMutation)
        ensures
            final(self)@ == old(self)@.mutated(target@, local_name@),
    {
        let i = target.index;
        if i < self.elements.len() {
            let slot = self.elements[i];
            match slot {
                Some(mut element) => {
                    let counter = element.attribute_mutated(local_name, mutation);
                    self.elements[i] = Some(element);
                    assert(self@.elements =~= old(self)@.elements.update(i as int, Some(element@)));
                    match counter {
                        Some(c) => {
                            ToggleEventRunnable::send(self, target, c);
                        },
                        None => {
                            assert(old(self)@.elements[i as int] == Some(element@));
                            assert(self@.elements =~= old(self)@.elements);
                            assert(self@ =~= old(self)@);
                        },
                    }
                },
                None => {},
            }
        }
    }

    /// Sets the reflected `open` attribute of the element behind `target`:
    /// `true` adds it, `false` removes it. Either way this is a mutation of
    /// the watched attribute, even when the value does not change.
    pub fn set_open(&mut self, target: Trusted, value: bool)
        ensures
            final(self)@ == old(self)@.opened(target@, value),
    {
        let i = target.index;
        if i < self.elements.len() {
            let slot = self.elements[i];
            match slot {
                Some(mut element) => {
                    let mutation = element.set_open_attribute(value);
                    self.elements[i] = Some(element);
                    assert(self@.elements =~= old(self)@.elements.update(i as int, Some(element@)));
                    self.attribute_mutated(target, "open", mutation);
                    proof { reveal_strlit("open"); }
                    assert("open"@ =~= open_name());
                },
                None => {},
            }
        }
    }

    /// Runs every queued task in order. Each fires the `toggle` event if its
    /// element exists and was not mutated since it was scheduled; the others
    /// are dropped without effect. The queue is left empty.
    pub fn run_pending_tasks(&mut self)
        ensures
            final(self)@ == old(self)@.ran(),
    {
        let n = self.task_queue.len();
        let mut i: usize = 0;
        while i < n
            invariant
                n == self.task_queue.len(),
                0 <= i <= n,
                self@ == (WindowState {
                    fired: old(self)@.fired + old(self)@.delivered(old(self)@.tasks.take(i as int)),
                    ..old(self)@
                }),
            decreases n - i,
        {
            let task = self.task_queue[i];
            task.handler(self);
            proof {
                let w = old(self)@;
                assert(w.tasks.take(i + 1) =~= w.tasks.take(i as int).push(w.tasks[i as int]));
                w.tasks.take(i as int).lemma_filter_push(
                    w.tasks[i as int],
                    |n: PendingNotification| w.is_current(n),
                );
                assert(self@.fired =~= w.fired + w.delivered(w.tasks.take(i + 1)));
            }
            i = i + 1;
        }
        self.task_queue.clear();
        proof {
            let w = old(self)@;
            assert(w.tasks.take(n as int) =~= w.tasks);
            assert(self@.tasks =~= Seq::<PendingNotification>::empty());
            assert(self@ =~= w.ran());
        }
    }

    /// The notifications that fired a `toggle` event, in firing order.
    pub fn fired_events(&self) -> (r: &[ToggleEventRunnable])
        ensures
            r@.map_values(|e: ToggleEventRunnable| e@) == self@.fired,
    {
        self.fired.as_slice()
    }

    /// How many tasks are queued.
    pub fn pending_task_count(&self) -> (r: usize)
        ensures
            r == self@.tasks.len(),
    {
        self.task_queue.len()
    }
}

impl HTMLDetailsElement {
    /// Creates an element in `window` and returns its handle.
    pub fn new(window: &mut Window) -> (r: Trusted)
        requires
            old(window)@.elements.len() < usize::MAX,
        ensures
            final(window)@ == old(window)@.created(),
            r@ == old(window)@.elements.len(),
    {
        let r = Trusted { index: window.elements.len() };
        window.elements.push(Some(HTMLDetailsElement::new_inherited()));
        assert(window@.elements =~= old(window)@.created().elements);
        r
    }
}

impl Trusted {
    /// The element behind this handle, unless it was destroyed.
    pub fn root<'a>(&self, window: &'a Window) -> (r: Option<&'a HTMLDetailsElement>)
        ensures
            r.is_some() == window@.is_live(self@),
            r matches Some(e) ==> Some(e@) == window@.elements[self@ as int],
    {
        if self.index < window.elements.len() {
            window.elements[self.index].as_ref()
        } else {
            None
        }
    }
}

impl ToggleEventRunnable {
    /// Queues a notification for `node` that captures `toggle_number`. When
    /// the task source is shut the notification is silently lost.
    pub fn send(window: &mut Window, node: Trusted, toggle_number: u32)
        ensures
            final(window)@ == old(window)@.scheduled(node@, toggle_number),
    {
        if !window.task_source_closed {
            let dispatcher = ToggleEventRunnable { element: node, toggle_number };
            window.task_queue.push(dispatcher);
            assert(window@.tasks =~= old(window)@.scheduled(node@, toggle_number).tasks);
        }
    }

    /// Executes the queued notification: fires the `toggle` event on its element if the element
    /// still exists and its counter still equals the captured value; else
    /// does nothing. Returns whether the event fired.
    pub fn handler(self, window: &mut Window) -> (r: bool)
        ensures
            r == old(window)@.is_current(self@),
            final(window)@ == (if r {
                WindowState { fired: old(window)@.fired.push(self@), ..old(window)@ }
            } else {
                old(window)@
            }),
    {
        match self.element.root(window) {
            Some(target) => {
                if target.check_toggle_count(self.toggle_number) {
                    window.fired.push(self);
                    assert(window@.fired =~= old(window)@.fired.push(self@));
                    true
                } else {
                    false
                }
            },
            None => false,
        }
    }

    /// The handle of the element this notification targets.
    pub fn target(&self) -> (r: Trusted)
        ensures
            r@ == self@.target,
    {
        self.element
    }

    /// The counter value captured when this notification was scheduled.
    pub fn toggle_number(&self) -> (r: u32)
        ensures
            r == self@.captured_sequence,
    {
        self.toggle_number
    }
}

} // verus!
