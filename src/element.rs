use vstd::prelude::*;
use vstd::string::StrSliceExecFns;

verus! {

/// The abstract state of a details element.
pub struct DetailsState {
    /// Whether the `open` attribute is present.
    pub open: bool,
    /// How many times the `open` attribute has been mutated, modulo 2^32.
    pub toggle_counter: u32,
}

/// The counter value that follows `c`: one more, wrapping to 0 past `u32::MAX`.
pub open spec fn next_toggle(c: u32) -> u32 {
    ((c + 1) % 0x1_0000_0000) as u32
}

/// The local name of the attribute whose mutations are watched.
pub open spec fn open_name() -> Seq<char> {
    seq!['o', 'p', 'e', 'n']
}

/// How an attribute was mutated.
#[derive(Clone, Copy, PartialEq, Eq, Structural, Debug)]
pub enum AttributeMutation {
    Assigned,
    Removed,
}

/// A details element: the reflected `open` attribute and the counter of its
/// mutations.
#[derive(Clone, Copy, Debug)]
pub struct HTMLDetailsElement {
    open: bool,
    toggle_counter: u32,
}

impl View for HTMLDetailsElement {
    type V = DetailsState;

    closed spec fn view(&self) -> DetailsState {
        DetailsState { open: self.open, toggle_counter: self.toggle_counter }
    }
}

/// Whether `local_name` is the watched attribute's name.
pub fn is_watched_attribute(local_name: &str) -> (r: bool)
    ensures
        r == (local_name@ == open_name()),
{
    if local_name.unicode_len() != 4 {
        return false;
    }
    let r = local_name.get_char(0) == 'o' && local_name.get_char(1) == 'p'
        && local_name.get_char(2) == 'e' && local_name.get_char(3) == 'n';
    assert(r ==> local_name@ =~= open_name());
    r
}

impl HTMLDetailsElement {
    /// A fresh element: `open` absent, no mutation seen.
    pub fn new_inherited() -> (r: HTMLDetailsElement)
        ensures
            r@ == (DetailsState { open: false, toggle_counter: 0 }),
    {
        HTMLDetailsElement { open: false, toggle_counter: 0 }
    }

    /// An element whose `open` attribute and counter hold the given values.
    pub fn with_state(open: bool, toggle_counter: u32) -> (r: HTMLDetailsElement)
        ensures
            r@ == (DetailsState { open, toggle_counter }),
    {
        HTMLDetailsElement { open, toggle_counter }
    }

    /// Whether `number` is the current counter value.
    pub fn check_toggle_count(&self, number: u32) -> (r: bool)
        ensures
            r == (number == self@.toggle_counter),
    {
        number == self.toggle_counter
    }

    /// The current counter value.
    pub fn toggle_count(&self) -> (r: u32)
        ensures
            r == self@.toggle_counter,
    {
        self.toggle_counter
    }

    /// The reflected `open` attribute: whether it is present.
    pub fn open(&self) -> (r: bool)
        ensures
            r == self@.open,
    {
        self.open
    }

    /// Adds (`true`) or removes (`false`) the `open` attribute. The counter is
    /// left to the mutation hook.
    pub fn set_open_attribute(&mut self, value: bool) -> (r: AttributeMutation)
        ensures
            final(self)@ == (DetailsState { open: value, ..old(self)@ }),
            r == (if value { AttributeMutation::Assigned } else { AttributeMutation::Removed }),
    {
        self.open = value;
        if value {
            AttributeMutation::Assigned
        } else {
            AttributeMutation::Removed
        }
    }

    /// The element's part of the mutation hook: a mutation of the watched
    /// attribute, whatever its kind and whether or not the value changed,
    /// advances the counter, and the new value is returned for scheduling.
    /// Other attributes leave the element as it is.
    pub fn attribute_mutated(&mut self, local_name: &str, mutation: AttributeMutation) -> (r:
        Option<u32>)
        ensures
            local_name@ == open_name() ==> {
                &&& final(self)@ == (DetailsState {
                    toggle_counter: next_toggle(old(self)@.toggle_counter),
                    ..old(self)@
                })
                &&& r == Some(next_toggle(old(self)@.toggle_counter))
            },
            local_name@ != open_name() ==> final(self)@ == old(self)@ && r.is_none(),
    {
        if is_watched_attribute(local_name) {
            let counter = self.toggle_counter.wrapping_add(1);
            self.toggle_counter = counter;
            Some(counter)
        } else {
            None
        }
    }
}

} // verus!
