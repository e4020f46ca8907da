//! The table of callbacks that the native module may invoke.
//!
//! The module can carry one pointer-sized value back to a callback, so a
//! callback is known to it by a small integer: its handle. A handle is the
//! number of the slot that the callback was put in. Slots are never moved
//! and never used again, so a handle refers to its own callback until that
//! callback is unregistered, and to nothing afterwards.

use vstd::prelude::*;

verus! {

/// The callbacks registered so far, by handle.
pub struct CallbackRegistry<F> {
    slots: Vec<Option<F>>,
}

/// The callback that a table holds for `handle`, if any.
pub open spec fn entry_at<F>(slots: Seq<Option<F>>, handle: int) -> Option<F> {
    if 0 <= handle < slots.len() {
        slots[handle]
    } else {
        None
    }
}

/// The table after the callback of `handle` is taken out: that slot is
/// empty, every other is as it was. A handle outside the table changes
/// nothing.
pub open spec fn without<F>(slots: Seq<Option<F>>, handle: int) -> Seq<Option<F>> {
    if 0 <= handle < slots.len() {
        slots.update(handle, None)
    } else {
        slots
    }
}

impl<F> View for CallbackRegistry<F> {
    type V = Seq<Option<F>>;

    closed spec fn view(&self) -> Seq<Option<F>> {
        self.slots@
    }
}

impl<F> CallbackRegistry<F> {
    /// A table without callbacks.
    pub fn new() -> (r: Self)
        ensures
            r@.len() == 0,
    {
        CallbackRegistry { slots: Vec::new() }
    }

    /// The number of handles given out so far.
    pub fn len(&self) -> (n: usize)
        ensures
            n == self@.len(),
    {
        self.slots.len()
    }

    /// The callback registered under `handle`, if there is one.
    pub fn get(&self, handle: usize) -> (r: Option<&F>)
        ensures
            match r {
                Some(f) => entry_at(self@, handle as int) == Some(*f),
                None => entry_at(self@, handle as int) is None,
            },
    {
        if handle < self.slots.len() {
            self.slots[handle].as_ref()
        } else {
            None
        }
    }
}

/// Registers `callback` and returns its handle: the number of handles given
/// out before. Every earlier handle keeps its meaning.
pub fn register_callback<F>(registry: &mut CallbackRegistry<F>, callback: F) -> (index: usize)
    ensures
        index == old(registry)@.len(),
        final(registry)@ == old(registry)@.push(Some(callback)),
{
    let index = registry.slots.len();
    registry.slots.push(Some(callback));
    index
}

/// Takes the callback of `index` out of the table. Unknown and already
/// unregistered handles are ignored; no other handle is affected.
pub fn unregister_callback<F>(registry: &mut CallbackRegistry<F>, index: usize)
    ensures
        final(registry)@ == without(old(registry)@, index as int),
{
    if index < registry.slots.len() {
        registry.slots.set(index, None);
    }
}

/// Invokes the callback registered under the handle `user_data` with `data`
/// and returns what it returns; does nothing and returns `None` where no
/// callback is registered under that handle.
pub fn callback_handler<P, R, F: Fn(P) -> R>(
    registry: &CallbackRegistry<F>,
    data: P,
    user_data: usize,
) -> (r: Option<R>)
    requires
        entry_at(registry@, user_data as int) matches Some(f) ==> f.requires((data,)),
    ensures
        match r {
            Some(out) => entry_at(registry@, user_data as int) matches Some(f) && f.ensures(
                (data,),
                out,
            ),
            None => entry_at(registry@, user_data as int) is None,
        },
{
    match registry.get(user_data) {
        Some(f) => Some(f(data)),
        None => None,
    }
}

/// A registered callback together with the duty to unregister it.
pub struct CallbackWrapper {
    index: usize,
}

impl View for CallbackWrapper {
    type V = int;

    closed spec fn view(&self) -> int {
        self.index as int
    }
}

impl CallbackWrapper {
    /// Registers `callback` and keeps its handle.
    pub fn new<F>(registry: &mut CallbackRegistry<F>, callback: F) -> (w: Self)
        ensures
            w@ == old(registry)@.len(),
            final(registry)@ == old(registry)@.push(Some(callback)),
    {
        let index = register_callback(registry, callback);
        CallbackWrapper { index }
    }

    /// The value to hand to the native module as the callback's context: the
    /// handle.
    pub fn get_user_data(&self) -> (user_data: usize)
        ensures
            user_data == self@,
    {
        self.index
    }

    /// Unregisters the callback. The wrapper is used up, so this happens at
    /// most once.
    pub fn release<F>(self, registry: &mut CallbackRegistry<F>)
        ensures
            final(registry)@ == without(old(registry)@, self@),
    {
        unregister_callback(registry, self.index);
    }
}

/// A callback just registered is the one found under its handle, and every
/// handle given out before finds what it found before.
pub proof fn law_register_then_find<F>(slots: Seq<Option<F>>, callback: F)
    ensures
        entry_at(slots.push(Some(callback)), slots.len() as int) == Some(callback),
        forall|h: int| 0 <= h < slots.len() ==> entry_at(slots.push(Some(callback)), h) == entry_at(slots, h),
{
}

/// After a handle is unregistered nothing is found under it, whatever was
/// there, and every other handle finds what it found before.
pub proof fn law_unregister_then_find<F>(slots: Seq<Option<F>>, handle: int)
    ensures
        entry_at(without(slots, handle), handle) is None,
        forall|h: int| h != handle ==> entry_at(without(slots, handle), h) == entry_at(slots, h),
        without(slots, handle).len() == slots.len(),
{
}

} // verus!
