//! A parameter value that carries the id of its latest notification.
use vstd::prelude::*;

verus! {

/// Identifies one notification of a [`Notify`] value.
#[derive(Debug, Clone, Copy, PartialEq, Eq, Hash, Structural)]
pub struct NotifyID(pub u64);

/// A parameter value together with the id of its latest notification.
///
/// Two `Notify` values are the same when both their values and their ids
/// are: a new id makes a diff produce an event even where the value is
/// unchanged.
#[derive(Debug, Clone, Copy, PartialEq, Eq)]
pub struct Notify<T> {
    value: T,
    id: NotifyID,
}

impl<T> Notify<T> {
    /// The wrapped value.
    pub closed spec fn value_of(self) -> T {
        self.value
    }

    /// The id of the latest notification.
    pub closed spec fn id_of(self) -> NotifyID {
        self.id
    }

    /// The `Notify` value made of `value` and `id`.
    pub closed spec fn spec_from_raw(value: T, id: NotifyID) -> Self {
        Notify { value, id }
    }

    /// A `Notify` value made of `value` and `id`.
    pub fn from_raw(value: T, id: NotifyID) -> (r: Self)
        ensures
            r == Self::spec_from_raw(value, id),
    {
        Notify { value, id }
    }

    /// The id of the latest notification.
    pub fn id(&self) -> (r: NotifyID)
        ensures
            r == self.id_of(),
    {
        self.id
    }

    /// The wrapped value.
    pub fn get(&self) -> (r: &T)
        ensures
            *r == self.value_of(),
    {
        &self.value
    }
}

impl<T> core::ops::Deref for Notify<T> {
    type Target = T;

    /// The wrapped value.
    fn deref(&self) -> (r: &T)
        ensures
            *r == self.value_of(),
    {
        &self.value
    }
}

/// A `Notify` value made of a value and an id has that value and that id.
pub broadcast proof fn lemma_notify_parts<T>(value: T, id: NotifyID)
    ensures
        #[trigger] Notify::<T>::spec_from_raw(value, id).value_of() == value,
        Notify::<T>::spec_from_raw(value, id).id_of() == id,
{
}

/// A `Notify` value is determined by its value and its id.
pub broadcast proof fn lemma_notify_ext<T>(n: Notify<T>)
    ensures
        #[trigger] Notify::<T>::spec_from_raw(n.value_of(), n.id_of()) == n,
{
}

/// Two `Notify` values with the same value and the same id are equal.
pub proof fn lemma_notify_eq<T>(a: Notify<T>, b: Notify<T>)
    requires
        a.value_of() == b.value_of(),
        a.id_of() == b.id_of(),
    ensures
        a == b,
{
}

pub broadcast group group_notify {
    lemma_notify_parts,
    lemma_notify_ext,
}

} // verus!
