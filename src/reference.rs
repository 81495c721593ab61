use vstd::prelude::*;

verus! {

/// A shared view of a value, valid for the scope `'a` that produced it.
pub struct Ref<'a, T> {
    target: &'a T,
}

impl<'a, T> Ref<'a, T> {
    pub closed spec fn view(&self) -> T {
        *self.target
    }

    /// A shared view of `target`.
    pub fn new(target: &'a T) -> (r: Ref<'a, T>)
        ensures
            r.view() == *target,
    {
        Ref { target }
    }

    /// The value viewed.
    pub fn as_ref(&self) -> (r: &T)
        ensures
            *r == self.view(),
    {
        self.target
    }
}

/// An exclusive view of a value, valid for the scope `'a` that produced it.
pub struct Mut<'a, T> {
    target: &'a mut T,
}

impl<'a, T> Mut<'a, T> {
    pub closed spec fn view(&self) -> T {
        *self.target
    }

    /// An exclusive view of `target`.
    pub fn new(target: &'a mut T) -> (r: Mut<'a, T>)
        ensures
            r.view() == *old(target),
    {
        Mut { target }
    }

    /// A shared view for a shorter scope; `self` stays usable once it ends.
    pub fn into_ref<'b>(&'b self) -> (r: Ref<'b, T>)
        where 'a: 'b
        ensures
            r.view() == self.view(),
    {
        Ref { target: &*self.target }
    }

    /// The value viewed.
    pub fn as_ref(&self) -> (r: &T)
        ensures
            *r == self.view(),
    {
        &*self.target
    }

    /// The value viewed, for writing.
    pub fn as_mut(&mut self) -> (r: &mut T)
        ensures
            *r == old(self).view(),
            final(self).view() == *final(r),
    {
        &mut *self.target
    }
}

/// A value that lives in an accelerator's memory, together with whether the
/// code that holds it runs on the host. The host cannot read through it: the
/// checked accessors require code running on an accelerator. The length of
/// a sequence is kept beside its elements, so it can be read anywhere.
pub struct AccelRefRaw<T> {
    value: T,
    running_on_host: bool,
}

impl<T> AccelRefRaw<T> {
    /// The value referred to.
    pub closed spec fn view(&self) -> T {
        self.value
    }

    /// Whether the code holding the reference runs on the host.
    pub closed spec fn on_host(&self) -> bool {
        self.running_on_host
    }

    /// The reference to `value`, resident on an accelerator, as held by code
    /// that runs on the host (`running_on_host`) or on the accelerator.
    pub fn new(value: T, running_on_host: bool) -> (r: AccelRefRaw<T>)
        ensures
            r.view() == value,
            r.on_host() == running_on_host,
    {
        AccelRefRaw { value, running_on_host }
    }

    /// Whether the code holding the reference runs on the host.
    pub fn is_host(&self) -> (r: bool)
        ensures
            r == self.on_host(),
    {
        self.running_on_host
    }

    /// The value, read on the accelerator.
    pub fn as_ref(&self) -> (r: &T)
        requires
            !self.on_host(),
        ensures
            *r == self.view(),
    {
        &self.value
    }

    /// The value, for writing on the accelerator.
    pub fn as_mut(&mut self) -> (r: &mut T)
        requires
            !old(self).on_host(),
        ensures
            *r == old(self).view(),
            final(self).view() == *final(r),
            final(self).on_host() == old(self).on_host(),
    {
        &mut self.value
    }

    /// The value, read without the processor check: for a caller that knows
    /// the read is sound where it runs.
    pub fn unchecked_as_ref(&self) -> (r: &T)
        ensures
            *r == self.view(),
    {
        &self.value
    }

    /// The value, for writing without the processor check.
    pub fn unchecked_as_mut(&mut self) -> (r: &mut T)
        ensures
            *r == old(self).view(),
            final(self).view() == *final(r),
            final(self).on_host() == old(self).on_host(),
    {
        &mut self.value
    }
}

impl<T> AccelRefRaw<Vec<T>> {
    /// The number of elements, readable on any processor.
    pub fn len(&self) -> (r: usize)
        ensures
            r == self.view()@.len(),
    {
        self.unchecked_as_ref().len()
    }
}

} // verus!
