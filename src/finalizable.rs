use core::ops::ControlFlow;
use vstd::prelude::*;

verus! {

/// A value that can be a working value or a finalized value.
/// No operation on a single `Finalizable<T>` modifies a finalized value.
#[derive(Debug, Clone, Copy, Hash, PartialEq, Eq, PartialOrd, Ord)]
pub enum Finalizable<T> {
    /// A working value.
    Working(T),
    /// A finalized value.
    Finalized(T),
}

impl<T> Finalizable<T> {
    /// The payload, whatever the tag.
    pub open spec fn value(self) -> T {
        match self {
            Finalizable::Working(x) => x,
            Finalizable::Finalized(x) => x,
        }
    }

    /// The value built from a payload and a flag that says whether it is finalized.
    pub open spec fn spec_new(value: T, finalized: bool) -> Self {
        if finalized {
            Finalizable::Finalized(value)
        } else {
            Finalizable::Working(value)
        }
    }

    /// The payload and whether the value is finalized: the arguments that
    /// `new` takes to build this value.
    pub open spec fn parts(self) -> (T, bool) {
        (self.value(), self is Finalized)
    }

    /// The finalized value with the same payload.
    pub open spec fn spec_finalize(self) -> Self {
        Finalizable::Finalized(self.value())
    }

    /// The value after an attempt to override the payload with `value`:
    /// a working value takes it, a finalized value stays as it is.
    pub open spec fn spec_set(self, value: T) -> Self {
        match self {
            Finalizable::Working(_) => Finalizable::Working(value),
            Finalizable::Finalized(_) => self,
        }
    }

    /// Create a new finalizable value from a value and a boolean
    /// that determines if it is a finalized or working value.
    pub fn new(value: T, finalized: bool) -> (r: Self)
        ensures
            r == Self::spec_new(value, finalized),
    {
        match finalized {
            true => Finalizable::Finalized(value),
            false => Finalizable::Working(value),
        }
    }

    /// Finalize a value. Returns a finalized version of the value.
    pub fn finalize(self) -> (r: Self)
        ensures
            r == self.spec_finalize(),
    {
        Finalizable::Finalized(self.get())
    }

    /// Get the value, whether working or finalized.
    pub fn get(self) -> (r: T)
        ensures
            r == self.value(),
    {
        match self {
            Finalizable::Working(x) => x,
            Finalizable::Finalized(x) => x,
        }
    }

    /// Get the value from a reference to a finalizable value,
    /// whether working or finalized, as a reference to the underlying value.
    pub fn get_as_ref(&self) -> (r: &T)
        ensures
            *r == self.value(),
    {
        self.as_ref().get()
    }

    /// Get the value from a mutable reference to a working value
    /// as a mutable reference. Returns `None` if the value is a finalized value.
    pub fn try_get_mut(&mut self) -> (r: Option<&mut T>)
        ensures
            r is Some <==> *old(self) is Working,
            r is Some ==> *r.unwrap() == old(self).value() && *final(self) == Finalizable::Working(
                *final(r.unwrap()),
            ),
            r is None ==> *final(self) == *old(self),
    {
        match self {
            Finalizable::Working(x) => Some(x),
            Finalizable::Finalized(_) => None,
        }
    }

    /// Override a working value. Does nothing to a finalized value.
    pub fn set(self, value: T) -> (r: Self)
        ensures
            r == self.spec_set(value),
    {
        match self {
            Finalizable::Working(_) => Finalizable::Working(value),
            Finalizable::Finalized(x) => Finalizable::Finalized(x),
        }
    }

    /// Check if a value is a working value.
    pub fn is_working(&self) -> (r: bool)
        ensures
            r == (*self is Working),
    {
        matches!(self, Finalizable::Working(_))
    }

    /// Check if a value is a finalized value.
    pub fn is_finalized(&self) -> (r: bool)
        ensures
            r == (*self is Finalized),
    {
        matches!(self, Finalizable::Finalized(_))
    }

    /// Get the value, but only if it is a working value.
    /// Returns `None` if the value is a finalized value.
    pub fn working_or_none(self) -> (r: Option<T>)
        ensures
            r == (if self is Working {
                Some(self.value())
            } else {
                None
            }),
    {
        match self {
            Finalizable::Working(x) => Some(x),
            Finalizable::Finalized(_) => None,
        }
    }

    /// Get the value, but only if it is a finalized value.
    /// Returns `None` if the value is a working value.
    pub fn finalized_or_none(self) -> (r: Option<T>)
        ensures
            r == (if self is Finalized {
                Some(self.value())
            } else {
                None
            }),
    {
        match self {
            Finalizable::Working(_) => None,
            Finalizable::Finalized(x) => Some(x),
        }
    }

    /// Get the value, but only if it is a finalized value.
    /// Returns `default` if the value is a working value.
    pub fn finalized_or(self, default: T) -> (r: T)
        ensures
            r == (if self is Finalized {
                self.value()
            } else {
                default
            }),
    {
        match self {
            Finalizable::Working(_) => default,
            Finalizable::Finalized(x) => x,
        }
    }

    /// Get the value, but only if it is a finalized value.
    /// Calls `op` on the working value and returns its result otherwise.
    pub fn finalized_or_else<F: FnOnce(T) -> T>(self, op: F) -> (r: T)
        requires
            self is Working ==> op.requires((self.value(),)),
        ensures
            self is Finalized ==> r == self.value(),
            self is Working ==> op.ensures((self.value(),), r),
    {
        match self {
            Finalizable::Working(x) => op(x),
            Finalizable::Finalized(x) => x,
        }
    }

    /// Turn a reference to a finalizable value into a finalizable reference.
    pub fn as_ref(&self) -> (r: Finalizable<&T>)
        ensures
            (r is Finalized) == (*self is Finalized),
            *r.value() == self.value(),
    {
        match self {
            Finalizable::Working(x) => Finalizable::Working(x),
            Finalizable::Finalized(x) => Finalizable::Finalized(x),
        }
    }

    /// Apply a function to a working value. Does nothing to a finalized value,
    /// and then does not call `op`.
    pub fn map<F: FnOnce(T) -> T>(self, op: F) -> (r: Self)
        requires
            self is Working ==> op.requires((self.value(),)),
        ensures
            self is Finalized ==> r == self,
            self is Working ==> r is Working && op.ensures((self.value(),), r.value()),
    {
        match self {
            Finalizable::Working(x) => Finalizable::Working(op(x)),
            Finalizable::Finalized(x) => Finalizable::Finalized(x),
        }
    }

    /// Apply a function to a working value and finalize it.
    /// Does nothing to a finalized value, and then does not call `op`.
    pub fn map_and_finalize<F: FnOnce(T) -> T>(self, op: F) -> (r: Self)
        requires
            self is Working ==> op.requires((self.value(),)),
        ensures
            self is Finalized ==> r == self,
            self is Working ==> r is Finalized && op.ensures((self.value(),), r.value()),
    {
        self.map(op).finalize()
    }

    /// Get the payload of a finalized value.
    /// A working value is a caller's error, which the precondition rules out;
    /// `msg` is the diagnostic that names it.
    #[allow(unused_variables)]
    pub fn expect_finalized(self, msg: &str) -> (r: T)
        requires
            self is Finalized,
        ensures
            r == self.value(),
    {
        match self {
            Finalizable::Finalized(x) => x,
            Finalizable::Working(_) => vstd::pervasive::unreached(),
        }
    }

    /// Return `fin` if the value is a working value, returning a finalized value unchanged.
    pub fn and(self, fin: Self) -> (r: Self)
        ensures
            r == (if self is Working {
                fin
            } else {
                self
            }),
    {
        match self {
            Finalizable::Working(_) => fin,
            Finalizable::Finalized(x) => Finalizable::Finalized(x),
        }
    }

    /// Call `op` on the value if it is a working value,
    /// returning a finalized value unchanged without calling `op`.
    pub fn and_then<F: FnOnce(T) -> Self>(self, op: F) -> (r: Self)
        requires
            self is Working ==> op.requires((self.value(),)),
        ensures
            self is Finalized ==> r == self,
            self is Working ==> op.ensures((self.value(),), r),
    {
        match self {
            Finalizable::Working(x) => op(x),
            Finalizable::Finalized(x) => Finalizable::Finalized(x),
        }
    }

    /// Call `op` on the value if it is a working value,
    /// creating a new finalizable value from the returned payload and flag
    /// as `new` does; a finalized value is returned unchanged without calling `op`.
    pub fn and_then_new<F: FnOnce(T) -> (T, bool)>(self, op: F) -> (r: Self)
        requires
            self is Working ==> op.requires((self.value(),)),
        ensures
            self is Finalized ==> r == self,
            self is Working ==> op.ensures((self.value(),), r.parts()),
    {
        match self {
            Finalizable::Working(x) => {
                let (value, finalized) = op(x);
                Finalizable::new(value, finalized)
            },
            Finalizable::Finalized(x) => Finalizable::Finalized(x),
        }
    }
}

/// What a finalized value carries out of a chain of steps that it stops.
/// A chain that itself yields a `Finalizable` turns it back into a finalized value.
pub struct Residual<T>(pub T);

impl<T> Finalizable<T> {
    /// Split a value for a chain of steps: a working value lets the chain
    /// continue with its payload, a finalized value stops it and carries its payload out.
    pub fn branch(self) -> (r: ControlFlow<Residual<T>, T>)
        ensures
            self is Working ==> r == ControlFlow::<Residual<T>, T>::Continue(self.value()),
            self is Finalized ==> r == ControlFlow::<Residual<T>, T>::Break(
                Residual(self.value()),
            ),
    {
        match self {
            Finalizable::Working(x) => ControlFlow::Continue(x),
            Finalizable::Finalized(x) => ControlFlow::Break(Residual(x)),
        }
    }

    /// The value that a chain of steps yields when it runs to its end: a working value.
    pub fn from_output(output: T) -> (r: Self)
        ensures
            r == Finalizable::Working(output),
    {
        Finalizable::Working(output)
    }

    /// The value that a chain of steps yields when a finalized value stopped it:
    /// that finalized value again.
    pub fn from_residual(residual: Residual<T>) -> (r: Self)
        ensures
            r == Finalizable::Finalized(residual.0),
    {
        Finalizable::Finalized(residual.0)
    }
}

impl<T> Finalizable<&T> {
    /// Make a copy of a finalizable value by copying the underlying value.
    pub fn copied(self) -> (r: Finalizable<T>) where T: Copy
        ensures
            (r is Finalized) == (self is Finalized),
            r.value() == *self.value(),
    {
        match self {
            Finalizable::Working(x) => Finalizable::Working(*x),
            Finalizable::Finalized(x) => Finalizable::Finalized(*x),
        }
    }

    /// Make a clone of a finalizable value by cloning the underlying value.
    pub fn cloned(self) -> (r: Finalizable<T>) where T: Clone
        ensures
            (r is Finalized) == (self is Finalized),
            vstd::pervasive::cloned(*self.value(), r.value()),
    {
        match self {
            Finalizable::Working(x) => Finalizable::Working(x.clone()),
            Finalizable::Finalized(x) => Finalizable::Finalized(x.clone()),
        }
    }
}

} // verus!
