use core::marker::PhantomData;
use vstd::prelude::*;

verus! {

/// The pixel size of a component.
#[non_exhaustive]
#[derive(Clone, Copy, Debug, PartialEq, Eq, Structural)]
pub struct Size {
    pub width: u64,
    pub height: u64,
}

/// A validated, non-owning view of a native component and its window.
///
/// Both addresses are non-null for as long as the value exists. The pointees
/// belong to the native runtime; the lifetime `'a` ties the view to the
/// callback invocation that supplied the addresses.
pub struct XComponent<'a> {
    component: usize,
    window: usize,
    phantom: PhantomData<&'a ()>,
}

/// The outcome that a native status code stands for: `0` is success, any other
/// value is a platform error code passed on unchanged.
pub open spec fn status_outcome(status: i32) -> Result<(), i32> {
    if status == 0 {
        Ok(())
    } else {
        Err(status)
    }
}

/// Turns a native status code into a typed outcome.
pub fn check_status(status: i32) -> (r: Result<(), i32>)
    ensures
        r == status_outcome(status),
{
    if status == 0 {
        Ok(())
    } else {
        Err(status)
    }
}

/// Relies on `Box::leak`: the allocation is never freed, so the reference
/// stays valid for the rest of the process and points at the boxed value.
#[verifier::external_body]
fn leak<C: 'static>(b: Box<C>) -> (r: &'static C)
    ensures
        *r == *b,
{
    Box::leak(b)
}

impl<'a> View for XComponent<'a> {
    /// The component address, then the window address.
    type V = (usize, usize);

    closed spec fn view(&self) -> (usize, usize) {
        (self.component, self.window)
    }
}

impl<'a> XComponent<'a> {
    #[verifier::type_invariant]
    spec fn non_null(&self) -> bool {
        self.component != 0 && self.window != 0
    }

    /// Admits a pair of native addresses, and only a pair in which neither is null.
    pub fn new(component: usize, window: usize) -> (r: Option<XComponent<'a>>)
        ensures
            r is Some <==> (component != 0 && window != 0),
            r matches Some(x) ==> x@ == (component, window),
    {
        if component == 0 || window == 0 {
            return None;
        }
        Some(XComponent { component, window, phantom: PhantomData })
    }

    /// The address of the native component.
    pub fn component(&self) -> (r: usize)
        ensures
            r == self@.0,
            r != 0,
    {
        proof {
            use_type_invariant(self);
        }
        self.component
    }

    /// The address of the native window.
    pub fn window(&self) -> (r: usize)
        ensures
            r == self@.1,
            r != 0,
    {
        proof {
            use_type_invariant(self);
        }
        self.window
    }

    /// The size reported by the native size query.
    ///
    /// The native query cannot fail for a valid handle, so a non-zero `status`
    /// is a broken platform guarantee: the caller aborts before coming here.
    /// `width` and `height` are the values the query wrote to its out-parameters.
    pub fn size(&self, status: i32, width: u64, height: u64) -> (r: Size)
        requires
            status == 0,
        ensures
            r == (Size { width, height }),
    {
        Size { width, height }
    }

    /// The touch event delivered by the native event query.
    ///
    /// `status` is what the query returned; `read` takes the event out of the
    /// storage the query was handed. That storage holds an event only after a
    /// zero status, so `read` is called then and only then; otherwise the
    /// status comes back as the error.
    pub fn get_touch_event<T, F: FnOnce() -> T>(&self, status: i32, read: F) -> (r: Result<T, i32>)
        requires
            status == 0 ==> read.requires(()),
        ensures
            status != 0 ==> r == Err::<T, i32>(status),
            status == 0 ==> (r matches Ok(e) && read.ensures((), e)),
    {
        if status != 0 {
            return Err(status);
        }
        Ok(read())
    }

    /// Hands a callback table to the native registration call of this component.
    ///
    /// The native runtime keeps using the table after the call returns, so the
    /// table is moved to the heap and deliberately leaked: it stays valid for the
    /// rest of the process, whatever the outcome. `register` is the native call;
    /// it gets the component address and the table, and returns a status code.
    pub fn register_callbacks<C: 'static, R: FnOnce(usize, &'static C) -> i32>(
        &self,
        callbacks: C,
        register: R,
    ) -> (r: Result<(), i32>)
        requires
            forall|t: &'static C| *t == callbacks ==> register.requires((self@.0, t)),
        ensures
            exists|t: &'static C, status: i32|
                *t == callbacks && register.ensures((self@.0, t), status) && r == status_outcome(
                    status,
                ),
    {
        let table = leak(Box::new(callbacks));
        let status = register(self.component(), table);
        check_status(status)
    }
}

} // verus!
