use crate::diagnostics::{decimal, push_decimal};
use vstd::prelude::*;

verus! {

/// The name under which the host exports object carries the native component.
pub const XCOMPONENT_PROPERTY: &'static str = "__NATIVE_XCOMPONENT_OBJ__";

/// Why registering callbacks through the host exports object failed.
#[derive(Clone, Debug, PartialEq, Eq)]
pub enum RegisterCallbackError {
    /// The exports object has no component property; the lookup's message.
    XcomponentPropertyMissing(String),
    /// Recovering the native component from the property failed with this status.
    UnwrapXComponentFailed(i32),
    /// The native registration call failed with this status.
    RegisterCallbackFailed(i32),
}

/// The quoted and escaped form of a string, as Rust's debug formatting writes it.
pub uninterp spec fn debug_quoted(s: Seq<char>) -> Seq<char>;

/// Relies on the `Debug` formatting of `str`: the result depends on the
/// characters of `s` alone.
#[verifier::external_body]
fn quote(s: &str) -> (r: String)
    ensures
        r@ == debug_quoted(s@),
{
    format!("{:?}", s)
}

/// The text of an error: the variant's name followed by its payload in
/// parentheses, a message quoted and a status in decimal.
pub open spec fn error_text(e: RegisterCallbackError) -> Seq<char> {
    match e {
        RegisterCallbackError::XcomponentPropertyMissing(m) => "XcomponentPropertyMissing("@
            + debug_quoted(m@) + ")"@,
        RegisterCallbackError::UnwrapXComponentFailed(c) => "UnwrapXComponentFailed("@ + decimal(
            c as int,
        ) + ")"@,
        RegisterCallbackError::RegisterCallbackFailed(c) => "RegisterCallbackFailed("@ + decimal(
            c as int,
        ) + ")"@,
    }
}

impl From<RegisterCallbackError> for String {
    /// The error's text; see [`error_text`].
    fn from(e: RegisterCallbackError) -> (r: String)
        ensures
            r@ == error_text(e),
    {
        let mut r = match &e {
            RegisterCallbackError::XcomponentPropertyMissing(m) => {
                let mut r = String::from_str("XcomponentPropertyMissing(");
                let q = quote(m.as_str());
                r.append(q.as_str());
                r
            },
            RegisterCallbackError::UnwrapXComponentFailed(c) => {
                let mut r = String::from_str("UnwrapXComponentFailed(");
                push_decimal(&mut r, *c);
                r
            },
            RegisterCallbackError::RegisterCallbackFailed(c) => {
                let mut r = String::from_str("RegisterCallbackFailed(");
                push_decimal(&mut r, *c);
                r
            },
        };
        r.append(")");
        proof {
            reveal_strlit("XcomponentPropertyMissing(");
            reveal_strlit("UnwrapXComponentFailed(");
            reveal_strlit("RegisterCallbackFailed(");
            reveal_strlit(")");
        }
        assert(r@ =~= error_text(e));
        r
    }
}

// The text is stated over the string's view, in the `ensures` of `from` above.
impl vstd::std_specs::convert::FromSpecImpl<RegisterCallbackError> for String {
    open spec fn obeys_from_spec() -> bool {
        false
    }

    open spec fn from_spec(e: RegisterCallbackError) -> String {
        arbitrary()
    }
}

/// What the lookup step tells the protocol: found, or missing with a message.
pub open spec fn property_found<O>(p: Result<O, String>) -> Result<(), String> {
    match p {
        Ok(_) => Ok(()),
        Err(m) => Err(m),
    }
}

/// The outcome of a registration whose three steps gave `property`,
/// `unwrap_status` and `register_status`. The first step that fails decides;
/// the results of the steps after it do not count.
pub open spec fn registration_outcome(
    property: Result<(), String>,
    unwrap_status: i32,
    register_status: i32,
) -> Result<(), RegisterCallbackError> {
    match property {
        Err(m) => Err(RegisterCallbackError::XcomponentPropertyMissing(m)),
        Ok(()) => if unwrap_status != 0 {
            Err(RegisterCallbackError::UnwrapXComponentFailed(unwrap_status))
        } else if register_status != 0 {
            Err(RegisterCallbackError::RegisterCallbackFailed(register_status))
        } else {
            Ok(())
        },
    }
}

/// The first failing step decides a registration's outcome. A missing property
/// is reported whatever the later steps would have returned; a failed unwrap is
/// reported whatever the registration call would have returned; the status of
/// the registration call counts only when both earlier steps succeeded, and a
/// run succeeds only when all three did.
pub proof fn lemma_first_failure_decides(m: String, unwrap_status: i32, register_status: i32)
    ensures
        registration_outcome(Err(m), unwrap_status, register_status) == Err::<
            (),
            RegisterCallbackError,
        >(RegisterCallbackError::XcomponentPropertyMissing(m)),
        unwrap_status != 0 ==> registration_outcome(Ok(()), unwrap_status, register_status)
            == Err::<(), RegisterCallbackError>(
            RegisterCallbackError::UnwrapXComponentFailed(unwrap_status),
        ),
        register_status != 0 ==> registration_outcome(Ok(()), 0, register_status) == Err::<
            (),
            RegisterCallbackError,
        >(RegisterCallbackError::RegisterCallbackFailed(register_status)),
        registration_outcome(Ok(()), unwrap_status, register_status) is Ok <==> (unwrap_status == 0
            && register_status == 0),
{
}

/// A run of the registration steps in which the lookup gave `p`, the unwrap
/// step (run only after a successful lookup) gave `u`, the registration call
/// (run only after a successful unwrap) gave `s`, and the run reported `r`.
pub open spec fn registration_ran<C, O, L, U, R>(
    look_up: L,
    unwrap: U,
    register: R,
    callbacks: &'static C,
    p: Result<O, String>,
    u: (i32, usize),
    s: i32,
    r: Result<(), RegisterCallbackError>,
) -> bool where
    L: FnOnce(&'static str) -> Result<O, String>,
    U: FnOnce(O) -> (i32, usize),
    R: FnOnce(usize, &'static C) -> i32,
 {
    &&& look_up.ensures((XCOMPONENT_PROPERTY,), p)
    &&& (p matches Ok(o) ==> unwrap.ensures((o,), u))
    &&& (p is Ok && u.0 == 0 ==> register.ensures((u.1, callbacks), s))
    &&& r == registration_outcome(property_found(p), u.0, s)
}

/// Registers a process-lifetime callback table with the component that the
/// host exports object carries.
///
/// The steps run in order, and each runs only when the one before it succeeded:
/// `look_up` fetches the property named [`XCOMPONENT_PROPERTY`] from the
/// exports object; `unwrap` recovers the native component address from it and
/// returns its status with the address; `register` is the native registration
/// call, given that address and the table, and returns its status. The table
/// must be `'static` because the native runtime keeps using it after the call.
pub fn register_xcomponent_callbacks<C, O, L, U, R>(
    callbacks: &'static C,
    look_up: L,
    unwrap: U,
    register: R,
) -> (r: Result<(), RegisterCallbackError>) where
    L: FnOnce(&'static str) -> Result<O, String>,
    U: FnOnce(O) -> (i32, usize),
    R: FnOnce(usize, &'static C) -> i32,

    requires
        look_up.requires((XCOMPONENT_PROPERTY,)),
        forall|o: O| look_up.ensures((XCOMPONENT_PROPERTY,), Ok::<O, String>(o)) ==> unwrap.requires((o,)),
        forall|c: usize| register.requires((c, callbacks)),
    ensures
        exists|p: Result<O, String>, u: (i32, usize), s: i32|
            registration_ran(look_up, unwrap, register, callbacks, p, u, s, r),
{
    let found = look_up(XCOMPONENT_PROPERTY);
    let ghost p = found;
    let object = match found {
        Ok(o) => o,
        Err(m) => {
            let r = Err(RegisterCallbackError::XcomponentPropertyMissing(m));
            assert(registration_ran(look_up, unwrap, register, callbacks, p, (0, 0), 0, r));
            return r;
        },
    };
    let (status, component) = unwrap(object);
    if status != 0 {
        let r = Err(RegisterCallbackError::UnwrapXComponentFailed(status));
        assert(registration_ran(look_up, unwrap, register, callbacks, p, (status, component), 0, r));
        return r;
    }
    let register_status = register(component, callbacks);
    let r = if register_status != 0 {
        Err(RegisterCallbackError::RegisterCallbackFailed(register_status))
    } else {
        Ok(())
    };
    assert(registration_ran(
        look_up,
        unwrap,
        register,
        callbacks,
        p,
        (status, component),
        register_status,
        r,
    ));
    r
}

} // verus!
