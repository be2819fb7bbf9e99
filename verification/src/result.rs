//! The chain-carrying sum type and the conversions that promote or extend
//! ordinary success/failure values.
use vstd::prelude::*;

use crate::ErrorValue;
use crate::FrameInfo;
use crate::Nitro;
use crate::frame_info;

verus! {

/// A success value of type `T`, or a chain wrapper carrying error type `E`
/// and context type `CTX`.
pub type NitroResult<T, E, CTX> = Result<T, Nitro<E, CTX>>;

/// Builds the success variant, with the unit context on the failure side's
/// type.
pub fn success<T, E: ErrorValue>(value: T) -> (r: NitroResult<T, E, ()>)
    ensures
        r is Ok && r->Ok_0 == value,
{
    Ok(value)
}

/// Builds the failure variant: a one-frame chain wrapper over `error` with
/// the unit context, captured at `file:line:column`.
pub fn failure<T, E: ErrorValue>(error: E, file: &str, line: u32, column: u32) -> (r: NitroResult<
    T,
    E,
    (),
>)
    ensures
        r is Err,
        r->Err_0.head_error() == error,
        r->Err_0.chain() == seq![frame_info(error.text(), file@, line, column)],
        r->Err_0.context() == (),
{
    Err(Nitro::without_ctx(error, file, line, column))
}

/// Raising and context mapping over a success/failure sum value, whether its
/// failure side is a bare error or already a chain wrapper.
pub trait ResultExt: Sized {
    type Success;

    type Error: ErrorValue;

    type CTX;

    /// Whether the receiver is the success side.
    spec fn is_success(self) -> bool;

    /// The success value carried, when the receiver is the success side.
    spec fn success_value(self) -> Self::Success;

    /// The failure side's chain once promoted to a chain wrapper: one frame
    /// over a bare failure error, captured at the given location; the chain
    /// already carried otherwise, the location unused.
    spec fn promoted_chain(self, file: Seq<char>, line: u32, column: u32) -> Seq<FrameInfo>;

    /// The failure side's context once promoted: the unit context for a bare
    /// failure error, the context already carried otherwise.
    spec fn promoted_context(self) -> Self::CTX;

    /// The failure side's newest error.
    spec fn failure_error(self) -> Self::Error;

    /// A success value passes through unchanged; `err` is then never
    /// evaluated. A failure is promoted to a chain wrapper if it was a bare
    /// error, and one frame over the result of `err` is added, captured at
    /// `file:line:column` — the location of this call, also for the
    /// promotion. The context moves through unchanged.
    fn or_raise<E2: ErrorValue, F: FnOnce() -> E2>(
        self,
        err: F,
        file: &str,
        line: u32,
        column: u32,
    ) -> (r: NitroResult<Self::Success, E2, Self::CTX>)
        requires
            !self.is_success() ==> call_requires(err, ()),
        ensures
            self.is_success() ==> r is Ok && r->Ok_0 == self.success_value(),
            !self.is_success() ==> r is Err && call_ensures(err, (), r->Err_0.head_error()) && r
                ->Err_0.chain() == seq![
                frame_info(r->Err_0.head_error().text(), file@, line, column),
            ] + self.promoted_chain(file@, line, column) && r->Err_0.context()
                == self.promoted_context(),
    ;

    /// A success value passes through unchanged. On a failure, `f` rewrites
    /// the context alone: the chain is untouched — a bare failure error is
    /// first promoted to a one-frame chain captured at `file:line:column`,
    /// with the unit context handed to `f`.
    fn map_ctx<NewCTX, F: FnOnce(Self::CTX) -> NewCTX>(
        self,
        f: F,
        file: &str,
        line: u32,
        column: u32,
    ) -> (r: NitroResult<Self::Success, Self::Error, NewCTX>)
        requires
            !self.is_success() ==> call_requires(f, (self.promoted_context(),)),
        ensures
            self.is_success() ==> r is Ok && r->Ok_0 == self.success_value(),
            !self.is_success() ==> r is Err && r->Err_0.chain() == self.promoted_chain(
                file@,
                line,
                column,
            ) && r->Err_0.head_error() == self.failure_error() && call_ensures(
                f,
                (self.promoted_context(),),
                r->Err_0.context(),
            ),
    ;
}

impl<T, E: ErrorValue> ResultExt for Result<T, E> {
    type Success = T;

    type Error = E;

    type CTX = ();

    open spec fn is_success(self) -> bool {
        self is Ok
    }

    open spec fn success_value(self) -> T {
        self->Ok_0
    }

    open spec fn promoted_chain(self, file: Seq<char>, line: u32, column: u32) -> Seq<FrameInfo> {
        seq![frame_info(self->Err_0.text(), file, line, column)]
    }

    open spec fn promoted_context(self) -> () {
        ()
    }

    open spec fn failure_error(self) -> E {
        self->Err_0
    }

    fn or_raise<E2: ErrorValue, F: FnOnce() -> E2>(
        self,
        err: F,
        file: &str,
        line: u32,
        column: u32,
    ) -> (r: NitroResult<T, E2, ()>) {
        match self {
            Ok(v) => Ok(v),
            Err(e) => Err(Nitro::without_ctx(e, file, line, column).raise(err(), file, line, column)),
        }
    }

    fn map_ctx<NewCTX, F: FnOnce(()) -> NewCTX>(
        self,
        f: F,
        file: &str,
        line: u32,
        column: u32,
    ) -> (r: NitroResult<T, E, NewCTX>) {
        match self {
            Ok(v) => Ok(v),
            Err(e) => Err(Nitro::without_ctx(e, file, line, column).map_ctx(f)),
        }
    }
}

impl<T, E: ErrorValue, CTX> ResultExt for Result<T, Nitro<E, CTX>> {
    type Success = T;

    type Error = E;

    type CTX = CTX;

    open spec fn is_success(self) -> bool {
        self is Ok
    }

    open spec fn success_value(self) -> T {
        self->Ok_0
    }

    open spec fn promoted_chain(self, file: Seq<char>, line: u32, column: u32) -> Seq<FrameInfo> {
        self->Err_0.chain()
    }

    open spec fn promoted_context(self) -> CTX {
        self->Err_0.context()
    }

    open spec fn failure_error(self) -> E {
        self->Err_0.head_error()
    }

    fn or_raise<E2: ErrorValue, F: FnOnce() -> E2>(
        self,
        err: F,
        file: &str,
        line: u32,
        column: u32,
    ) -> (r: NitroResult<T, E2, CTX>) {
        match self {
            Ok(v) => Ok(v),
            Err(n) => Err(n.raise(err(), file, line, column)),
        }
    }

    fn map_ctx<NewCTX, F: FnOnce(CTX) -> NewCTX>(
        self,
        f: F,
        file: &str,
        line: u32,
        column: u32,
    ) -> (r: NitroResult<T, E, NewCTX>) {
        match self {
            Ok(v) => Ok(v),
            Err(n) => Err(n.map_ctx(f)),
        }
    }
}

} // verus!
