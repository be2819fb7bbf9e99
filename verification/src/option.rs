//! Promotion of optional values into the chain-carrying sum.
use vstd::prelude::*;

use crate::ErrorValue;
use crate::Nitro;
use crate::frame_info;
use crate::result::NitroResult;

verus! {

/// Promotion of an optional value: a present value becomes success, an
/// absent value becomes a one-frame failure chain.
pub trait OptionExt: Sized {
    type Value;

    /// Whether the receiver holds a value.
    spec fn is_present(self) -> bool;

    /// The value held, when present.
    spec fn present_value(self) -> Self::Value;

    /// A present value becomes success, unchanged; `err` is then never
    /// evaluated. An absent value becomes a failure with a freshly built
    /// one-frame chain over the result of `err`, captured at
    /// `file:line:column`, with the unit context.
    fn ok_or_raise<A: ErrorValue, F: FnOnce() -> A>(
        self,
        err: F,
        file: &str,
        line: u32,
        column: u32,
    ) -> (r: NitroResult<Self::Value, A, ()>)
        requires
            !self.is_present() ==> call_requires(err, ()),
        ensures
            self.is_present() ==> r is Ok && r->Ok_0 == self.present_value(),
            !self.is_present() ==> r is Err && call_ensures(err, (), r->Err_0.head_error()) && r
                ->Err_0.chain() == seq![
                frame_info(r->Err_0.head_error().text(), file@, line, column),
            ] && r->Err_0.context() == (),
    ;
}

impl<T> OptionExt for Option<T> {
    type Value = T;

    open spec fn is_present(self) -> bool {
        self is Some
    }

    open spec fn present_value(self) -> T {
        self->Some_0
    }

    fn ok_or_raise<A: ErrorValue, F: FnOnce() -> A>(
        self,
        err: F,
        file: &str,
        line: u32,
        column: u32,
    ) -> (r: NitroResult<T, A, ()>) {
        match self {
            Some(v) => Ok(v),
            None => Err(Nitro::without_ctx(err(), file, line, column)),
        }
    }
}

} // verus!
