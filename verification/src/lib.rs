//! Chained, contextual failure values.
//!
//! Each time an operation fails and the failure is re-raised by a caller, a
//! new frame is attached to an immutable chain while the original cause is
//! preserved, together with the source location where each link was added.
//! The chain wrapper [`Nitro`] exposes the newest error at a statically known
//! type next to an arbitrary, chain-independent context value.
use vstd::prelude::*;

pub mod option;
pub mod render;
pub mod result;

verus! {

/// The capability an error value must offer to enter a chain: a stable
/// display text. `text` is the mathematical view of that display text and
/// `display_text` is its executable rendering.
pub trait ErrorValue: Sized {
    spec fn text(self) -> Seq<char>;

    fn display_text(&self) -> (r: String)
        ensures
            r@ == self.text(),
    ;
}

/// A plain error carrying nothing but its display text.
pub struct TextError {
    msg: String,
}

impl TextError {
    pub fn new(msg: String) -> (r: TextError)
        ensures
            r.text() == msg@,
    {
        TextError { msg }
    }
}

impl ErrorValue for TextError {
    closed spec fn text(self) -> Seq<char> {
        self.msg@
    }

    fn display_text(&self) -> (r: String) {
        self.msg.clone()
    }
}

/// The mathematical record of one capture point: the error's display text,
/// and the source location where the frame was added.
pub ghost struct FrameInfo {
    pub text: Seq<char>,
    pub file: Seq<char>,
    pub line: u32,
    pub column: u32,
}

/// The frame record of an error with display text `text`, captured at
/// `file:line:column`.
pub open spec fn frame_info(text: Seq<char>, file: Seq<char>, line: u32, column: u32) -> FrameInfo {
    FrameInfo { text, file, line, column }
}

/// A single capture point of a chain: one error (kept as its display text),
/// the source location where it was introduced, and ownership of the
/// next-older frame, if any. Following `child` links is finite and acyclic by
/// construction: every frame is newly allocated and its child is always a
/// pre-existing chain moved in by value.
pub struct Frame {
    error: String,
    file: String,
    line: u32,
    column: u32,
    child: Option<Box<Frame>>,
}

impl Frame {
    /// The chain rooted at this frame, newest first. Always holds at least
    /// this frame itself.
    pub closed spec fn frames(self) -> Seq<FrameInfo>
        decreases self,
    {
        seq![frame_info(self.error@, self.file@, self.line, self.column)] + match self.child {
            Option::Some(c) => c.frames(),
            Option::None => Seq::empty(),
        }
    }
}

impl View for Frame {
    type V = Seq<FrameInfo>;

    open spec fn view(&self) -> Seq<FrameInfo> {
        self.frames()
    }
}

/// The chain held by an optional child frame: its frames when present, the
/// empty chain when absent.
pub open spec fn child_frames(child: Option<Box<Frame>>) -> Seq<FrameInfo> {
    match child {
        Option::Some(c) => c@,
        Option::None => Seq::empty(),
    }
}

impl Frame {
    /// Builds a frame over `err`, captured at `file:line:column`, on top of
    /// the given next-older chain.
    fn over<E: ErrorValue>(
        err: &E,
        file: &str,
        line: u32,
        column: u32,
        child: Option<Box<Frame>>,
    ) -> (f: Frame)
        ensures
            f@ == seq![frame_info(err.text(), file@, line, column)] + child_frames(child),
    {
        let f = Frame { error: err.display_text(), file: file.to_owned(), line, column, child };
        proof {
            assert(f.frames() =~= seq![
                frame_info(err.text(), file@, line, column),
            ] + child_frames(f.child));
        }
        f
    }

    /// Builds a one-frame chain over `err`, recording `file:line:column` as
    /// the place where the error was captured.
    pub fn new<E: ErrorValue>(err: &E, file: &str, line: u32, column: u32) -> (f: Frame)
        ensures
            f@ == seq![frame_info(err.text(), file@, line, column)],
    {
        let f = Frame::over(err, file, line, column, None);
        proof {
            assert(f@ =~= seq![frame_info(err.text(), file@, line, column)]);
        }
        f
    }

    /// The number of frames of the chain rooted at this frame.
    pub fn len(&self) -> (n: usize)
        requires
            self@.len() <= usize::MAX,
        ensures
            n == self@.len(),
        decreases *self,
    {
        match &self.child {
            Some(c) => 1 + c.len(),
            None => 1,
        }
    }

    /// This frame's own error display text, without walking the chain.
    pub fn message(&self) -> (r: String)
        ensures
            r@ == self@[0].text,
    {
        self.error.clone()
    }

    /// The trace of the chain rooted at this frame when this frame stands at
    /// position `i`.
    fn trace_rec(&self, i: u64) -> (r: String)
        requires
            i + self@.len() <= u64::MAX,
        ensures
            r@ == render::trace_from(self@, i as nat),
        decreases *self,
    {
        let mut s = render::line_string(
            i,
            self.file.as_str(),
            self.line,
            self.column,
            self.error.as_str(),
        );
        match &self.child {
            Some(c) => {
                let rest = c.trace_rec(i + 1);
                s.append(rest.as_str());
                proof {
                    assert(self@.len() >= 1);
                    assert(self@.drop_first() =~= c@);
                    assert(self@[0] == frame_info(self.error@, self.file@, self.line, self.column));
                    assert(s@ =~= render::trace_line(i as nat, self@[0]) + render::trace_from(
                        self@.drop_first(),
                        i as nat + 1,
                    ));
                    assert(render::trace_from(self@, i as nat) == render::trace_line(
                        i as nat,
                        self@[0],
                    ) + render::trace_from(self@.drop_first(), i as nat + 1));
                    assert(s@ =~= render::trace_from(self@, i as nat));
                }
            },
            None => {
                proof {
                    assert(self@ =~= seq![
                        frame_info(self.error@, self.file@, self.line, self.column),
                    ]);
                    assert(self@.drop_first() =~= Seq::<FrameInfo>::empty());
                    assert(render::trace_from(self@, i as nat) == render::trace_line(
                        i as nat,
                        self@[0],
                    ) + render::trace_from(self@.drop_first(), i as nat + 1));
                    assert(s@ =~= render::trace_from(self@, i as nat));
                }
            },
        }
        s
    }

    /// Renders the chain rooted at this frame, one line per frame ordered
    /// newest first, each line holding the frame's position, its capture
    /// location and its error's display text. A pure read: the chain is not
    /// consumed.
    pub fn trace(&self) -> (r: String)
        requires
            self@.len() <= u64::MAX,
        ensures
            r@ == render::trace_text(self@),
    {
        self.trace_rec(0)
    }
}

/// The owned heart of a chain wrapper: a context value and the chain of
/// frames, together with the newest error kept at its concrete type.
pub struct NitroInner<E: ErrorValue, CTX> {
    context: CTX,
    error_trace: Frame,
    error: E,
}

impl<E: ErrorValue, CTX> NitroInner<E, CTX> {
    /// The newest frame always records exactly the display text of the typed
    /// head error: every construction path captures the two together.
    #[verifier::type_invariant]
    spec fn wf(self) -> bool {
        self.error_trace@.len() >= 1 && self.error_trace@[0].text == self.error.text()
    }
}

/// A chain wrapper: owns a chain of frames whose newest error it exposes at
/// the statically known type `E`, next to an arbitrary, chain-independent
/// context value. Every operation consumes the wrapper and produces a new
/// one; a chain is moved, never shared.
pub struct Nitro<E: ErrorValue, CTX = ()> {
    inner: Box<NitroInner<E, CTX>>,
}

impl<E: ErrorValue, CTX> Nitro<E, CTX> {
    /// The chain of capture points, newest first.
    pub closed spec fn chain(self) -> Seq<FrameInfo> {
        self.inner.error_trace@
    }

    /// The context value carried beside the chain.
    pub closed spec fn context(self) -> CTX {
        self.inner.context
    }

    /// The newest error, at its concrete type.
    pub closed spec fn head_error(self) -> E {
        self.inner.error
    }

    /// Builds a one-frame chain over `err`, captured at `file:line:column`,
    /// paired with `initial_context`.
    pub fn new(err: E, initial_context: CTX, file: &str, line: u32, column: u32) -> (r: Self)
        ensures
            r.chain() == seq![frame_info(err.text(), file@, line, column)],
            r.context() == initial_context,
            r.head_error() == err,
    {
        let frame = Frame::new(&err, file, line, column);
        let inner = Box::new(NitroInner { context: initial_context, error_trace: frame, error: err });
        Nitro { inner }
    }

    /// Consumes the wrapper and builds a new one whose chain has one more
    /// frame: `err`, captured at `file:line:column`, over the previous chain.
    /// The context is moved through unchanged; the result exposes `err` as
    /// its statically typed head error.
    pub fn raise<NewErr: ErrorValue>(
        self,
        err: NewErr,
        file: &str,
        line: u32,
        column: u32,
    ) -> (r: Nitro<NewErr, CTX>)
        ensures
            r.chain() == seq![frame_info(err.text(), file@, line, column)] + self.chain(),
            r.context() == self.context(),
            r.head_error() == err,
    {
        let inner = *self.inner;
        let NitroInner { context, error_trace, error: _ } = inner;
        let frame = Frame::over(&err, file, line, column, Some(Box::new(error_trace)));
        Nitro { inner: Box::new(NitroInner { context, error_trace: frame, error: err }) }
    }

    /// Consumes the wrapper and applies `f` to the context alone: the chain
    /// and the head error are moved through unchanged, no frame is added and
    /// no location is captured.
    pub fn map_ctx<F: FnOnce(CTX) -> NewCTX, NewCTX>(self, f: F) -> (r: Nitro<E, NewCTX>)
        requires
            call_requires(f, (self.context(),)),
        ensures
            r.chain() == self.chain(),
            r.head_error() == self.head_error(),
            call_ensures(f, (self.context(),), r.context()),
    {
        proof {
            use_type_invariant(&*self.inner);
        }
        let inner = *self.inner;
        let NitroInner { context, error_trace, error } = inner;
        let new_context = f(context);
        Nitro { inner: Box::new(NitroInner { context: new_context, error_trace, error }) }
    }

    /// The newest error of the chain, at its statically known type. Its
    /// display text is always exactly the text recorded in the chain's
    /// newest frame.
    pub fn as_error(&self) -> (r: &E)
        ensures
            *r == self.head_error(),
            self.chain().len() >= 1,
            self.head_error().text() == self.chain()[0].text,
    {
        proof {
            use_type_invariant(&*self.inner);
        }
        &self.inner.error
    }

    /// The number of frames of the chain.
    pub fn chain_len(&self) -> (n: usize)
        requires
            self.chain().len() <= usize::MAX,
        ensures
            n == self.chain().len(),
    {
        self.inner.error_trace.len()
    }

    /// Renders the chain, one line per frame ordered newest first, each line
    /// holding the frame's position, its capture location and its error's
    /// display text.
    pub fn trace(&self) -> (r: String)
        requires
            self.chain().len() <= u64::MAX,
        ensures
            r@ == render::trace_text(self.chain()),
    {
        self.inner.error_trace.trace()
    }
}

impl<E: ErrorValue> Nitro<E, ()> {
    /// Builds a one-frame chain over `err`, captured at `file:line:column`,
    /// with the unit context.
    pub fn without_ctx(err: E, file: &str, line: u32, column: u32) -> (r: Self)
        ensures
            r.chain() == seq![frame_info(err.text(), file@, line, column)],
            r.context() == (),
            r.head_error() == err,
    {
        Nitro::new(err, (), file, line, column)
    }
}

/// The chain that stands after applying the raise step once per frame of
/// `raised`, in order, to the chain `base`: each step puts its frame in
/// front of everything raised before, exactly as `Nitro::raise` ensures of
/// the chains it builds.
pub open spec fn raise_all(base: Seq<FrameInfo>, raised: Seq<FrameInfo>) -> Seq<FrameInfo>
    decreases raised.len(),
{
    if raised.len() == 0 {
        base
    } else {
        raise_all(seq![raised[0]] + base, raised.drop_first())
    }
}

/// Law: any number of raise steps applied to a chain yield a chain with
/// exactly one frame more per step, ordered newest first — the frames raised
/// last come first, each with its own captured location and display text,
/// and the original chain follows unchanged. In particular, N raise calls on
/// a one-frame chain leave a chain of exactly N + 1 frames.
pub proof fn lemma_raise_all(base: Seq<FrameInfo>, raised: Seq<FrameInfo>)
    ensures
        raise_all(base, raised).len() == base.len() + raised.len(),
        forall|k: int|
            0 <= k < raised.len() ==> #[trigger] raise_all(base, raised)[k] == raised[raised.len()
                - 1 - k],
        forall|k: int|
            0 <= k < base.len() ==> #[trigger] raise_all(base, raised)[raised.len() + k]
                == base[k],
    decreases raised.len(),
{
    if raised.len() > 0 {
        let base2 = seq![raised[0]] + base;
        let rest = raised.drop_first();
        lemma_raise_all(base2, rest);
        assert forall|k: int| 0 <= k < raised.len() implies #[trigger] raise_all(base, raised)[k]
            == raised[raised.len() - 1 - k] by {
            if k < rest.len() {
                assert(raise_all(base2, rest)[k] == rest[rest.len() - 1 - k]);
                assert(rest[rest.len() - 1 - k] == raised[raised.len() - 1 - k]);
            } else {
                let k0: int = 0;
                assert(raise_all(base2, rest)[rest.len() + k0] == base2[k0]);
                assert(base2[0] == raised[0]);
            }
        }
        assert forall|k: int| 0 <= k < base.len() implies #[trigger] raise_all(base, raised)[
            raised.len() + k
        ] == base[k] by {
            assert(raise_all(base2, rest)[rest.len() + (k + 1)] == base2[k + 1]);
            assert(base2[k + 1] == base[k]);
        }
    }
}

} // verus!
