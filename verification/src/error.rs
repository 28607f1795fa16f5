//! The error type, its payloads and the functions that raise errors and add
//! trace points to them.

use vstd::prelude::*;

use crate::text::{
    Link, append_line, chain_text, link_header, link_header_string, link_text, numbering_fits,
};
use crate::trace::{Trace, points_of};

verus! {

/// What every error payload offers: a message for users, a detailed form for
/// diagnostics, and an optional nested error (its cause).
pub trait IThrowable {
    /// The message shown to users. A verified implementation defines it; one
    /// that is not verified needs not, and is then left unspecified.
    open spec fn spec_display(&self) -> Seq<char> {
        arbitrary()
    }

    /// The detailed form; unspecified unless the implementation defines it.
    open spec fn spec_debug(&self) -> Seq<char> {
        arbitrary()
    }

    /// The nested error; unspecified unless the implementation defines it.
    open spec fn spec_nested(&self) -> Option<Box<AnyError>> {
        arbitrary()
    }

    /// The message shown to users.
    fn display_text(&self) -> (r: String)
        ensures
            r@ == self.spec_display(),
    ;

    /// The detailed form, shown in the full rendering of an error chain.
    fn debug_text(&self) -> (r: String)
        ensures
            r@ == self.spec_debug(),
    ;

    /// Returns a reference to the nested error (cause), if any.
    fn cause(&self) -> (r: &Option<Box<AnyError>>)
        ensures
            *r == self.spec_nested(),
    ;
}

/// The main error type: a payload and, unless it was raised without one, a
/// stack trace.
pub struct Error<T> {
    throw: Box<T>,
    trace: Option<Trace>,
}

/// The error whose payload is any of the library's throwables; the type that
/// errors are chained through.
pub type AnyError = Error<Throwable>;

/// A payload that stores a string message, shown both to users and in the
/// detailed form.
pub struct StringException {
    message: String,
    cause: Option<Box<AnyError>>,
}

/// A payload made from a value with separate user-facing and detailed forms.
pub struct FormattableException {
    display: String,
    debug: String,
    cause: Option<Box<AnyError>>,
}

/// A payload that stores separate user-facing and detailed messages.
pub struct FormattableStringException {
    display: String,
    debug: String,
    cause: Option<Box<AnyError>>,
}

/// Any payload that the library's own constructors make.
pub enum Throwable {
    Text(StringException),
    Formattable(FormattableException),
    FormattableText(FormattableStringException),
}

/// A value with a user-facing and a detailed textual form.
pub trait Formattable {
    /// The user-facing form. A verified implementation defines it; one that is
    /// not verified needs not, and is then left unspecified.
    open spec fn spec_display(&self) -> Seq<char> {
        arbitrary()
    }

    /// The detailed form; unspecified unless the implementation defines it.
    open spec fn spec_debug(&self) -> Seq<char> {
        arbitrary()
    }

    /// The user-facing form.
    fn display_text(&self) -> (r: String)
        ensures
            r@ == self.spec_display(),
    ;

    /// The detailed form.
    fn debug_text(&self) -> (r: String)
        ensures
            r@ == self.spec_debug(),
    ;
}

/// A [`Formattable`] made from a user-facing text, which serves as both forms.
pub struct FormattableFromDisplay {
    text: String,
}

/// A [`Formattable`] made from a detailed text, which serves as both forms.
pub struct FormattableFromDebug {
    text: String,
}

/// The cause that a constructor stores, boxed.
pub open spec fn boxed(cause: Option<AnyError>) -> Option<Box<AnyError>> {
    match cause {
        Some(e) => Some(Box::new(e)),
        None => None,
    }
}

/// The trace `trace` with `point` added as its newest point; none stays none.
pub open spec fn pushed(trace: Option<Trace>, point: String) -> Option<Trace> {
    match trace {
        Some(t) => Some(Trace { point, prev: Some(Box::new(t)) }),
        None => None,
    }
}

/// The chain of an optional cause; empty where there is none.
pub open spec fn cause_chain(cause: Option<Box<AnyError>>) -> Seq<Link> {
    match cause {
        Some(e) => e.chain(),
        None => Seq::empty(),
    }
}

impl Throwable {
    /// The message shown to users.
    pub closed spec fn spec_message(&self) -> Seq<char> {
        match self {
            Throwable::Text(s) => s.message@,
            Throwable::Formattable(f) => f.display@,
            Throwable::FormattableText(f) => f.display@,
        }
    }

    /// The detailed form.
    pub closed spec fn spec_details(&self) -> Seq<char> {
        match self {
            Throwable::Text(s) => s.message@,
            Throwable::Formattable(f) => f.debug@,
            Throwable::FormattableText(f) => f.debug@,
        }
    }

    /// The nested error.
    pub closed spec fn spec_cause(&self) -> Option<Box<AnyError>> {
        match self {
            Throwable::Text(s) => s.cause,
            Throwable::Formattable(f) => f.cause,
            Throwable::FormattableText(f) => f.cause,
        }
    }
}

impl IThrowable for Throwable {
    open spec fn spec_display(&self) -> Seq<char> {
        self.spec_message()
    }

    open spec fn spec_debug(&self) -> Seq<char> {
        self.spec_details()
    }

    open spec fn spec_nested(&self) -> Option<Box<AnyError>> {
        self.spec_cause()
    }

    fn display_text(&self) -> (r: String)
        ensures
            r@ == self.spec_message(),
    {
        match self {
            Throwable::Text(s) => s.message.clone(),
            Throwable::Formattable(f) => f.display.clone(),
            Throwable::FormattableText(f) => f.display.clone(),
        }
    }

    fn debug_text(&self) -> (r: String)
        ensures
            r@ == self.spec_details(),
    {
        match self {
            Throwable::Text(s) => s.message.clone(),
            Throwable::Formattable(f) => f.debug.clone(),
            Throwable::FormattableText(f) => f.debug.clone(),
        }
    }

    fn cause(&self) -> (r: &Option<Box<AnyError>>)
        ensures
            *r == self.spec_cause(),
    {
        match self {
            Throwable::Text(s) => &s.cause,
            Throwable::Formattable(f) => &f.cause,
            Throwable::FormattableText(f) => &f.cause,
        }
    }
}

impl FormattableFromDisplay {
    /// The text of the wrapper.
    pub closed spec fn spec_text(&self) -> Seq<char> {
        self.text@
    }

    /// Wraps the user-facing text of a value.
    pub fn new(text: String) -> (r: Self)
        ensures
            r.spec_text() == text@,
    {
        FormattableFromDisplay { text }
    }
}

impl Formattable for FormattableFromDisplay {
    closed spec fn spec_display(&self) -> Seq<char> {
        self.text@
    }

    closed spec fn spec_debug(&self) -> Seq<char> {
        self.text@
    }

    fn display_text(&self) -> (r: String)
        ensures
            r@ == self.spec_text(),
    {
        self.text.clone()
    }

    fn debug_text(&self) -> (r: String)
        ensures
            r@ == self.spec_text(),
    {
        self.text.clone()
    }
}

impl FormattableFromDebug {
    /// The text of the wrapper.
    pub closed spec fn spec_text(&self) -> Seq<char> {
        self.text@
    }

    /// Wraps the detailed text of a value.
    pub fn new(text: String) -> (r: Self)
        ensures
            r.spec_text() == text@,
    {
        FormattableFromDebug { text }
    }
}

impl Formattable for FormattableFromDebug {
    closed spec fn spec_display(&self) -> Seq<char> {
        self.text@
    }

    closed spec fn spec_debug(&self) -> Seq<char> {
        self.text@
    }

    fn display_text(&self) -> (r: String)
        ensures
            r@ == self.spec_text(),
    {
        self.text.clone()
    }

    fn debug_text(&self) -> (r: String)
        ensures
            r@ == self.spec_text(),
    {
        self.text.clone()
    }
}

impl StringException {
    /// Creates a payload with the message `message` and the cause `cause`.
    pub fn new(message: String, cause: Option<AnyError>) -> (r: Box<Throwable>)
        ensures
            r.spec_message() == message@,
            r.spec_details() == message@,
            r.spec_cause() == boxed(cause),
            *r is Text,
    {
        Box::new(
            Throwable::Text(
                StringException {
                    message,
                    cause: match cause {
                        Some(e) => Some(Box::new(e)),
                        None => None,
                    },
                },
            ),
        )
    }
}

impl FormattableException {
    /// Creates a payload from the two forms of a value and the cause `cause`.
    pub fn with_texts(display: String, debug: String, cause: Option<AnyError>) -> (r: Box<
        Throwable,
    >)
        ensures
            r.spec_message() == display@,
            r.spec_details() == debug@,
            r.spec_cause() == boxed(cause),
            *r is Formattable,
    {
        Box::new(
            Throwable::Formattable(
                FormattableException {
                    display,
                    debug,
                    cause: match cause {
                        Some(e) => Some(Box::new(e)),
                        None => None,
                    },
                },
            ),
        )
    }

    /// Creates a payload from `value`, which gives its user-facing and its
    /// detailed form, and the cause `cause`.
    pub fn new<F: Formattable>(value: Box<F>, cause: Option<AnyError>) -> (r: Box<Throwable>)
        ensures
            r.spec_message() == value.spec_display(),
            r.spec_details() == value.spec_debug(),
            r.spec_cause() == boxed(cause),
            *r is Formattable,
    {
        let display = value.display_text();
        let debug = value.debug_text();
        FormattableException::with_texts(display, debug, cause)
    }
}

impl FormattableStringException {
    /// Creates a payload with the user-facing message `display`, the detailed
    /// message `debug` and the cause `cause`.
    pub fn new(display: String, debug: String, cause: Option<AnyError>) -> (r: Box<Throwable>)
        ensures
            r.spec_message() == display@,
            r.spec_details() == debug@,
            r.spec_cause() == boxed(cause),
            *r is FormattableText,
    {
        Box::new(
            Throwable::FormattableText(
                FormattableStringException {
                    display,
                    debug,
                    cause: match cause {
                        Some(e) => Some(Box::new(e)),
                        None => None,
                    },
                },
            ),
        )
    }
}

impl<T> Error<T> {
    /// The payload.
    pub closed spec fn payload(&self) -> T {
        *self.throw
    }

    /// The trace; none for an error raised without one.
    pub closed spec fn spec_trace(&self) -> Option<Trace> {
        self.trace
    }

    /// Creates a new error with a trace.
    pub fn new(throw: Box<T>, trace: Trace) -> (r: Self)
        ensures
            r.payload() == *throw,
            r.spec_trace() == Some(trace),
    {
        Error { throw, trace: Some(trace) }
    }

    /// Creates a new error without a trace.
    pub fn new_untraced(throw: Box<T>) -> (r: Self)
        ensures
            r.payload() == *throw,
            r.spec_trace() == None::<Trace>,
    {
        Error { throw, trace: None }
    }

    /// Replaces the trace by what `trace` makes of it; an error without a
    /// trace is returned unchanged.
    pub fn trace_point<F: FnOnce(Trace) -> Trace>(self, trace: F) -> (r: Self)
        requires
            self.spec_trace() matches Some(t) ==> trace.requires((t,)),
        ensures
            r.payload() == self.payload(),
            self.spec_trace() matches Some(t) ==> (r.spec_trace() matches Some(n) && trace.ensures(
                (t,),
                n,
            )),
            self.spec_trace() is None ==> r.spec_trace() is None,
    {
        let Error { throw, trace: current } = self;
        match current {
            Some(t) => Error { throw, trace: Some(trace(t)) },
            None => Error { throw, trace: None },
        }
    }

    /// Adds `point` as the newest point of the trace; an error without a trace
    /// is returned unchanged.
    pub fn push_point(self, point: String) -> (r: Self)
        ensures
            r.payload() == self.payload(),
            r.spec_trace() == pushed(self.spec_trace(), point),
    {
        let ghost added = point;
        let add_point = move |prev: Trace| -> (n: Trace)
            ensures
                n.point == added,
                n.prev == Some(Box::new(prev)),
            {
                Trace::new(point, Some(prev))
            };
        self.trace_point(add_point)
    }

    /// Returns a reference to the payload.
    pub fn throwable(&self) -> (r: &T)
        ensures
            *r == self.payload(),
    {
        &self.throw
    }

    /// Returns a reference to the trace, if the error has one.
    pub fn trace(&self) -> (r: &Option<Trace>)
        ensures
            *r == self.spec_trace(),
    {
        &self.trace
    }
}

impl<T: IThrowable> Error<T> {
    /// The same error with its payload turned into one of the library's own:
    /// the payload's user-facing and detailed forms and a copy of its cause.
    pub fn into_any(self) -> (r: AnyError)
        ensures
            r.spec_trace() == self.spec_trace(),
            r.payload() is FormattableText,
            r.payload().spec_message() == self.payload().spec_display(),
            r.payload().spec_details() == self.payload().spec_debug(),
            cause_chain(r.payload().spec_cause()) == cause_chain(self.payload().spec_nested()),
    {
        let display = self.throw.display_text();
        let debug = self.throw.debug_text();
        let cause = match self.throw.cause() {
            Some(c) => Some(c.duplicate()),
            None => None,
        };
        Error { throw: FormattableStringException::new(display, debug, cause), trace: self.trace }
    }
}

impl Error<Throwable> {
    /// A copy of the error and of its whole chain.
    pub fn duplicate(&self) -> (r: AnyError)
        ensures
            r.chain() == self.chain(),
            r.payload() is Text <==> self.payload() is Text,
            r.payload() is Formattable <==> self.payload() is Formattable,
            r.payload() is FormattableText <==> self.payload() is FormattableText,
        decreases self,
    {
        proof {
            self.lemma_chain_unfold();
        }
        let cause = self.throw.cause();
        let copied = match cause {
            Some(c) => Some(c.duplicate()),
            None => None,
        };
        let throw = match &*self.throw {
            Throwable::Text(e) => StringException::new(e.message.clone(), copied),
            Throwable::Formattable(e) => FormattableException::with_texts(
                e.display.clone(),
                e.debug.clone(),
                copied,
            ),
            Throwable::FormattableText(e) => FormattableStringException::new(
                e.display.clone(),
                e.debug.clone(),
                copied,
            ),
        };
        let trace = match &self.trace {
            Some(t) => Some(t.duplicate()),
            None => None,
        };
        let r = Error { throw, trace };
        proof {
            r.lemma_chain_unfold();
            assert(r.chain() =~= self.chain());
        }
        r
    }

    /// The errors of the chain, outermost first: each one's message, detailed
    /// form and trace.
    pub closed spec fn chain(&self) -> Seq<Link>
        decreases self,
    {
        let head = Link {
            message: self.throw.spec_message(),
            details: self.throw.spec_details(),
            trace: match self.trace {
                Some(t) => Some(t@),
                None => None,
            },
        };
        seq![head] + match *self.throw {
            Throwable::Text(s) => match s.cause {
                Some(c) => c.chain(),
                None => Seq::empty(),
            },
            Throwable::Formattable(f) => match f.cause {
                Some(c) => c.chain(),
                None => Seq::empty(),
            },
            Throwable::FormattableText(f) => match f.cause {
                Some(c) => c.chain(),
                None => Seq::empty(),
            },
        }
    }

    /// A chain starts with the error itself, and goes on with its cause's.
    pub proof fn lemma_chain_unfold(&self)
        ensures
            self.chain().len() >= 1,
            self.chain()[0].message == self.payload().spec_message(),
            self.chain()[0].details == self.payload().spec_details(),
            self.chain()[0].trace == match self.spec_trace() {
                Some(t) => Some(t@),
                None => None::<Seq<Seq<char>>>,
            },
            self.chain().drop_first() == cause_chain(self.payload().spec_cause()),
    {
        assert(self.chain().drop_first() =~= cause_chain(self.payload().spec_cause()));
    }

    /// Renders the chain in full: for each error, outermost first and numbered
    /// from `inner` on, a line `[k] details`, then its trace lines.
    pub fn display(&self, inner: usize) -> (r: String)
        requires
            numbering_fits(self.chain(), inner as nat),
        ensures
            r@ == chain_text(self.chain(), inner as nat),
        decreases self,
    {
        proof {
            self.lemma_chain_unfold();
        }
        let details = self.throw.debug_text();
        let mut s = link_header_string(inner, details.as_str());
        match &self.trace {
            Some(t) => {
                assert(self.chain()[0].trace == Some(t@));
                let lines = t.display(0);
                append_line(&mut s, lines.as_str());
            },
            None => {},
        }
        let cause = self.throw.cause();
        match cause {
            Some(c) => {
                proof {
                    c.lemma_chain_unfold();
                    assert forall|i: int| 0 <= i < c.chain().len() implies match (
                    #[trigger] c.chain()[i]).trace {
                        Some(points) => points.len() <= usize::MAX + 1,
                        None => true,
                    } by {
                        assert(c.chain()[i] == self.chain()[i + 1]);
                    }
                }
                let rest = c.display(inner + 1);
                append_line(&mut s, rest.as_str());
            },
            None => {},
        }
        s
    }

    /// The message of the outermost error only.
    pub fn display_text(&self) -> (r: String)
        ensures
            r@ == self.chain()[0].message,
            r@ == self.payload().spec_message(),
    {
        proof {
            self.lemma_chain_unfold();
        }
        self.throw.display_text()
    }

    /// The full rendering of the chain, numbered from 0.
    pub fn debug_text(&self) -> (r: String)
        requires
            numbering_fits(self.chain(), 0),
        ensures
            r@ == chain_text(self.chain(), 0),
    {
        self.display(0)
    }
}

/// The full rendering of an error with a cause is its own header and trace
/// lines, a line break, and then the full rendering of its cause one level
/// deeper: causes follow their errors, outermost first.
pub proof fn law_cause_follows_error(e: AnyError, k: nat)
    requires
        e.payload().spec_cause() is Some,
    ensures
        chain_text(e.chain(), k) == link_text(k, e.chain()[0]) + seq!['\n'] + chain_text(
            e.payload().spec_cause().unwrap().chain(),
            k + 1,
        ),
{
    e.lemma_chain_unfold();
    e.payload().spec_cause().unwrap().lemma_chain_unfold();
}

/// The user-facing text of an error is the message of its own payload: neither
/// its cause nor its trace shows in it.
pub proof fn law_message_is_outermost(e: AnyError)
    ensures
        e.chain()[0].message == e.payload().spec_message(),
{
    e.lemma_chain_unfold();
}

/// An error without a trace and without a cause renders as its header alone,
/// with no trace line.
pub proof fn law_untraced_renders_header_only(e: AnyError, k: nat)
    requires
        e.spec_trace() is None,
        e.payload().spec_cause() is None,
    ensures
        chain_text(e.chain(), k) == link_header(k, e.payload().spec_details()),
{
    e.lemma_chain_unfold();
    assert(e.chain().len() == 1);
}

/// Adding a trace point puts it in front of the points that were there and
/// keeps them in their order.
pub proof fn law_point_goes_first(trace: Trace, point: String)
    ensures
        points_of(pushed(Some(trace), point)) == seq![point@] + trace@,
        points_of(pushed(Some(trace), point)).len() == trace@.len() + 1,
{
    let n = Trace { point, prev: Some(Box::new(trace)) };
    assert(n@ =~= seq![point@] + trace@);
}

/// Replacing a trace by a function that puts the point `point` on top of what
/// it is given yields `point` followed by the old points, in their order.
pub proof fn law_trace_point_puts_point_first<F: FnOnce(Trace) -> Trace>(
    trace: Trace,
    point: String,
    add: F,
    next: Trace,
)
    requires
        forall|prev: Trace, made: Trace| #[trigger]
            add.ensures((prev,), made) ==> made.point == point && made.prev == Some(
                Box::new(prev),
            ),
        add.ensures((trace,), next),
    ensures
        next@ == seq![point@] + trace@,
        next@.len() == trace@.len() + 1,
{
    assert(next@ =~= seq![point@] + trace@);
}

/// Raises an error with the payload `payload` and the trace `trace`.
pub fn throw<T, R>(payload: Box<T>, trace: Trace) -> (r: Result<R, Error<T>>)
    ensures
        r matches Err(e) && e.payload() == *payload && e.spec_trace() == Some(trace),
{
    Err(Error::new(payload, trace))
}

/// Raises an error with the payload `payload` and no trace.
pub fn throw_untraced<T, R>(payload: Box<T>) -> (r: Result<R, Error<T>>)
    ensures
        r matches Err(e) && e.payload() == *payload && e.spec_trace() is None,
{
    Err(Error::new_untraced(payload))
}

/// Passes a success through; adds `point` to the trace of an error.
pub fn catch<R, T>(result: Result<R, Error<T>>, point: String) -> (r: Result<R, Error<T>>)
    ensures
        match result {
            Ok(v) => r == Ok::<R, Error<T>>(v),
            Err(e) => r matches Err(n) && n.payload() == e.payload() && n.spec_trace() == pushed(
                e.spec_trace(),
                point,
            ),
        },
{
    match result {
        Ok(v) => Ok(v),
        Err(e) => Err(e.push_point(point)),
    }
}

/// Passes a success through; replaces the trace of an error by what `trace`
/// makes of it.
pub fn catch_with<R, T, F: FnOnce(Trace) -> Trace>(result: Result<R, Error<T>>, trace: F) -> (r:
    Result<R, Error<T>>)
    requires
        result matches Err(e) ==> (e.spec_trace() matches Some(t) ==> trace.requires((t,))),
    ensures
        match result {
            Ok(v) => r == Ok::<R, Error<T>>(v),
            Err(e) => r matches Err(n) && n.payload() == e.payload() && (e.spec_trace() matches Some(
                t,
            ) ==> (n.spec_trace() matches Some(u) && trace.ensures((t,), u))) && (
            e.spec_trace() is None ==> n.spec_trace() is None),
        },
{
    match result {
        Ok(v) => Ok(v),
        Err(e) => Err(e.trace_point(trace)),
    }
}

/// Raises an error whose payload is a [`StringException`] with the message
/// `message` and the cause `cause`, with the trace `trace`.
pub fn throw_string<R>(message: &str, cause: Option<AnyError>, trace: Trace) -> (r: Result<
    R,
    AnyError,
>)
    ensures
        r matches Err(e) && e.payload() is Text && e.payload().spec_message() == message@
            && e.payload().spec_details() == message@ && e.payload().spec_cause() == boxed(cause)
            && e.spec_trace() == Some(trace),
{
    throw(StringException::new(String::from_str(message), cause), trace)
}

/// Raises an error whose payload is a [`FormattableException`] made from
/// `value` and the cause `cause`, with the trace `trace`.
pub fn throw_formattable<F: Formattable, R>(value: F, cause: Option<AnyError>, trace: Trace) -> (r:
    Result<R, AnyError>)
    ensures
        r matches Err(e) && e.payload() is Formattable && e.payload().spec_message()
            == value.spec_display() && e.payload().spec_details() == value.spec_debug()
            && e.payload().spec_cause() == boxed(cause) && e.spec_trace() == Some(trace),
{
    throw(FormattableException::new(Box::new(value), cause), trace)
}

/// Raises an error whose payload is a [`FormattableStringException`] with the
/// user-facing message `display`, the detailed message `debug` and the cause
/// `cause`, with the trace `trace`.
pub fn throw_formattable_string<R>(
    display: &str,
    debug: &str,
    cause: Option<AnyError>,
    trace: Trace,
) -> (r: Result<R, AnyError>)
    ensures
        r matches Err(e) && e.payload() is FormattableText && e.payload().spec_message()
            == display@ && e.payload().spec_details() == debug@ && e.payload().spec_cause()
            == boxed(cause) && e.spec_trace() == Some(trace),
{
    throw(
        FormattableStringException::new(String::from_str(display), String::from_str(debug), cause),
        trace,
    )
}

} // verus!
