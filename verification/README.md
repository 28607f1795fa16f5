# dyn_trace_err

Errors with a chain of causes and a stack of trace points, verified with Verus.

- `src/trace.rs`: `Trace`, a linked list of trace points, newest first, and its
  rendering (`| [k] point` per line).
- `src/error.rs`: `Error<T>` (a payload and an optional trace), the payload
  trait `IThrowable`, the library's payloads (`StringException`,
  `FormattableException`, `FormattableStringException`, gathered in
  `Throwable`), `AnyError`, the functions that raise errors (`throw`,
  `throw_string`, ...) and add trace points (`catch`, `catch_with`), and the
  rendering of a whole chain (`[k] details` per error, then its trace lines).
- `src/text.rs`: the textual forms as sequences of characters, decimal
  numbers and `file:line` trace points.
- `app/main.rs`: an example program that prints errors.
