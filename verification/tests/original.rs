use dyn_trace_err::error::{
    Formattable, FormattableStringException, StringException, Throwable,
};
use dyn_trace_err::trace::Trace;
use dyn_trace_err::{
    catch, catch_with, location_point, throw, throw_formattable, throw_formattable_string,
    throw_string, AnyError, Error, IThrowable,
};

fn here(line: u32) -> Trace {
    Trace::new(location_point("tests/original.rs", line), None)
}

fn failing_function() -> Result<(), AnyError> {
    let msg = "Something went wrong".to_string();
    throw(StringException::new(msg, None), here(15))
}

#[test]
fn test_throw_macro_creates_error() {
    let result = failing_function();
    assert!(result.is_err());

    let err = result.unwrap_err();
    let actual_message = err.throwable().display_text();
    assert_eq!(actual_message, "Something went wrong");

    let trace = err.trace().as_ref().unwrap();
    let point = &trace.point;
    assert!(!point.is_empty());
    assert!(point.contains(':'));
    let parts: Vec<&str> = point.split(':').collect();
    assert_eq!(parts.len(), 2);
    let line: usize = parts[1].parse().expect("the line number is a number");
    assert!(line > 0);
    assert!(parts[0].contains("lib.rs") || parts[0].contains("tests"));
    assert!(trace.prev.is_none());
}

fn inner_with_cause() -> Result<(), AnyError> {
    throw(StringException::new("Inner error".to_string(), None), here(41))
}

fn outer_with_cause() -> Result<(), AnyError> {
    if let Err(e) = inner_with_cause() {
        return throw(StringException::new("Outer error".to_string(), Some(e)), here(46));
    }
    Ok(())
}

#[test]
fn test_throw_with_cause() {
    let result = outer_with_cause();
    assert!(result.is_err());
    let err = result.unwrap_err();

    let cause_opt = err.throwable().cause();
    assert!(cause_opt.is_some());
    let cause_err = cause_opt.as_ref().unwrap();
    let cause_msg = cause_err.throwable().display_text();
    assert_eq!(cause_msg, "Inner error");

    assert!(!err.trace().as_ref().unwrap().point.is_empty());
    assert!(!cause_err.trace().as_ref().unwrap().point.is_empty());
}

fn failing_simple() -> Result<(), AnyError> {
    throw_string("Simple error", None, here(67))
}

#[test]
fn test_throw_string_macro_without_cause() {
    let result = failing_simple();
    assert!(result.is_err());
    let err = result.unwrap_err();
    let msg = err.throwable().display_text();
    assert_eq!(msg, "Simple error");
}

fn inner_string() -> Result<(), AnyError> {
    throw_string("Inner error", None, here(80))
}

fn outer_string() -> Result<(), AnyError> {
    if let Err(e) = inner_string() {
        return throw_string("Outer error", Some(e), here(85));
    }
    Ok(())
}

#[test]
fn test_throw_string_macro_with_cause() {
    let result = outer_string();
    assert!(result.is_err());
    let err = result.unwrap_err();

    let cause_opt = err.throwable().cause();
    assert!(cause_opt.is_some());
    let cause_err = cause_opt.as_ref().unwrap();
    let msg = cause_err.throwable().display_text();
    assert_eq!(msg, "Inner error");
}

fn inner_caught() -> Result<(), AnyError> {
    throw(StringException::new("Inner error".to_string(), None), here(103))
}

fn outer_catching() -> Result<(), AnyError> {
    catch(inner_caught(), location_point("tests/original.rs", 107))?;
    Ok(())
}

#[test]
fn test_catch_macro_adds_trace_point() {
    let result = outer_catching();
    assert!(result.is_err());

    let err = result.unwrap_err();

    let trace = err.trace().as_ref().unwrap();
    assert!(trace.prev.is_some());
    assert!(trace.point.contains(':'));
    if let Some(prev_trace) = &trace.prev {
        assert!(prev_trace.point.contains(':'));
    }
    let mut count = 0;
    let mut current = Some(trace);
    while let Some(t) = current {
        count += 1;
        current = t.prev.as_deref();
    }
    assert!(count >= 2);
}

fn inner_display() -> Result<(), AnyError> {
    throw_string("Inner", None, here(134))
}

fn outer_display() -> Result<(), AnyError> {
    if let Err(e) = inner_display() {
        return throw_string("Outer", Some(e), here(139));
    }
    Ok(())
}

#[test]
fn test_display_formatting_with_cause() {
    let err = outer_display().unwrap_err();

    let display_output = err.display_text();
    assert_eq!(display_output, "Outer");

    let debug_output = err.debug_text();
    assert!(debug_output.contains("[0] Outer"));
    assert!(debug_output.contains("[1] Inner"));

    let count = debug_output.matches("| [0]").count();
    assert!(count >= 2, "there is a | [0] line for each of the two errors");
    let pos0 = debug_output.find("[0] Outer").unwrap();
    let pos1 = debug_output.find("[1] Inner").unwrap();
    assert!(pos0 < pos1, "the outer error comes before the inner one");
}

fn level3() -> Result<(), AnyError> {
    throw_string("level3", None, here(162))
}

fn level2() -> Result<(), AnyError> {
    catch(level3(), location_point("tests/original.rs", 166))?;
    Ok(())
}

fn level1() -> Result<(), AnyError> {
    catch(level2(), location_point("tests/original.rs", 171))?;
    Ok(())
}

#[test]
fn test_trace_order() {
    let err = level1().unwrap_err();
    let trace = err.trace().as_ref().unwrap();
    let mut count = 0;
    let mut current = Some(trace);
    while let Some(t) = current {
        count += 1;
        assert!(t.point.contains(':'), "a point has the form file:line");
        current = t.prev.as_deref();
    }
    assert_eq!(count, 3, "there are exactly three trace points");
}

#[test]
fn test_trace_point_method() {
    let err = Error::new(
        StringException::new("base".to_string(), None),
        Trace::new("root".to_string(), None),
    );
    let new_err = err.trace_point(|prev| Trace::new("new_point".to_string(), Some(prev)));

    let trace = new_err.trace().as_ref().unwrap();
    assert_eq!(trace.point, "new_point");
    let prev = trace.prev.as_ref().unwrap();
    assert_eq!(prev.point, "root");
    assert!(prev.prev.is_none());
}

fn inner_explicit() -> Result<(), AnyError> {
    throw(StringException::new("inner".to_string(), None), here(204))
}

fn outer_explicit() -> Result<(), AnyError> {
    catch_with(inner_explicit(), |prev| Trace::new("explicit".to_string(), Some(prev)))?;
    Ok(())
}

#[test]
fn test_catch_with_explicit_trace() {
    let err = outer_explicit().unwrap_err();
    let trace = err.trace().as_ref().unwrap();
    assert_eq!(trace.point, "explicit");
    let prev = trace.prev.as_ref().unwrap();
    assert!(prev.point.contains(':') || prev.point == "inner");
}

fn fail_custom_trace() -> Result<(), AnyError> {
    throw_string("msg", None, Trace::new("custom_trace".to_string(), None))
}

#[test]
fn test_throw_string_with_explicit_trace() {
    let err = fail_custom_trace().unwrap_err();
    let trace = err.trace().as_ref().unwrap();
    assert_eq!(trace.point, "custom_trace");
    assert!(trace.prev.is_none());
}

#[test]
fn test_no_trace_absence() {
    let err = Error::new_untraced(StringException::new("test".to_string(), None));
    let output = err.debug_text();
    assert!(!output.contains("| ["));
    assert!(output.contains("[0] test"));
}

fn fail_for_throwable() -> Result<(), AnyError> {
    throw(StringException::new("test".to_string(), None), here(242))
}

#[test]
fn test_throwable_method() {
    let err = fail_for_throwable().unwrap_err();
    let throwable = err.throwable();
    let msg = throwable.display_text();
    assert_eq!(msg, "test");
}

struct MyErr {
    code: u32,
    cause: Option<Box<AnyError>>,
}

impl IThrowable for MyErr {
    fn display_text(&self) -> String {
        format!("Code: {}", self.code)
    }

    fn debug_text(&self) -> String {
        format!("Code: {}", self.code)
    }

    fn cause(&self) -> &Option<Box<AnyError>> {
        &self.cause
    }
}

#[test]
fn test_custom_throwable_type() {
    let err = MyErr { code: 42, cause: None };
    let error = Error::new(Box::new(err), Trace::new("test".to_string(), None));
    let throwable = error.throwable();
    assert_eq!(throwable.code, 42);
}

struct CustomError;

impl Formattable for CustomError {
    fn display_text(&self) -> String {
        "Display message".to_string()
    }

    fn debug_text(&self) -> String {
        "Debug message".to_string()
    }
}

fn fail_formattable() -> Result<(), AnyError> {
    throw_formattable(CustomError, None, here(292))
}

#[test]
fn test_formattable_exception() {
    let err = fail_formattable().unwrap_err();
    assert_eq!(err.display_text(), "Display message");
    assert!(err.debug_text().contains("Debug message"));
}

fn fail_formattable_string() -> Result<(), AnyError> {
    throw_formattable_string("User error", "Debug: detailed info", None, here(303))
}

#[test]
fn test_formattable_string_exception() {
    let err: Box<Throwable> = FormattableStringException::new(
        "display message".to_string(),
        "debug message".to_string(),
        None,
    );
    assert_eq!(err.display_text(), "display message");
    assert_eq!(err.debug_text(), "debug message");

    let err = fail_formattable_string().unwrap_err();
    assert_eq!(err.display_text(), "User error");
    assert!(err.debug_text().contains("Debug: detailed info"));
}

fn inner_formattable_string() -> Result<(), AnyError> {
    throw_formattable_string("inner display", "inner debug", None, here(322))
}

fn outer_formattable_string() -> Result<(), AnyError> {
    if let Err(e) = inner_formattable_string() {
        return throw_formattable_string("outer display", "outer debug", Some(e), here(327));
    }
    Ok(())
}

#[test]
fn test_formattable_string_with_cause() {
    let err = outer_formattable_string().unwrap_err();
    assert_eq!(err.display_text(), "outer display");

    let debug = err.debug_text();
    assert!(debug.contains("outer debug"));
    assert!(debug.contains("inner debug"));
    assert!(err.throwable().cause().is_some());
    let cause = err.throwable().cause().as_ref().unwrap();
    assert_eq!(cause.display_text(), "inner display");
}

fn fail_formattable_custom_trace() -> Result<(), AnyError> {
    throw_formattable_string(
        "display",
        "debug",
        None,
        Trace::new("custom_trace".to_string(), None),
    )
}

#[test]
fn test_formattable_string_with_explicit_trace() {
    let err = fail_formattable_custom_trace().unwrap_err();
    assert_eq!(err.trace().as_ref().unwrap().point, "custom_trace");
}
