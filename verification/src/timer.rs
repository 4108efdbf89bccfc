//! The scoped console timer itself.

use vstd::prelude::*;

verus! {

/// A console time measurement.
///
/// Constructing one starts the browser measurement named by its label, with
/// `console.time`; dropping it ends that measurement, with `console.timeEnd`.
/// Because the end call sits in `drop`, it runs on every exit path from the
/// owning scope — a normal fall-through, an early return, or a propagating
/// panic — and exclusive ownership makes it run exactly once per instance.
///
/// See [`ConsoleTimer::scope`] for measuring code wrapped in a closure.
#[derive(Debug)]
pub struct ConsoleTimer<'a> {
    label: &'a str,
}

impl<'a> View for ConsoleTimer<'a> {
    type V = Seq<char>;

    closed spec fn view(&self) -> Seq<char> {
        self.label@
    }
}

impl<'a> ConsoleTimer<'a> {
    /// Starts a console time measurement named `label`. The measurement ends
    /// when the returned `ConsoleTimer` is dropped.
    pub fn new(label: &'a str) -> (t: ConsoleTimer<'a>)
        ensures
            t@ == label@,
    {
        begin_measurement(label);
        ConsoleTimer { label }
    }

    /// The label the measurement runs under.
    pub fn label(&self) -> (r: &str)
        ensures
            r@ == self@,
    {
        self.label
    }

    /// Runs `body` inside a console time measurement named `label` and hands
    /// its value through unchanged.
    ///
    /// The measurement begins before `body` runs and ends when `body` is
    /// done — also when it unwinds, since the timer's `drop` runs either way.
    pub fn scope<F, T>(label: &str, body: F) -> (r: T) where F: FnOnce() -> T
        requires
            call_requires(body, ()),
        ensures
            call_ensures(body, (), r),
    {
        let _timer = ConsoleTimer::new(label);
        body()
    }
}

impl<'a> Drop for ConsoleTimer<'a> {
    /// Relies on `web_sys::console::time_end_with_label`: ends the browser
    /// console measurement named by the stored label. Fire and forget: the
    /// call returns nothing and does not unwind.
    #[verifier::external_body]
    fn drop(&mut self)
        opens_invariants none
        no_unwind
    {
        web_sys::console::time_end_with_label(self.label);
    }
}

/// Relies on `web_sys::console::time_with_label`: starts the browser console
/// measurement named `label`. Fire and forget: the call returns nothing.
#[verifier::external_body]
fn begin_measurement(label: &str) {
    web_sys::console::time_with_label(label);
}

} // verus!
